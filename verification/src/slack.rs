//! The message that goes out to a channel.

use vstd::prelude::*;
use crate::text::{opt_str_text, opt_text};

verus! {

/// The colour of the bar beside an attachment.
#[derive(Debug, Clone, Copy, PartialEq, Eq, Structural)]
pub enum Color {
    Good,
    Warning,
    Danger,
    Comment,
    Merged,
    Closed,
}

/// A block below the text of a message.
#[derive(Debug)]
pub struct Attachment {
    pub title: Option<String>,
    pub title_link: Option<String>,
    pub fallback: String,
    pub text: String,
    pub color: Option<Color>,
}

/// A composed message, not yet addressed to a channel.
#[derive(Debug)]
pub struct Message {
    pub text: String,
    pub attachments: Option<Vec<Attachment>>,
}

/// A message addressed to a channel, as it is sent.
#[derive(Debug)]
pub struct MessagePayload {
    pub channel: String,
    pub username: Option<String>,
    pub text: String,
    pub fallback: Option<String>,
    pub attachments: Option<Vec<Attachment>>,
}

/// An attachment as plain values.
pub ghost struct AttachmentView {
    pub title: Option<Seq<char>>,
    pub title_link: Option<Seq<char>>,
    pub fallback: Seq<char>,
    pub text: Seq<char>,
    pub color: Option<Color>,
}

/// A message as plain values.
pub ghost struct MessageView {
    pub text: Seq<char>,
    pub attachments: Option<Seq<AttachmentView>>,
}

/// An addressed message as plain values.
pub ghost struct MessagePayloadView {
    pub channel: Seq<char>,
    pub username: Option<Seq<char>>,
    pub text: Seq<char>,
    pub fallback: Option<Seq<char>>,
    pub attachments: Option<Seq<AttachmentView>>,
}

/// The attachments of an optional list as plain values, in order.
pub open spec fn attachment_views(list: Option<Vec<Attachment>>) -> Option<Seq<AttachmentView>> {
    match list {
        Some(v) => Some(Seq::new(v@.len(), |i: int| v@[i]@)),
        None => None,
    }
}

impl View for Attachment {
    type V = AttachmentView;

    open spec fn view(&self) -> AttachmentView {
        AttachmentView {
            title: opt_text(self.title),
            title_link: opt_text(self.title_link),
            fallback: self.fallback@,
            text: self.text@,
            color: self.color,
        }
    }
}

impl View for Message {
    type V = MessageView;

    open spec fn view(&self) -> MessageView {
        MessageView { text: self.text@, attachments: attachment_views(self.attachments) }
    }
}

impl View for MessagePayload {
    type V = MessagePayloadView;

    open spec fn view(&self) -> MessagePayloadView {
        MessagePayloadView {
            channel: self.channel@,
            username: opt_text(self.username),
            text: self.text@,
            fallback: opt_text(self.fallback),
            attachments: attachment_views(self.attachments),
        }
    }
}

impl Color {
    /// The name under which the colour is sent: a word for the three
    /// standard colours, a hexadecimal code for the others.
    pub open spec fn spec_name(self) -> Seq<char> {
        match self {
            Color::Good => "good"@,
            Color::Warning => "warning"@,
            Color::Danger => "danger"@,
            Color::Comment => "#24292F"@,
            Color::Merged => "#6F42C1"@,
            Color::Closed => "#CB2431"@,
        }
    }

    pub fn name(self) -> (name: &'static str)
        ensures
            name@ == self.spec_name(),
    {
        match self {
            Color::Good => "good",
            Color::Warning => "warning",
            Color::Danger => "danger",
            Color::Comment => "#24292F",
            Color::Merged => "#6F42C1",
            Color::Closed => "#CB2431",
        }
    }
}

/// A copy of an optional string.
fn copy_text(field: &Option<String>) -> (copy: Option<String>)
    ensures
        opt_text(copy) == opt_text(*field),
{
    match field {
        Some(text) => Some(text.clone()),
        None => None,
    }
}

impl Attachment {
    /// A copy of the attachment.
    pub fn duplicate(&self) -> (copy: Attachment)
        ensures
            copy@ == self@,
    {
        Attachment {
            title: copy_text(&self.title),
            title_link: copy_text(&self.title_link),
            fallback: self.fallback.clone(),
            text: self.text.clone(),
            color: self.color,
        }
    }
}

impl Message {
    /// A copy of the message.
    pub fn duplicate(&self) -> (copy: Message)
        ensures
            copy@ == self@,
    {
        let attachments = match &self.attachments {
            Some(list) => {
                let mut copies: Vec<Attachment> = Vec::new();
                let mut i: usize = 0;
                while i < list.len()
                    invariant
                        i <= list.len(),
                        copies@.len() == i,
                        forall|k: int| 0 <= k < i ==> copies@[k]@ == list@[k]@,
                    decreases list.len() - i,
                {
                    copies.push(list[i].duplicate());
                    i += 1;
                }
                assert(attachment_views(Some(copies)) =~= attachment_views(self.attachments)) by {
                    assert(attachment_views(Some(copies))->0 =~= attachment_views(
                        self.attachments,
                    )->0);
                }
                Some(copies)
            },
            None => None,
        };
        Message { text: self.text.clone(), attachments }
    }

    /// A message of text alone.
    pub fn from_string(text: String) -> (message: Self)
        ensures
            message@ == (MessageView { text: text@, attachments: None }),
    {
        Self { text, attachments: None }
    }

    /// Addresses the message to a channel, under a sender name if one is
    /// given. Text and attachments stay as they are.
    pub fn into_payload(self, channel: &str, username: Option<&str>) -> (payload: MessagePayload)
        ensures
            payload@ == (MessagePayloadView {
                channel: channel@,
                username: opt_str_text(username),
                text: self@.text,
                fallback: None,
                attachments: self@.attachments,
            }),
    {
        let username = match username {
            Some(name) => Some(name.to_owned()),
            None => None,
        };
        MessagePayload {
            channel: channel.to_owned(),
            username,
            text: self.text,
            fallback: None,
            attachments: self.attachments,
        }
    }
}

} // verus!
