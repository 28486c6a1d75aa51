//! From an event to the message that reports it, or to the decision to
//! report nothing.

use vstd::prelude::*;
use vstd::string::StringExecFns;
use crate::github::{
    IssueCommentAction, IssueCommentEvent, IssuesAction, IssuesEvent, Payload, PullRequestAction,
    PullRequestEvent,
};
use crate::github::common::{logins, text_or_empty, unwrap_or_empty, User};
use crate::slack::{Attachment, AttachmentView, Color, Message, MessageView};
use crate::text::{decimal, join, number_text, opt_str_text};

verus! {

/// How one user is listed: by handle, or as a link to the user's page that
/// shows the handle.
pub open spec fn user_entry(login: Seq<char>, to_link: bool) -> Seq<char> {
    if to_link {
        "<https://github.com/"@ + login + "|"@ + login + ">"@
    } else {
        login
    }
}

/// The entries of a list of users, in order.
pub open spec fn user_entries(logins: Seq<Seq<char>>, to_link: bool) -> Seq<Seq<char>> {
    Seq::new(logins.len(), |i: int| user_entry(logins[i], to_link))
}

/// A list of users as text: their entries with the delimiter between them.
pub open spec fn users_text(logins: Seq<Seq<char>>, delimiter: Seq<char>, to_link: bool) -> Seq<
    char,
> {
    join(user_entries(logins, to_link), delimiter)
}

/// The first line of a message: the repository in brackets, then what
/// happened and who is concerned.
pub open spec fn headline(repo: Seq<char>, what: Seq<char>, who: Seq<char>) -> Seq<char> {
    "["@ + repo + "] "@ + what + who
}

/// The title of an attachment: number sign, number, a space and the title.
pub open spec fn numbered_title(number: nat, title: Seq<char>) -> Seq<char> {
    "#"@ + decimal(number) + " "@ + title
}

/// The text of an attachment for something newly opened: its body, and
/// below it the assignees as links, one on each line, if there are any.
pub open spec fn body_with_assignees(body: Seq<char>, assignees: Seq<Seq<char>>) -> Seq<char> {
    if assignees.len() == 0 {
        body
    } else {
        body + "\n*Assignees*\n"@ + users_text(assignees, "\n"@, true)
    }
}

/// The message for an issue or pull request that was opened.
pub open spec fn opened_message(
    header: Seq<char>,
    number: nat,
    title: Seq<char>,
    body: Seq<char>,
    link: Seq<char>,
    assignees: Seq<Seq<char>>,
) -> MessageView {
    MessageView {
        text: header,
        attachments: Some(
            seq![
                AttachmentView {
                    title: Some(numbered_title(number, title)),
                    title_link: Some(link),
                    fallback: title + "\n"@ + body,
                    text: body_with_assignees(body, assignees),
                    color: Some(Color::Good),
                },
            ],
        ),
    }
}

/// The message for an issue or pull request that was assigned.
pub open spec fn assigned_message(
    header: Seq<char>,
    number: nat,
    title: Seq<char>,
    link: Seq<char>,
    assignees: Seq<Seq<char>>,
) -> MessageView {
    MessageView {
        text: header,
        attachments: Some(
            seq![
                AttachmentView {
                    title: Some(numbered_title(number, title)),
                    title_link: Some(link),
                    fallback: title,
                    text: "*Assignees*\n"@ + users_text(assignees, "\n"@, true),
                    color: Some(Color::Good),
                },
            ],
        ),
    }
}

/// The first line of the message for a new comment: who commented on what,
/// with a link to the comment that shows number and title.
pub open spec fn comment_headline(
    repo: Seq<char>,
    user: Seq<char>,
    on_pull_request: bool,
    link: Seq<char>,
    number: nat,
    title: Seq<char>,
) -> Seq<char> {
    "["@ + repo + "] New comment by "@ + user + " on "@ + (if on_pull_request {
        "pull request"@
    } else {
        "issue"@
    }) + " <"@ + link + "|#"@ + decimal(number) + ": "@ + title + ">"@
}

/// The message for a new comment.
pub open spec fn comment_message(header: Seq<char>, body: Seq<char>) -> MessageView {
    MessageView {
        text: header,
        attachments: Some(
            seq![
                AttachmentView {
                    title: None,
                    title_link: None,
                    fallback: body,
                    text: body,
                    color: Some(Color::Comment),
                },
            ],
        ),
    }
}

/// The entry of one user.
fn entry(login: &str, to_link: bool) -> (out: String)
    ensures
        out@ == user_entry(login@, to_link),
{
    if to_link {
        let mut out = "<https://github.com/".to_owned();
        out.append(login);
        out.append("|");
        out.append(login);
        out.append(">");
        assert(out@ =~= user_entry(login@, to_link));
        out
    } else {
        login.to_owned()
    }
}

/// The users as text, with the delimiter between them, each by handle or,
/// if `to_link` is set, as a link. Nothing for an empty list.
pub fn users2str(assignees: &[User], delimiter: &str, to_link: bool) -> (out: Option<String>)
    ensures
        assignees@.len() == 0 ==> out is None,
        assignees@.len() > 0 ==> (out matches Some(text) && text@ == users_text(
            logins(assignees@),
            delimiter@,
            to_link,
        )),
{
    if assignees.len() == 0 {
        return None;
    }
    let ghost entries = user_entries(logins(assignees@), to_link);
    let mut out = entry(assignees[0].login, to_link);
    assert(entries.take(1) =~= seq![entries[0]]);
    let mut i: usize = 1;
    while i < assignees.len()
        invariant
            1 <= i <= assignees.len(),
            entries == user_entries(logins(assignees@), to_link),
            out@ == join(entries.take(i as int), delimiter@),
        decreases assignees.len() - i,
    {
        let next = entry(assignees[i].login, to_link);
        proof {
            assert(entries.take(i + 1).drop_last() =~= entries.take(i as int));
            assert(entries.take(i + 1).last() == next@);
        }
        out.append(delimiter);
        out.append(next.as_str());
        i += 1;
    }
    assert(entries.take(i as int) =~= entries);
    Some(out)
}

/// What composing an event gives: a message, or the decision to report
/// nothing.
#[derive(Debug)]
pub enum CreatedMessage {
    Composed(Message),
    SkipThisEvent,
}

impl View for CreatedMessage {
    type V = Option<MessageView>;

    open spec fn view(&self) -> Option<MessageView> {
        match self {
            CreatedMessage::Composed(message) => Some(message@),
            CreatedMessage::SkipThisEvent => None,
        }
    }
}

impl CreatedMessage {
    /// The message, if there is one.
    pub fn as_ok(&self) -> (message: Option<&Message>)
        ensures
            match self {
                CreatedMessage::Composed(m) => message == Some(m),
                CreatedMessage::SkipThisEvent => message is None,
            },
    {
        if let Self::Composed(v) = self {
            Some(v)
        } else {
            None
        }
    }
}

/// An event that can be composed into a message.
pub trait IntoMessage {
    /// Whether the event holds what its action promises: an event that
    /// reports an assignment names at least one assignee.
    spec fn well_formed(&self) -> bool;

    /// What the event composes to: a message, or nothing for an action that
    /// is not reported.
    spec fn composed(&self) -> Option<MessageView>;

    /// Composes the event.
    fn create_message(&self) -> (created: CreatedMessage)
        requires
            self.well_formed(),
        ensures
            created@ == self.composed(),
    ;
}

/// Why an event cannot be composed.
#[derive(Debug, Clone, Copy, PartialEq, Eq, Structural)]
pub enum ComposeError {
    /// The event reports an assignment and names no assignee.
    NoAssignees,
}

/// Whether the action of the event is one that is reported: opening and
/// assigning for issues and pull requests, creating for comments.
pub open spec fn reported(payload: Payload) -> bool {
    match payload {
        Payload::Issues(event) => event.action == IssuesAction::Opened || event.action
            == IssuesAction::Assigned,
        Payload::PullRequest(event) => event.action == PullRequestAction::Opened || event.action
            == PullRequestAction::Assigned,
        Payload::IssueComment(event) => event.action == IssueCommentAction::Created,
    }
}

/// Whether the event reports an assignment and names no assignee.
pub open spec fn lacks_assignee(payload: Payload) -> bool {
    match payload {
        Payload::Issues(event) => event.action == IssuesAction::Assigned
            && event.issue.assignees@.len() == 0,
        Payload::PullRequest(event) => event.action == PullRequestAction::Assigned
            && event.pull_request.assignees@.len() == 0,
        Payload::IssueComment(_) => false,
    }
}

/// An event is well formed exactly when it does not report an assignment
/// without an assignee. A well-formed event composes to a message exactly
/// when its action is one that is reported.
pub proof fn lemma_composed_when_reported(payload: Payload)
    ensures
        payload.well_formed() <==> !lacks_assignee(payload),
        payload.composed() is Some <==> reported(payload),
{
}

/// Whether the event holds what its action promises.
pub fn is_well_formed(payload: &Payload) -> (ok: bool)
    ensures
        ok == payload.well_formed(),
{
    match payload {
        Payload::IssueComment(_) => true,
        Payload::Issues(event) => match event.action {
            IssuesAction::Assigned => event.issue.assignees.len() > 0,
            _ => true,
        },
        Payload::PullRequest(event) => match event.action {
            PullRequestAction::Assigned => event.pull_request.assignees.len() > 0,
            _ => true,
        },
    }
}

/// Composes the event, or refuses an event that reports an assignment
/// without an assignee: no message is made of such an event, and none is
/// skipped in silence.
pub fn compose(payload: &Payload) -> (made: Result<CreatedMessage, ComposeError>)
    ensures
        made is Err <==> lacks_assignee(*payload),
        made matches Ok(created) ==> created@ == payload.composed(),
{
    if is_well_formed(payload) {
        Ok(payload.create_message())
    } else {
        Err(ComposeError::NoAssignees)
    }
}

impl<'a> IssuesEvent<'a> {
    /// The single assignee that an opened or assigned issue carries beside
    /// its list of assignees, if it carries one: an oddity worth a note.
    pub open spec fn spec_lone_assignee(&self) -> Option<Seq<char>> {
        if self.action == IssuesAction::Opened || self.action == IssuesAction::Assigned {
            match self.issue.assignee {
                Some(user) => Some(user.login@),
                None => None,
            }
        } else {
            None
        }
    }

    pub fn lone_assignee(&self) -> (login: Option<&'a str>)
        ensures
            opt_str_text(login) == self.spec_lone_assignee(),
    {
        match self.action {
            IssuesAction::Opened | IssuesAction::Assigned => match &self.issue.assignee {
                Some(user) => Some(user.login),
                None => None,
            },
            _ => None,
        }
    }
}

/// Composing is a function of the event alone: whatever two calls on the
/// same event return, character for character it is the same.
pub proof fn lemma_composing_repeats<E: IntoMessage>(
    event: E,
    first: CreatedMessage,
    second: CreatedMessage,
)
    requires
        first@ == event.composed(),
        second@ == event.composed(),
    ensures
        first@ == second@,
{
}

/// The header text ahead of the names, in a string of its own.
fn headline_text(repo: &str, what: &str, who: &str) -> (out: String)
    ensures
        out@ == headline(repo@, what@, who@),
{
    let mut out = "[".to_owned();
    out.append(repo);
    out.append("] ");
    out.append(what);
    out.append(who);
    assert(out@ =~= headline(repo@, what@, who@));
    out
}

/// The title of an attachment.
fn numbered_title_text(number: usize, title: &str) -> (out: String)
    ensures
        out@ == numbered_title(number as nat, title@),
{
    let mut out = "#".to_owned();
    out.append(number_text(number).as_str());
    out.append(" ");
    out.append(title);
    assert(out@ =~= numbered_title(number as nat, title@));
    out
}

/// Composes the message for an issue or pull request that was opened.
fn compose_opened(
    header: String,
    number: usize,
    title: &str,
    body: Option<&str>,
    link: &String,
    assignees: &[User],
) -> (message: Message)
    ensures
        message@ == opened_message(
            header@,
            number as nat,
            title@,
            text_or_empty(body),
            link@,
            logins(assignees@),
        ),
{
    let body = unwrap_or_empty(body);
    let mut text = body.to_owned();
    if let Some(astr) = users2str(assignees, "\n", true) {
        text.append("\n*Assignees*\n");
        text.append(astr.as_str());
        assert(text@ =~= body_with_assignees(body@, logins(assignees@)));
    }
    let mut fallback = title.to_owned();
    fallback.append("\n");
    fallback.append(body);
    let attach = Attachment {
        title: Some(numbered_title_text(number, title)),
        title_link: Some(link.clone()),
        fallback,
        text,
        color: Some(Color::Good),
    };
    let mut list: Vec<Attachment> = Vec::new();
    list.push(attach);
    let message = Message { text: header, attachments: Some(list) };
    assert(message@.attachments->0 =~= seq![attach@]);
    message
}

/// Composes the message for an issue or pull request that was assigned.
fn compose_assigned(
    repo: &str,
    what: &str,
    number: usize,
    title: &str,
    link: &String,
    assignees: &[User],
) -> (message: Message)
    requires
        assignees@.len() > 0,
    ensures
        message@ == assigned_message(
            headline(repo@, what@, users_text(logins(assignees@), ","@, false)),
            number as nat,
            title@,
            link@,
            logins(assignees@),
        ),
{
    let names = users2str(assignees, ",", false).unwrap();
    let header = headline_text(repo, what, names.as_str());
    let links = users2str(assignees, "\n", true).unwrap();
    let mut text = "*Assignees*\n".to_owned();
    text.append(links.as_str());
    let attach = Attachment {
        title: Some(numbered_title_text(number, title)),
        title_link: Some(link.clone()),
        fallback: title.to_owned(),
        text,
        color: Some(Color::Good),
    };
    let mut list: Vec<Attachment> = Vec::new();
    list.push(attach);
    let message = Message { text: header, attachments: Some(list) };
    assert(message@.attachments->0 =~= seq![attach@]);
    message
}

impl<'a> IntoMessage for IssuesEvent<'a> {
    open spec fn well_formed(&self) -> bool {
        self.action == IssuesAction::Assigned ==> self.issue.assignees@.len() > 0
    }

    open spec fn composed(&self) -> Option<MessageView> {
        match self.action {
            IssuesAction::Opened => Some(
                opened_message(
                    headline(self.repository.full_name@, "Issue created by "@, self.sender.login@),
                    self.issue.number as nat,
                    self.issue.title@,
                    text_or_empty(self.issue.body),
                    self.issue.html_url@,
                    logins(self.issue.assignees@),
                ),
            ),
            IssuesAction::Assigned => Some(
                assigned_message(
                    headline(
                        self.repository.full_name@,
                        "Issue assigned to "@,
                        users_text(logins(self.issue.assignees@), ","@, false),
                    ),
                    self.issue.number as nat,
                    self.issue.title@,
                    self.issue.html_url@,
                    logins(self.issue.assignees@),
                ),
            ),
            _ => None,
        }
    }

    fn create_message(&self) -> (created: CreatedMessage) {
        let repo = &self.repository;
        let issue = &self.issue;
        match self.action {
            IssuesAction::Opened => {
                let text = headline_text(repo.full_name, "Issue created by ", self.sender.login);
                CreatedMessage::Composed(
                    compose_opened(
                        text,
                        issue.number,
                        issue.title,
                        issue.body,
                        &issue.html_url,
                        issue.assignees.as_slice(),
                    ),
                )
            },
            IssuesAction::Assigned => CreatedMessage::Composed(
                compose_assigned(
                    repo.full_name,
                    "Issue assigned to ",
                    issue.number,
                    issue.title,
                    &issue.html_url,
                    issue.assignees.as_slice(),
                ),
            ),
            _ => CreatedMessage::SkipThisEvent,
        }
    }
}

impl<'a> IntoMessage for PullRequestEvent<'a> {
    open spec fn well_formed(&self) -> bool {
        self.action == PullRequestAction::Assigned ==> self.pull_request.assignees@.len() > 0
    }

    open spec fn composed(&self) -> Option<MessageView> {
        match self.action {
            PullRequestAction::Opened => Some(
                opened_message(
                    headline(
                        self.repository.full_name@,
                        "Pull Request opened by "@,
                        self.pull_request.user.login@,
                    ),
                    self.pull_request.number as nat,
                    self.pull_request.title@,
                    text_or_empty(self.pull_request.body),
                    self.pull_request.html_url@,
                    logins(self.pull_request.assignees@),
                ),
            ),
            PullRequestAction::Assigned => Some(
                assigned_message(
                    headline(
                        self.repository.full_name@,
                        "Pull Request assigned to "@,
                        users_text(logins(self.pull_request.assignees@), ","@, false),
                    ),
                    self.pull_request.number as nat,
                    self.pull_request.title@,
                    self.pull_request.html_url@,
                    logins(self.pull_request.assignees@),
                ),
            ),
            _ => None,
        }
    }

    fn create_message(&self) -> (created: CreatedMessage) {
        let repo = &self.repository;
        let pr = &self.pull_request;
        match self.action {
            PullRequestAction::Opened => {
                let text = headline_text(
                    repo.full_name,
                    "Pull Request opened by ",
                    pr.user.login,
                );
                CreatedMessage::Composed(
                    compose_opened(
                        text,
                        pr.number,
                        pr.title,
                        pr.body,
                        &pr.html_url,
                        pr.assignees.as_slice(),
                    ),
                )
            },
            PullRequestAction::Assigned => CreatedMessage::Composed(
                compose_assigned(
                    repo.full_name,
                    "Pull Request assigned to ",
                    pr.number,
                    pr.title,
                    &pr.html_url,
                    pr.assignees.as_slice(),
                ),
            ),
            _ => CreatedMessage::SkipThisEvent,
        }
    }
}

impl<'a> IntoMessage for IssueCommentEvent<'a> {
    open spec fn well_formed(&self) -> bool {
        true
    }

    open spec fn composed(&self) -> Option<MessageView> {
        match self.action {
            IssueCommentAction::Created => Some(
                comment_message(
                    comment_headline(
                        self.repository.full_name@,
                        self.comment.user.login@,
                        self.issue.spec_is_pull_request(),
                        self.comment.html_url@,
                        self.issue.number as nat,
                        self.issue.title@,
                    ),
                    self.comment.body@,
                ),
            ),
            _ => None,
        }
    }

    fn create_message(&self) -> (created: CreatedMessage) {
        let repo = &self.repository;
        let issue = &self.issue;
        let comment = &self.comment;
        match self.action {
            IssueCommentAction::Created => {
                let typ = if self.is_pull_request() {
                    "pull request"
                } else {
                    "issue"
                };
                let mut text = "[".to_owned();
                text.append(repo.full_name);
                text.append("] New comment by ");
                text.append(comment.user.login);
                text.append(" on ");
                text.append(typ);
                text.append(" <");
                text.append(comment.html_url.as_str());
                text.append("|#");
                text.append(number_text(issue.number).as_str());
                text.append(": ");
                text.append(issue.title);
                text.append(">");
                assert(text@ =~= comment_headline(
                    repo.full_name@,
                    comment.user.login@,
                    issue.spec_is_pull_request(),
                    comment.html_url@,
                    issue.number as nat,
                    issue.title@,
                ));
                let attach = Attachment {
                    title: None,
                    title_link: None,
                    fallback: comment.body.to_owned(),
                    text: comment.body.to_owned(),
                    color: Some(Color::Comment),
                };
                let mut list: Vec<Attachment> = Vec::new();
                list.push(attach);
                let message = Message { text, attachments: Some(list) };
                assert(message@.attachments->0 =~= seq![attach@]);
                CreatedMessage::Composed(message)
            },
            _ => CreatedMessage::SkipThisEvent,
        }
    }
}

impl<'a> IntoMessage for Payload<'a> {
    open spec fn well_formed(&self) -> bool {
        match self {
            Payload::IssueComment(ic) => ic.well_formed(),
            Payload::Issues(i) => i.well_formed(),
            Payload::PullRequest(p) => p.well_formed(),
        }
    }

    open spec fn composed(&self) -> Option<MessageView> {
        match self {
            Payload::IssueComment(ic) => ic.composed(),
            Payload::Issues(i) => i.composed(),
            Payload::PullRequest(p) => p.composed(),
        }
    }

    fn create_message(&self) -> (created: CreatedMessage) {
        match self {
            Payload::IssueComment(ic) => ic.create_message(),
            Payload::Issues(i) => i.create_message(),
            Payload::PullRequest(p) => p.create_message(),
        }
    }
}

} // verus!
