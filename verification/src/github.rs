//! The event model: three event shapes behind one set of accessors.

pub mod common;

use vstd::prelude::*;
use crate::github::common::{label_names, text_or_empty, texts, unwrap_or_empty};

verus! {

/// What happened to an issue.
#[derive(Debug, PartialEq)]
pub enum IssuesAction {
    Opened,
    Edited,
    Deleted,
    Pinned,
    Unpinned,
    Closed,
    Reopened,
    Assigned,
    Unassigned,
    Labeled,
    Unlabeled,
    Locked,
    Unlocked,
    Transferred,
    Milestoned,
    Demilestoned,
}

/// What happened to a pull request.
#[derive(Debug, PartialEq)]
pub enum PullRequestAction {
    Assigned,
    AutoMergeDisabled,
    AutoMergeEnabled,
    Closed,
    ConvertedToDraft,
    Edited,
    Labeled,
    Locked,
    Opened,
    ReadyForReview,
    Reopened,
    ReviewRequestRemoved,
    ReviewRequested,
    Synchronize,
    Unassigned,
    Unlabeled,
    Unlocked,
}

/// What happened to a comment.
#[derive(Debug, PartialEq)]
pub enum IssueCommentAction {
    Created,
    Edited,
    Deleted,
}

/// An event on an issue.
#[derive(Debug)]
pub struct IssuesEvent<'a> {
    pub action: IssuesAction,
    pub issue: common::Issue<'a>,
    pub repository: common::Repository<'a>,
    pub sender: common::User<'a>,
}

/// An event on a pull request.
#[derive(Debug)]
pub struct PullRequestEvent<'a> {
    pub action: PullRequestAction,
    pub pull_request: common::PullRequest<'a>,
    pub repository: common::Repository<'a>,
    pub sender: common::User<'a>,
}

/// An event on a comment, made on an issue or on a pull request.
#[derive(Debug)]
pub struct IssueCommentEvent<'a> {
    pub action: IssueCommentAction,
    pub issue: common::Issue<'a>,
    pub comment: common::IssueComment<'a>,
    pub repository: common::Repository<'a>,
    pub sender: common::User<'a>,
}

/// One event, of one of the three shapes.
#[derive(Debug)]
pub enum Payload<'a> {
    IssueComment(Box<IssueCommentEvent<'a>>),
    Issues(Box<IssuesEvent<'a>>),
    PullRequest(Box<PullRequestEvent<'a>>),
}

/// The fields of an event that a query can ask about, the same for every
/// shape of event.
pub ghost struct EventView {
    pub repo: Seq<char>,
    pub topics: Seq<Seq<char>>,
    pub user: Seq<char>,
    pub title: Seq<char>,
    pub body: Seq<char>,
    pub labels: Seq<Seq<char>>,
}

impl<'a> View for Payload<'a> {
    type V = EventView;

    open spec fn view(&self) -> EventView {
        EventView {
            repo: self.spec_repo().full_name@,
            topics: texts(self.spec_repo().topics@),
            user: self.spec_sender().login@,
            title: self.spec_title(),
            body: self.spec_body(),
            labels: label_names(self.spec_labels()),
        }
    }
}

impl<'a> IssueCommentEvent<'a> {
    /// Whether the comment was made on a pull request.
    pub open spec fn spec_is_pull_request(&self) -> bool {
        self.issue.spec_is_pull_request()
    }

    #[verifier::when_used_as_spec(spec_is_pull_request)]
    pub fn is_pull_request(&self) -> (tagged: bool)
        ensures
            tagged == self.spec_is_pull_request(),
    {
        self.issue.is_pull_request()
    }
}

impl<'a> Payload<'a> {
    /// The repository that the event happened in.
    pub open spec fn spec_repo(&self) -> common::Repository<'a> {
        match self {
            Payload::Issues(event) => event.repository,
            Payload::IssueComment(event) => event.repository,
            Payload::PullRequest(event) => event.repository,
        }
    }

    /// The account that caused the event.
    pub open spec fn spec_sender(&self) -> common::User<'a> {
        match self {
            Payload::Issues(event) => event.sender,
            Payload::IssueComment(event) => event.sender,
            Payload::PullRequest(event) => event.sender,
        }
    }

    /// The title of the issue or pull request that the event is about.
    pub open spec fn spec_title(&self) -> Seq<char> {
        match self {
            Payload::Issues(event) => event.issue.title@,
            Payload::IssueComment(event) => event.issue.title@,
            Payload::PullRequest(event) => event.pull_request.title@,
        }
    }

    /// The text that the event carries: the body of the issue or pull
    /// request, empty where it has none, or the text of the comment.
    pub open spec fn spec_body(&self) -> Seq<char> {
        match self {
            Payload::Issues(event) => text_or_empty(event.issue.body),
            Payload::IssueComment(event) => event.comment.body@,
            Payload::PullRequest(event) => text_or_empty(event.pull_request.body),
        }
    }

    /// The labels of the issue or pull request that the event is about.
    pub open spec fn spec_labels(&self) -> Seq<common::Label<'a>> {
        match self {
            Payload::Issues(event) => event.issue.labels@,
            Payload::IssueComment(event) => event.issue.labels@,
            Payload::PullRequest(event) => event.pull_request.labels@,
        }
    }

    /// The canonical address of what the event is about: the issue, the
    /// comment or the pull request.
    pub open spec fn spec_url(&self) -> Seq<char> {
        match self {
            Payload::Issues(event) => event.issue.url@,
            Payload::IssueComment(event) => event.comment.url@,
            Payload::PullRequest(event) => event.pull_request.url@,
        }
    }

    pub fn repo(&self) -> (repository: &common::Repository<'a>)
        ensures
            *repository == self.spec_repo(),
    {
        match self {
            Payload::Issues(issues) => &issues.repository,
            Payload::IssueComment(icomment) => &icomment.repository,
            Payload::PullRequest(pr) => &pr.repository,
        }
    }

    pub fn sender(&self) -> (user: &common::User<'a>)
        ensures
            *user == self.spec_sender(),
    {
        match self {
            Payload::Issues(issues) => &issues.sender,
            Payload::IssueComment(icomment) => &icomment.sender,
            Payload::PullRequest(pr) => &pr.sender,
        }
    }

    pub fn title(&self) -> (title: &str)
        ensures
            title@ == self.spec_title(),
    {
        match self {
            Payload::Issues(issues) => issues.issue.title,
            Payload::IssueComment(icomment) => icomment.issue.title,
            Payload::PullRequest(pr) => pr.pull_request.title,
        }
    }

    pub fn body(&self) -> (body: &str)
        ensures
            body@ == self.spec_body(),
    {
        match self {
            Payload::Issues(issues) => unwrap_or_empty(issues.issue.body),
            Payload::IssueComment(icomment) => icomment.comment.body,
            Payload::PullRequest(pr) => unwrap_or_empty(pr.pull_request.body),
        }
    }

    pub fn labels(&self) -> (labels: &Vec<common::Label<'a>>)
        ensures
            labels@ == self.spec_labels(),
    {
        match self {
            Payload::Issues(issues) => &issues.issue.labels,
            Payload::IssueComment(icomment) => &icomment.issue.labels,
            Payload::PullRequest(pr) => &pr.pull_request.labels,
        }
    }

    pub fn url(&self) -> (url: &String)
        ensures
            url@ == self.spec_url(),
    {
        match self {
            Payload::Issues(issues) => &issues.issue.url,
            Payload::IssueComment(icomment) => &icomment.comment.url,
            Payload::PullRequest(pr) => &pr.pull_request.url,
        }
    }
}

} // verus!
