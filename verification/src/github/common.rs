//! The parts that the event shapes share.

use vstd::prelude::*;
use crate::text::{has_prefix, starts_with};

verus! {

/// An account, by its handle.
#[derive(Debug)]
pub struct User<'a> {
    pub login: &'a str,
}

/// A repository, by its `owner/name` and its topics.
#[derive(Debug)]
pub struct Repository<'a> {
    pub full_name: &'a str,
    pub topics: Vec<&'a str>,
}

/// A label, by its name.
#[derive(Debug)]
pub struct Label<'a> {
    pub name: &'a str,
}

/// An issue. `url` and `html_url` hold the addresses as text.
#[derive(Debug)]
pub struct Issue<'a> {
    pub url: String,
    pub html_url: String,
    pub node_id: &'a str,
    pub number: usize,
    pub title: &'a str,
    pub user: User<'a>,
    pub labels: Vec<Label<'a>>,
    pub assignee: Option<User<'a>>,
    pub assignees: Vec<User<'a>>,
    pub body: Option<&'a str>,
}

/// A pull request. `url` and `html_url` hold the addresses as text.
#[derive(Debug)]
pub struct PullRequest<'a> {
    pub url: String,
    pub html_url: String,
    pub number: usize,
    pub title: &'a str,
    pub user: User<'a>,
    pub body: Option<&'a str>,
    pub assignees: Vec<User<'a>>,
    pub requested_reviewers: Vec<User<'a>>,
    pub requested_teams: Vec<()>,
    pub labels: Vec<Label<'a>>,
}

/// A comment on an issue or on a pull request.
#[derive(Debug)]
pub struct IssueComment<'a> {
    pub url: String,
    pub html_url: String,
    pub user: User<'a>,
    pub body: &'a str,
}

/// The text of an optional field: empty where the field is absent.
pub open spec fn text_or_empty(field: Option<&str>) -> Seq<char> {
    match field {
        Some(text) => text@,
        None => Seq::empty(),
    }
}

/// The names of a sequence of labels, in order.
pub open spec fn label_names(labels: Seq<Label>) -> Seq<Seq<char>> {
    Seq::new(labels.len(), |i: int| labels[i].name@)
}

/// The handles of a sequence of users, in order.
pub open spec fn logins(users: Seq<User>) -> Seq<Seq<char>> {
    Seq::new(users.len(), |i: int| users[i].login@)
}

/// The texts of a sequence of string slices, in order.
pub open spec fn texts(items: Seq<&str>) -> Seq<Seq<char>> {
    Seq::new(items.len(), |i: int| items[i]@)
}

/// The field's text, or the empty string where the field is absent.
pub fn unwrap_or_empty<'a>(field: Option<&'a str>) -> (text: &'a str)
    ensures
        text@ == text_or_empty(field),
{
    match field {
        Some(text) => text,
        None => {
            proof {
                reveal_strlit("");
                assert(""@ =~= Seq::<char>::empty());
            }
            ""
        },
    }
}

impl<'a> Issue<'a> {
    /// An issue stands for a pull request exactly when its node identifier
    /// carries the pull-request tag.
    pub open spec fn spec_is_pull_request(&self) -> bool {
        has_prefix(self.node_id@, "PR_"@)
    }

    #[verifier::when_used_as_spec(spec_is_pull_request)]
    pub fn is_pull_request(&self) -> (tagged: bool)
        ensures
            tagged == self.spec_is_pull_request(),
    {
        starts_with(self.node_id, "PR_")
    }
}

} // verus!
