use hubhook::dispatch::{address_all, dispatch, Dispatch};
use hubhook::github::common::{Issue, IssueComment, PullRequest, Repository, User};
use hubhook::github::{
    IssueCommentAction, IssueCommentEvent, IssuesAction, IssuesEvent, Payload, PullRequestAction,
    PullRequestEvent,
};
use hubhook::message::{
    compose, is_well_formed, users2str, ComposeError, CreatedMessage, IntoMessage,
};
use hubhook::text::number_text;
use hubhook::slack::{Attachment, Color, Message};
use hubhook::{Query, Rule, RuleMatchResult};

fn open_rule(channel: &str, display_name: &str) -> Rule {
    Rule {
        channel: channel.to_string(),
        query: Query::new(None, None, None, None, None, None).unwrap(),
        exclude_query: None,
        display_name: display_name.to_string(),
    }
}

fn users<'a>(logins: &[&'a str]) -> Vec<User<'a>> {
    logins.iter().map(|login| User { login }).collect()
}

fn issue<'a>(node_id: &'a str, number: usize, title: &'a str, body: Option<&'a str>, assignees: &[&'a str]) -> Issue<'a> {
    Issue {
        url: "https://api.github.com/repos/acme/widgets/issues/1".to_string(),
        html_url: "https://github.com/acme/widgets/issues/1".to_string(),
        node_id,
        number,
        title,
        user: User { login: "author" },
        labels: vec![],
        assignee: None,
        assignees: users(assignees),
        body,
    }
}

fn issues_event<'a>(
    action: IssuesAction,
    title: &'a str,
    body: Option<&'a str>,
    assignees: &[&'a str],
) -> IssuesEvent<'a> {
    IssuesEvent {
        action,
        issue: issue("I_kwDOA", 1, title, body, assignees),
        repository: Repository { full_name: "acme/widgets", topics: vec![] },
        sender: User { login: "alice" },
    }
}

fn pull_request_event<'a>(
    action: PullRequestAction,
    body: Option<&'a str>,
    assignees: &[&'a str],
) -> PullRequestEvent<'a> {
    PullRequestEvent {
        action,
        pull_request: PullRequest {
            url: "https://api.github.com/repos/acme/widgets/pulls/1234567".to_string(),
            html_url: "https://github.com/acme/widgets/pull/1234567".to_string(),
            number: 1234567,
            title: "Add gears",
            user: User { login: "author" },
            body,
            assignees: users(assignees),
            requested_reviewers: vec![],
            requested_teams: vec![],
            labels: vec![],
        },
        repository: Repository { full_name: "acme/widgets", topics: vec![] },
        sender: User { login: "bob" },
    }
}

fn comment_event<'a>(action: IssueCommentAction, node_id: &'a str) -> IssueCommentEvent<'a> {
    IssueCommentEvent {
        action,
        issue: issue(node_id, 42, "typo", None, &[]),
        comment: IssueComment {
            url: "https://api.github.com/repos/acme/widgets/issues/comments/5".to_string(),
            html_url: "https://github.com/acme/widgets/issues/42#issuecomment-5".to_string(),
            user: User { login: "carol" },
            body: "There is a typo.",
        },
        repository: Repository { full_name: "acme/widgets", topics: vec![] },
        sender: User { login: "dave" },
    }
}

fn message(created: CreatedMessage) -> Message {
    match created {
        CreatedMessage::Composed(m) => m,
        CreatedMessage::SkipThisEvent => panic!("no message was composed"),
    }
}

fn only_attachment(m: &Message) -> &Attachment {
    let list = m.attachments.as_ref().unwrap();
    assert_eq!(list.len(), 1);
    &list[0]
}

fn skipped(created: CreatedMessage) -> bool {
    matches!(created, CreatedMessage::SkipThisEvent)
}

#[test]
fn users_as_text() {
    assert_eq!(users2str(&[], ",", false), None);
    assert_eq!(users2str(&[], "\n", true), None);
    assert_eq!(users2str(&users(&["ann"]), ",", false), Some("ann".to_string()));
    assert_eq!(users2str(&users(&["ann", "ben", "cy"]), ",", false), Some("ann,ben,cy".to_string()));
    assert_eq!(
        users2str(&users(&["ann"]), "\n", true),
        Some("<https://github.com/ann|ann>".to_string())
    );
    assert_eq!(
        users2str(&users(&["ann", "ben"]), "\n", true),
        Some("<https://github.com/ann|ann>\n<https://github.com/ben|ben>".to_string())
    );
    assert_eq!(users2str(&users(&["ann", "ben"]), " & ", false), Some("ann & ben".to_string()));
}

#[test]
fn issue_opened_without_body_or_assignees() {
    let e = issues_event(IssuesAction::Opened, "fix crash", None, &[]);
    let m = message(e.create_message());
    assert_eq!(m.text, "[acme/widgets] Issue created by alice");
    let a = only_attachment(&m);
    assert_eq!(a.title, Some("#1 fix crash".to_string()));
    assert_eq!(a.title_link, Some("https://github.com/acme/widgets/issues/1".to_string()));
    assert_eq!(a.fallback, "fix crash\n");
    assert_eq!(a.text, "");
    assert_eq!(a.color, Some(Color::Good));
}

#[test]
fn issue_opened_with_body_and_assignees() {
    let e = issues_event(IssuesAction::Opened, "fix crash", Some("It crashes."), &["ann", "ben"]);
    let m = message(e.create_message());
    assert_eq!(m.text, "[acme/widgets] Issue created by alice");
    let a = only_attachment(&m);
    assert_eq!(a.fallback, "fix crash\nIt crashes.");
    assert_eq!(
        a.text,
        "It crashes.\n*Assignees*\n<https://github.com/ann|ann>\n<https://github.com/ben|ben>"
    );
}

#[test]
fn issue_assigned() {
    let e = issues_event(IssuesAction::Assigned, "fix crash", Some("It crashes."), &["ann", "ben"]);
    let m = message(e.create_message());
    assert_eq!(m.text, "[acme/widgets] Issue assigned to ann,ben");
    let a = only_attachment(&m);
    assert_eq!(a.title, Some("#1 fix crash".to_string()));
    assert_eq!(a.title_link, Some("https://github.com/acme/widgets/issues/1".to_string()));
    assert_eq!(a.fallback, "fix crash");
    assert_eq!(a.text, "*Assignees*\n<https://github.com/ann|ann>\n<https://github.com/ben|ben>");
    assert_eq!(a.color, Some(Color::Good));
}

#[test]
fn other_issue_actions_are_skipped() {
    let others = [
        IssuesAction::Edited,
        IssuesAction::Deleted,
        IssuesAction::Pinned,
        IssuesAction::Unpinned,
        IssuesAction::Closed,
        IssuesAction::Reopened,
        IssuesAction::Unassigned,
        IssuesAction::Labeled,
        IssuesAction::Unlabeled,
        IssuesAction::Locked,
        IssuesAction::Unlocked,
        IssuesAction::Transferred,
        IssuesAction::Milestoned,
        IssuesAction::Demilestoned,
    ];
    for action in others {
        let e = issues_event(action, "fix crash", None, &["ann"]);
        assert!(skipped(e.create_message()));
    }
}

#[test]
fn pull_request_opened() {
    let e = pull_request_event(PullRequestAction::Opened, Some("Gears!"), &["ann"]);
    let m = message(e.create_message());
    assert_eq!(m.text, "[acme/widgets] Pull Request opened by author");
    let a = only_attachment(&m);
    assert_eq!(a.title, Some("#1234567 Add gears".to_string()));
    assert_eq!(a.title_link, Some("https://github.com/acme/widgets/pull/1234567".to_string()));
    assert_eq!(a.fallback, "Add gears\nGears!");
    assert_eq!(a.text, "Gears!\n*Assignees*\n<https://github.com/ann|ann>");
    assert_eq!(a.color, Some(Color::Good));
}

#[test]
fn pull_request_assigned() {
    let e = pull_request_event(PullRequestAction::Assigned, None, &["ann"]);
    let m = message(e.create_message());
    assert_eq!(m.text, "[acme/widgets] Pull Request assigned to ann");
    let a = only_attachment(&m);
    assert_eq!(a.title, Some("#1234567 Add gears".to_string()));
    assert_eq!(a.fallback, "Add gears");
    assert_eq!(a.text, "*Assignees*\n<https://github.com/ann|ann>");
}

#[test]
fn other_pull_request_actions_are_skipped() {
    let others = [
        PullRequestAction::AutoMergeDisabled,
        PullRequestAction::AutoMergeEnabled,
        PullRequestAction::Closed,
        PullRequestAction::ConvertedToDraft,
        PullRequestAction::Edited,
        PullRequestAction::Labeled,
        PullRequestAction::Locked,
        PullRequestAction::ReadyForReview,
        PullRequestAction::Reopened,
        PullRequestAction::ReviewRequestRemoved,
        PullRequestAction::ReviewRequested,
        PullRequestAction::Synchronize,
        PullRequestAction::Unassigned,
        PullRequestAction::Unlabeled,
        PullRequestAction::Unlocked,
    ];
    for action in others {
        let e = pull_request_event(action, None, &["ann"]);
        assert!(skipped(e.create_message()));
    }
}

#[test]
fn comment_on_an_issue() {
    let e = comment_event(IssueCommentAction::Created, "I_kwDOA");
    let m = message(e.create_message());
    assert_eq!(
        m.text,
        "[acme/widgets] New comment by carol on issue <https://github.com/acme/widgets/issues/42#issuecomment-5|#42: typo>"
    );
    let a = only_attachment(&m);
    assert_eq!(a.title, None);
    assert_eq!(a.title_link, None);
    assert_eq!(a.fallback, "There is a typo.");
    assert_eq!(a.text, "There is a typo.");
    assert_eq!(a.color, Some(Color::Comment));
}

#[test]
fn comment_on_a_pull_request() {
    let e = comment_event(IssueCommentAction::Created, "PR_kwDOA");
    let m = message(e.create_message());
    assert_eq!(
        m.text,
        "[acme/widgets] New comment by carol on pull request <https://github.com/acme/widgets/issues/42#issuecomment-5|#42: typo>"
    );
}

#[test]
fn headers_name_the_sender_of_an_issue_and_the_author_otherwise() {
    let mut i = issues_event(IssuesAction::Opened, "fix crash", None, &[]);
    i.issue.user = User { login: "issue-author" };
    i.sender = User { login: "issue-sender" };
    assert_eq!(message(i.create_message()).text, "[acme/widgets] Issue created by issue-sender");

    let mut p = pull_request_event(PullRequestAction::Opened, None, &[]);
    p.pull_request.user = User { login: "pr-author" };
    p.sender = User { login: "s" };
    assert_eq!(message(p.create_message()).text, "[acme/widgets] Pull Request opened by pr-author");

    let mut c = comment_event(IssueCommentAction::Created, "I_kwDOA");
    c.comment.user = User { login: "comment-author" };
    c.issue.user = User { login: "issue-author" };
    c.sender = User { login: "s" };
    assert_eq!(
        message(c.create_message()).text,
        "[acme/widgets] New comment by comment-author on issue <https://github.com/acme/widgets/issues/42#issuecomment-5|#42: typo>"
    );
    let a = only_attachment(&message(c.create_message())).text.clone();
    assert_eq!(a, "There is a typo.");
}

#[test]
fn edited_and_deleted_comments_are_skipped() {
    assert!(skipped(comment_event(IssueCommentAction::Edited, "I_kwDOA").create_message()));
    assert!(skipped(comment_event(IssueCommentAction::Deleted, "I_kwDOA").create_message()));
}

#[test]
fn numbers_are_written_in_decimal() {
    for (number, expected) in [
        (0usize, "#0 t"),
        (9, "#9 t"),
        (10, "#10 t"),
        (42, "#42 t"),
        (1000, "#1000 t"),
        (4294967295, "#4294967295 t"),
    ] {
        let mut e = issues_event(IssuesAction::Opened, "t", None, &[]);
        e.issue.number = number;
        let m = message(e.create_message());
        assert_eq!(only_attachment(&m).title, Some(expected.to_string()));
    }
}

#[test]
fn payload_composes_as_its_event_does() {
    let p = Payload::Issues(Box::new(issues_event(IssuesAction::Opened, "fix crash", None, &[])));
    assert_eq!(message(p.create_message()).text, "[acme/widgets] Issue created by alice");
    let p = Payload::PullRequest(Box::new(pull_request_event(PullRequestAction::Opened, None, &[])));
    assert_eq!(message(p.create_message()).text, "[acme/widgets] Pull Request opened by author");
    let p = Payload::IssueComment(Box::new(comment_event(IssueCommentAction::Deleted, "I_kwDOA")));
    assert!(skipped(p.create_message()));
}

#[test]
fn composing_twice_gives_the_same() {
    let p = Payload::Issues(Box::new(issues_event(
        IssuesAction::Opened,
        "fix crash",
        Some("It crashes."),
        &["ann", "ben"],
    )));
    let first = message(p.create_message());
    let second = message(p.create_message());
    assert_eq!(first.text.as_bytes(), second.text.as_bytes());
    let (a, b) = (only_attachment(&first), only_attachment(&second));
    assert_eq!(a.title, b.title);
    assert_eq!(a.title_link, b.title_link);
    assert_eq!(a.fallback.as_bytes(), b.fallback.as_bytes());
    assert_eq!(a.text.as_bytes(), b.text.as_bytes());
    assert_eq!(a.color, b.color);
}

#[test]
fn as_ok_gives_the_message() {
    let e = issues_event(IssuesAction::Opened, "fix crash", None, &[]);
    let created = e.create_message();
    assert_eq!(created.as_ok().unwrap().text, "[acme/widgets] Issue created by alice");
    assert!(CreatedMessage::SkipThisEvent.as_ok().is_none());
}

#[test]
fn message_of_text_alone() {
    let m = Message::from_string("hello".to_string());
    assert_eq!(m.text, "hello");
    assert!(m.attachments.is_none());
}

#[test]
fn addressing_keeps_text_and_attachments() {
    let e = issues_event(IssuesAction::Opened, "fix crash", Some("It crashes."), &[]);
    let m = message(e.create_message());
    let copy = m.duplicate();
    assert_eq!(copy.text, m.text);
    assert_eq!(only_attachment(&copy).text, "It crashes.");
    assert_eq!(only_attachment(&copy).title, Some("#1 fix crash".to_string()));
    assert_eq!(only_attachment(&copy).color, Some(Color::Good));
    let p = m.into_payload("#eng", Some("Eng"));
    assert_eq!(p.channel, "#eng");
    assert_eq!(p.username, Some("Eng".to_string()));
    assert_eq!(p.text, "[acme/widgets] Issue created by alice");
    assert_eq!(p.fallback, None);
    assert_eq!(p.attachments.as_ref().unwrap().len(), 1);
    assert_eq!(p.attachments.as_ref().unwrap()[0].fallback, "fix crash\nIt crashes.");
    let q = Message::from_string("hi".to_string()).into_payload("tmp", None);
    assert_eq!(q.channel, "tmp");
    assert_eq!(q.username, None);
    assert!(q.attachments.is_none());
}

#[test]
fn colour_names() {
    assert_eq!(Color::Good.name(), "good");
    assert_eq!(Color::Warning.name(), "warning");
    assert_eq!(Color::Danger.name(), "danger");
    assert_eq!(Color::Comment.name(), "#24292F");
    assert_eq!(Color::Merged.name(), "#6F42C1");
    assert_eq!(Color::Closed.name(), "#CB2431");
}

#[test]
fn unrouted_event_is_not_composed() {
    let p = Payload::Issues(Box::new(issues_event(IssuesAction::Opened, "fix crash", None, &[])));
    assert!(matches!(dispatch(&p, &[]), Dispatch::Unrouted));
    let bad = Payload::PullRequest(Box::new(pull_request_event(PullRequestAction::Assigned, None, &[])));
    assert!(matches!(dispatch(&bad, &[]), Dispatch::Unrouted));
}

#[test]
fn assignment_without_assignee_is_a_fault() {
    let p = Payload::PullRequest(Box::new(pull_request_event(PullRequestAction::Assigned, None, &[])));
    assert!(!is_well_formed(&p));
    assert!(matches!(dispatch(&p, &[open_rule("#eng", "Eng")]), Dispatch::Malformed));
    let i = Payload::Issues(Box::new(issues_event(IssuesAction::Assigned, "t", None, &[])));
    assert!(!is_well_formed(&i));
    assert!(matches!(dispatch(&i, &[open_rule("#eng", "Eng")]), Dispatch::Malformed));
    let ok = Payload::Issues(Box::new(issues_event(IssuesAction::Assigned, "t", None, &["ann"])));
    assert!(is_well_formed(&ok));
    let opened = Payload::Issues(Box::new(issues_event(IssuesAction::Opened, "t", None, &[])));
    assert!(is_well_formed(&opened));
    let c = Payload::IssueComment(Box::new(comment_event(IssueCommentAction::Created, "I_kwDOA")));
    assert!(is_well_formed(&c));
}

#[test]
fn composing_refuses_an_assignment_without_assignee() {
    let p = Payload::PullRequest(Box::new(pull_request_event(PullRequestAction::Assigned, None, &[])));
    assert_eq!(compose(&p).unwrap_err(), ComposeError::NoAssignees);
    let i = Payload::Issues(Box::new(issues_event(IssuesAction::Assigned, "t", None, &[])));
    assert_eq!(compose(&i).unwrap_err(), ComposeError::NoAssignees);
    let ok = Payload::PullRequest(Box::new(pull_request_event(
        PullRequestAction::Assigned,
        None,
        &["ann"],
    )));
    assert_eq!(
        message(compose(&ok).unwrap()).text,
        "[acme/widgets] Pull Request assigned to ann"
    );
    let closed = Payload::Issues(Box::new(issues_event(IssuesAction::Closed, "t", None, &[])));
    assert!(skipped(compose(&closed).unwrap()));
}

#[test]
fn lone_assignee_is_noted_on_opened_and_assigned_issues() {
    let mut e = issues_event(IssuesAction::Opened, "t", None, &[]);
    assert_eq!(e.lone_assignee(), None);
    e.issue.assignee = Some(User { login: "ann" });
    assert_eq!(e.lone_assignee(), Some("ann"));
    e.action = IssuesAction::Assigned;
    assert_eq!(e.lone_assignee(), Some("ann"));
    e.action = IssuesAction::Closed;
    assert_eq!(e.lone_assignee(), None);
}

#[test]
fn numerals() {
    assert_eq!(number_text(0), "0");
    assert_eq!(number_text(7), "7");
    assert_eq!(number_text(10), "10");
    assert_eq!(number_text(109), "109");
    assert_eq!(number_text(1234567890), "1234567890");
    assert_eq!(number_text(usize::MAX), usize::MAX.to_string());
}

#[test]
fn closed_issue_is_routed_but_skipped() {
    let p = Payload::Issues(Box::new(issues_event(IssuesAction::Closed, "fix crash", None, &[])));
    let rules = [open_rule("#eng", "Eng")];
    assert_eq!(p.match_rules(&rules).len(), 1);
    assert!(skipped(p.create_message()));
    assert!(matches!(dispatch(&p, &rules), Dispatch::Skipped));
}

#[test]
fn one_message_goes_to_every_channel() {
    let p = Payload::Issues(Box::new(issues_event(
        IssuesAction::Opened,
        "fix crash",
        Some("It crashes."),
        &[],
    )));
    let rules = [open_rule("#eng", "Eng"), open_rule("#ops", "Ops"), open_rule("#eng", "Core")];
    let list = match dispatch(&p, &rules) {
        Dispatch::Deliver(list) => list,
        _ => panic!("nothing to deliver"),
    };
    assert_eq!(list.len(), 2);
    assert_eq!(list[0].channel, "#eng");
    assert_eq!(list[0].username, Some("Eng&Core".to_string()));
    assert_eq!(list[1].channel, "#ops");
    assert_eq!(list[1].username, Some("Ops".to_string()));
    for one in &list {
        assert_eq!(one.text, "[acme/widgets] Issue created by alice");
        assert_eq!(one.fallback, None);
        let a = &one.attachments.as_ref().unwrap()[0];
        assert_eq!(a.title, Some("#1 fix crash".to_string()));
        assert_eq!(a.text, "It crashes.");
    }
}

#[test]
fn addressing_follows_the_routing() {
    let m = Message::from_string("hello".to_string());
    let to = vec![
        RuleMatchResult { display_name: "A".to_string(), channel: "#a".to_string() },
        RuleMatchResult { display_name: "B&C".to_string(), channel: "#b".to_string() },
    ];
    let list = address_all(&m, &to);
    assert_eq!(list.len(), 2);
    assert_eq!((list[0].channel.as_str(), list[0].username.as_deref()), ("#a", Some("A")));
    assert_eq!((list[1].channel.as_str(), list[1].username.as_deref()), ("#b", Some("B&C")));
    assert_eq!(list[1].text, "hello");
    assert!(address_all(&m, &vec![]).is_empty());
}
