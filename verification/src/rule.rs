//! Rules, and how a rule is matched against an event.

use vstd::prelude::*;
use crate::github::{EventView, Payload};
use crate::github::common::{label_names, texts, Label};
use crate::pattern::{compiles, is_valid, pattern_search, search};
use crate::text::{opt_ref_text, opt_text};

verus! {

/// One of the six fields of a query.
#[derive(Debug, Clone, Copy, PartialEq, Eq, Structural)]
pub enum QueryField {
    Repo,
    Topic,
    User,
    Title,
    Body,
    Label,
}

/// The criteria of a rule: a pattern for each field that it asks about.
/// A query can only be made of patterns that are valid regular expressions
/// or empty, so matching an event against it cannot fail.
#[derive(Debug)]
pub struct Query {
    repo: Option<String>,
    topic: Option<String>,
    user: Option<String>,
    title: Option<String>,
    body: Option<String>,
    label: Option<String>,
}

/// The patterns of a query, field by field.
pub ghost struct QueryView {
    pub repo: Option<Seq<char>>,
    pub topic: Option<Seq<char>>,
    pub user: Option<Seq<char>>,
    pub title: Option<Seq<char>>,
    pub body: Option<Seq<char>>,
    pub label: Option<Seq<char>>,
}

/// A routing rule: events that meet `query` and do not meet `exclude_query`
/// go to `channel` under `display_name`.
#[derive(Debug)]
pub struct Rule {
    pub channel: String,
    pub query: Query,
    pub exclude_query: Option<Query>,
    pub display_name: String,
}

/// A rule as plain values.
pub ghost struct RuleView {
    pub channel: Seq<char>,
    pub query: QueryView,
    pub exclude_query: Option<QueryView>,
    pub display_name: Seq<char>,
}

/// A pattern that a query accepts: absent, empty, or a valid regular
/// expression.
pub open spec fn usable(pattern: Option<Seq<char>>) -> bool {
    pattern matches Some(text) ==> text.len() == 0 || compiles(text)
}

/// The first field, in the order of the fields, whose pattern no query
/// accepts.
pub open spec fn first_unusable(q: QueryView) -> Option<QueryField> {
    if !usable(q.repo) {
        Some(QueryField::Repo)
    } else if !usable(q.topic) {
        Some(QueryField::Topic)
    } else if !usable(q.user) {
        Some(QueryField::User)
    } else if !usable(q.title) {
        Some(QueryField::Title)
    } else if !usable(q.body) {
        Some(QueryField::Body)
    } else if !usable(q.label) {
        Some(QueryField::Label)
    } else {
        None
    }
}

/// What a criterion comes to, given whether its pattern is empty and what
/// the search for the pattern gave: it holds only where the pattern is not
/// empty and was found.
pub open spec fn settled(pattern_is_empty: bool, outcome: Option<bool>) -> bool {
    !pattern_is_empty && outcome == Some(true)
}

/// Whether a present pattern holds of a text: it is not empty and matches
/// somewhere in the text, whatever the case of the letters.
pub open spec fn holds(pattern: Seq<char>, text: Seq<char>) -> bool {
    settled(pattern.len() == 0, pattern_search(pattern, text))
}

/// A single-valued criterion: absent where the query has no pattern for the
/// field, else whether the pattern holds of the field's text.
pub open spec fn criterion(pattern: Option<Seq<char>>, text: Seq<char>) -> Option<bool> {
    match pattern {
        Some(p) => Some(holds(p, text)),
        None => None,
    }
}

/// A multi-valued criterion: absent where the query has no pattern for the
/// field, else whether the pattern holds of at least one of the values.
pub open spec fn criterion_any(pattern: Option<Seq<char>>, values: Seq<Seq<char>>) -> Option<bool> {
    match pattern {
        Some(p) => Some(exists|i: int| 0 <= i < values.len() && holds(p, #[trigger] values[i])),
        None => None,
    }
}

/// The outcome of a criterion if it is present, and nothing if it is not.
pub open spec fn outcome_if_present(c: Option<bool>) -> Seq<bool> {
    match c {
        Some(b) => seq![b],
        None => Seq::empty(),
    }
}

/// The outcomes of the criteria that a query has, in the order of the
/// fields: repository, topic, user, title, body, label.
pub open spec fn outcomes(q: QueryView, e: EventView) -> Seq<bool> {
    outcome_if_present(criterion(q.repo, e.repo)) + outcome_if_present(
        criterion_any(q.topic, e.topics),
    ) + outcome_if_present(criterion(q.user, e.user)) + outcome_if_present(
        criterion(q.title, e.title),
    ) + outcome_if_present(criterion(q.body, e.body)) + outcome_if_present(
        criterion_any(q.label, e.labels),
    )
}

/// An event meets a query when every criterion that the query has holds.
/// A query without criteria is met by every event.
pub open spec fn meets(q: QueryView, e: EventView) -> bool {
    &&& criterion(q.repo, e.repo) != Some(false)
    &&& criterion_any(q.topic, e.topics) != Some(false)
    &&& criterion(q.user, e.user) != Some(false)
    &&& criterion(q.title, e.title) != Some(false)
    &&& criterion(q.body, e.body) != Some(false)
    &&& criterion_any(q.label, e.labels) != Some(false)
}

/// An event touches a query when at least one criterion that the query has
/// holds.
pub open spec fn touches(q: QueryView, e: EventView) -> bool {
    ||| criterion(q.repo, e.repo) == Some(true)
    ||| criterion_any(q.topic, e.topics) == Some(true)
    ||| criterion(q.user, e.user) == Some(true)
    ||| criterion(q.title, e.title) == Some(true)
    ||| criterion(q.body, e.body) == Some(true)
    ||| criterion_any(q.label, e.labels) == Some(true)
}

/// A rule applies to an event that meets its query and, where it has an
/// exclusion query, does not touch that one.
pub open spec fn applies(r: RuleView, e: EventView) -> bool {
    meets(r.query, e) && !(r.exclude_query matches Some(x) && touches(x, e))
}

/// A query that asks about no field.
pub open spec fn has_no_criteria(q: QueryView) -> bool {
    &&& q.repo is None
    &&& q.topic is None
    &&& q.user is None
    &&& q.title is None
    &&& q.body is None
    &&& q.label is None
}

/// A rule whose query asks about no field, and which has no exclusion
/// query, applies to every event.
pub proof fn lemma_open_rule_applies(r: RuleView, e: EventView)
    requires
        has_no_criteria(r.query),
        r.exclude_query is None,
    ensures
        applies(r, e),
{
}

/// A rule whose exclusion query has a title pattern that holds of the
/// event's title does not apply to the event, whatever its query says.
pub proof fn lemma_excluded_by_title(r: RuleView, e: EventView)
    requires
        r.exclude_query is Some,
        r.exclude_query->0.title is Some,
        holds(r.exclude_query->0.title->0, e.title),
    ensures
        !applies(r, e),
{
}

/// A pattern for a multi-valued field holds when it holds of one of the
/// values, whichever it is.
pub proof fn lemma_one_value_suffices(pattern: Seq<char>, values: Seq<Seq<char>>, i: int)
    requires
        0 <= i < values.len(),
        holds(pattern, values[i]),
    ensures
        criterion_any(Some(pattern), values) == Some(true),
{
}

/// A pattern for a multi-valued field fails when it holds of none of the
/// values.
pub proof fn lemma_no_value_fails(pattern: Seq<char>, values: Seq<Seq<char>>)
    requires
        forall|i: int| 0 <= i < values.len() ==> !holds(pattern, #[trigger] values[i]),
    ensures
        criterion_any(Some(pattern), values) == Some(false),
{
}

/// An empty pattern holds of no text, so a criterion with an empty pattern
/// is present and fails.
pub proof fn lemma_empty_pattern_fails(text: Seq<char>, values: Seq<Seq<char>>)
    ensures
        criterion(Some(Seq::empty()), text) == Some(false),
        criterion_any(Some(Seq::empty()), values) == Some(false),
{
}

/// The rules of a sequence as plain values, in order.
pub open spec fn rule_views(rules: Seq<Rule>) -> Seq<RuleView> {
    Seq::new(rules.len(), |i: int| rules[i]@)
}

/// Whether a pattern is present and empty: a criterion that can never hold.
pub open spec fn blank(pattern: Option<Seq<char>>) -> bool {
    pattern matches Some(text) && text.len() == 0
}

/// How often an empty pattern is held against a text when a field with
/// `times` values is evaluated: once for each value if the pattern is
/// present and empty, else never.
pub open spec fn blank_weight(pattern: Option<Seq<char>>, times: nat) -> nat {
    if blank(pattern) {
        times
    } else {
        0
    }
}

/// How often evaluating a query against an event holds an empty pattern
/// against a text: once for each single-valued field with an empty pattern,
/// and once for each topic or label where that field's pattern is empty.
pub open spec fn empty_in_query(q: QueryView, e: EventView) -> nat {
    blank_weight(q.repo, 1) + blank_weight(q.topic, e.topics.len()) + blank_weight(q.user, 1)
        + blank_weight(q.title, 1) + blank_weight(q.body, 1) + blank_weight(
        q.label,
        e.labels.len(),
    )
}

/// The same for a rule: its query, and its exclusion query if it has one.
pub open spec fn empty_in_rule(r: RuleView, e: EventView) -> nat {
    empty_in_query(r.query, e) + match r.exclude_query {
        Some(x) => empty_in_query(x, e),
        None => 0,
    }
}

/// The same for a list of rules, each of which is evaluated once.
pub open spec fn spec_empty_evaluations(e: EventView, rules: Seq<RuleView>) -> nat
    decreases rules.len(),
{
    if rules.len() == 0 {
        0
    } else {
        spec_empty_evaluations(e, rules.drop_last()) + empty_in_rule(rules.last(), e)
    }
}

/// A count as far as `usize` holds it.
pub open spec fn saturated(n: nat) -> usize {
    if n > usize::MAX {
        usize::MAX
    } else {
        n as usize
    }
}

/// Whether every entry is true.
pub open spec fn all_true(v: Seq<bool>) -> bool {
    forall|i: int| 0 <= i < v.len() ==> v[i]
}

/// Whether some entry is true.
pub open spec fn any_true(v: Seq<bool>) -> bool {
    exists|i: int| 0 <= i < v.len() && v[i]
}

/// Something that a multi-valued criterion can be held against: it has a
/// text.
pub trait AsText {
    /// The text.
    spec fn text(&self) -> Seq<char>;

    /// The text, as a string slice.
    fn as_text(&self) -> (t: &str)
        ensures
            t@ == self.text(),
    ;
}

impl<'a> AsText for Label<'a> {
    open spec fn text(&self) -> Seq<char> {
        self.name@
    }

    fn as_text(&self) -> (t: &str) {
        self.name
    }
}

impl<'a> AsText for &'a str {
    open spec fn text(&self) -> Seq<char> {
        self@
    }

    fn as_text(&self) -> (t: &str) {
        *self
    }
}

/// The texts of a sequence of items, in order.
pub open spec fn item_texts<T: AsText>(items: Seq<T>) -> Seq<Seq<char>> {
    Seq::new(items.len(), |i: int| items[i].text())
}

impl View for Query {
    type V = QueryView;

    closed spec fn view(&self) -> QueryView {
        QueryView {
            repo: opt_text(self.repo),
            topic: opt_text(self.topic),
            user: opt_text(self.user),
            title: opt_text(self.title),
            body: opt_text(self.body),
            label: opt_text(self.label),
        }
    }
}

impl Query {
    #[verifier::type_invariant]
    spec fn patterns_usable(&self) -> bool {
        first_unusable(self@) is None
    }

    /// Makes a query of the given patterns, or names the first field whose
    /// pattern is neither empty nor a valid regular expression.
    pub fn new(
        repo: Option<String>,
        topic: Option<String>,
        user: Option<String>,
        title: Option<String>,
        body: Option<String>,
        label: Option<String>,
    ) -> (made: Result<Query, QueryField>)
        ensures
            ({
                let asked = QueryView {
                    repo: opt_text(repo),
                    topic: opt_text(topic),
                    user: opt_text(user),
                    title: opt_text(title),
                    body: opt_text(body),
                    label: opt_text(label),
                };
                match made {
                    Ok(q) => q@ == asked && first_unusable(asked) is None,
                    Err(field) => first_unusable(asked) == Some(field),
                }
            }),
    {
        if !Self::accepts(repo.as_ref()) {
            Err(QueryField::Repo)
        } else if !Self::accepts(topic.as_ref()) {
            Err(QueryField::Topic)
        } else if !Self::accepts(user.as_ref()) {
            Err(QueryField::User)
        } else if !Self::accepts(title.as_ref()) {
            Err(QueryField::Title)
        } else if !Self::accepts(body.as_ref()) {
            Err(QueryField::Body)
        } else if !Self::accepts(label.as_ref()) {
            Err(QueryField::Label)
        } else {
            Ok(Query { repo, topic, user, title, body, label })
        }
    }

    /// How often evaluating the query against the event holds an empty
    /// pattern against a text, as far as `usize` counts.
    pub fn empty_evaluations(&self, payload: &Payload) -> (n: usize)
        ensures
            n == saturated(empty_in_query(self@, payload@)),
    {
        let topics = payload.repo().topics.len();
        let labels = payload.labels().len();
        let mut n: usize = weight(self.repo.as_ref(), 1);
        n = n.saturating_add(weight(self.topic.as_ref(), topics));
        n = n.saturating_add(weight(self.user.as_ref(), 1));
        n = n.saturating_add(weight(self.title.as_ref(), 1));
        n = n.saturating_add(weight(self.body.as_ref(), 1));
        n = n.saturating_add(weight(self.label.as_ref(), labels));
        n
    }

    /// Whether a query accepts the pattern.
    pub fn accepts(pattern: Option<&String>) -> (ok: bool)
        ensures
            ok == usable(opt_ref_text(pattern)),
    {
        match pattern {
            Some(text) => text.as_str().is_empty() || is_valid(text.as_str()),
            None => true,
        }
    }
}

impl View for Rule {
    type V = RuleView;

    open spec fn view(&self) -> RuleView {
        RuleView {
            channel: self.channel@,
            query: self.query@,
            exclude_query: match self.exclude_query {
                Some(x) => Some(x@),
                None => None,
            },
            display_name: self.display_name@,
        }
    }
}

impl Rule {
    /// How often evaluating the rule against the event holds an empty
    /// pattern against a text, as far as `usize` counts.
    pub fn empty_evaluations(&self, payload: &Payload) -> (n: usize)
        ensures
            n == saturated(empty_in_rule(self@, payload@)),
    {
        let n = self.query.empty_evaluations(payload);
        match &self.exclude_query {
            Some(exclude_query) => n.saturating_add(exclude_query.empty_evaluations(payload)),
            None => n,
        }
    }

    /// Whether the rule applies to the event.
    pub fn check_match(&self, payload: &Payload) -> (hit: bool)
        ensures
            hit == applies(self@, payload@),
    {
        let included = Rule::match_results(&self.query, payload);
        let include_query_result = every(&included);
        proof {
            lemma_outcomes_all(self.query@, payload@);
        }
        if let Some(exclude_query) = &self.exclude_query {
            let excluded = Rule::match_results(exclude_query, payload);
            let exclude_query_result = some(&excluded);
            proof {
                lemma_outcomes_any(exclude_query@, payload@);
            }
            include_query_result && !exclude_query_result
        } else {
            include_query_result
        }
    }

    /// The outcomes of the criteria that the query has, in the order of the
    /// fields.
    pub fn match_results(query: &Query, payload: &Payload) -> (found: Vec<bool>)
        ensures
            found@ == outcomes(query@, payload@),
    {
        proof {
            use_type_invariant(query);
        }
        let r_repo = Rule::match_query(query.repo.as_ref(), payload.repo().full_name);
        let r_topic = Rule::match_query_vec(query.topic.as_ref(), payload.repo().topics.as_slice());
        let r_sender = Rule::match_query(query.user.as_ref(), payload.sender().login);
        let r_title = Rule::match_query(query.title.as_ref(), payload.title());
        let r_body = Rule::match_query(query.body.as_ref(), payload.body());
        let r_labels = Rule::match_query_vec(query.label.as_ref(), payload.labels().as_slice());
        proof {
            assert(item_texts(payload.spec_repo().topics@) =~= texts(payload.spec_repo().topics@));
            assert(item_texts(payload.spec_labels()) =~= label_names(payload.spec_labels()));
        }
        let mut found: Vec<bool> = Vec::new();
        push_present(&mut found, r_repo);
        push_present(&mut found, r_topic);
        push_present(&mut found, r_sender);
        push_present(&mut found, r_title);
        push_present(&mut found, r_body);
        push_present(&mut found, r_labels);
        assert(found@ =~= outcomes(query@, payload@));
        found
    }

    /// A single-valued criterion: nothing where the query has no pattern,
    /// else whether the pattern holds of the text.
    pub fn match_query(query: Option<&String>, payload: &str) -> (outcome: Option<bool>)
        requires
            usable(opt_ref_text(query)),
        ensures
            outcome == criterion(opt_ref_text(query), payload@),
    {
        match query {
            Some(pattern) => Some(Rule::match_query_impl(pattern.as_str(), payload)),
            None => None,
        }
    }

    /// A multi-valued criterion: nothing where the query has no pattern,
    /// else whether the pattern holds of at least one of the values.
    pub fn match_query_vec<T: AsText>(query: Option<&String>, payload: &[T]) -> (outcome: Option<
        bool,
    >)
        requires
            usable(opt_ref_text(query)),
        ensures
            outcome == criterion_any(opt_ref_text(query), item_texts(payload@)),
    {
        let pattern = match query {
            Some(pattern) => pattern,
            None => {
                return None;
            },
        };
        let ghost values = item_texts(payload@);
        let mut i: usize = 0;
        while i < payload.len()
            invariant
                i <= payload.len(),
                query == Some(pattern),
                values == item_texts(payload@),
                usable(Some(pattern@)),
                forall|k: int| 0 <= k < i ==> !holds(pattern@, #[trigger] values[k]),
            decreases payload.len() - i,
        {
            if Rule::match_query_impl(pattern.as_str(), payload[i].as_text()) {
                assert(holds(pattern@, values[i as int]));
                return Some(true);
            }
            i += 1;
        }
        Some(false)
    }

    /// Whether the pattern holds of the text: an empty pattern never does,
    /// any other is searched for in the text without regard to case.
    pub fn match_query_impl(query: &str, payload: &str) -> (hit: bool)
        requires
            query@.len() == 0 || compiles(query@),
        ensures
            hit == holds(query@, payload@),
    {
        if query.is_empty() {
            return Rule::settle(true, None);
        }
        Rule::settle(false, search(query, payload))
    }

    /// What a criterion comes to, given whether its pattern is empty and
    /// what the search for the pattern gave.
    pub fn settle(pattern_is_empty: bool, outcome: Option<bool>) -> (hit: bool)
        ensures
            hit == settled(pattern_is_empty, outcome),
    {
        if pattern_is_empty {
            false
        } else {
            match outcome {
                Some(found) => found,
                None => false,
            }
        }
    }
}

/// How often evaluating the rules against the event holds an empty pattern
/// against a text, as far as `usize` counts: each such time is a fault of
/// the configuration that is worth a warning.
pub fn empty_evaluations(payload: &Payload, rules: &[Rule]) -> (n: usize)
    ensures
        n == saturated(spec_empty_evaluations(payload@, rule_views(rules@))),
{
    let ghost all = rule_views(rules@);
    assert(all.take(0) =~= Seq::<RuleView>::empty());
    let mut n: usize = 0;
    let mut i: usize = 0;
    while i < rules.len()
        invariant
            i <= rules.len(),
            all == rule_views(rules@),
            n == saturated(spec_empty_evaluations(payload@, all.take(i as int))),
        decreases rules.len() - i,
    {
        proof {
            assert(all.take(i + 1).drop_last() =~= all.take(i as int));
            assert(all.take(i + 1).last() == rules[i as int]@);
        }
        n = n.saturating_add(rules[i].empty_evaluations(payload));
        i += 1;
    }
    assert(all.take(i as int) =~= all);
    n
}

/// `times` if the pattern is present and empty, else nothing.
fn weight(pattern: Option<&String>, times: usize) -> (w: usize)
    ensures
        w == blank_weight(opt_ref_text(pattern), times as nat),
{
    match pattern {
        Some(text) => if text.as_str().is_empty() {
            times
        } else {
            0
        },
        None => 0,
    }
}

/// Appends the outcome of a criterion if it is present.
fn push_present(found: &mut Vec<bool>, outcome: Option<bool>)
    ensures
        final(found)@ == old(found)@ + outcome_if_present(outcome),
{
    if let Some(hit) = outcome {
        found.push(hit);
        assert(found@ =~= old(found)@ + outcome_if_present(outcome));
    } else {
        assert(found@ =~= old(found)@ + outcome_if_present(outcome));
    }
}

/// Whether every entry is true.
fn every(v: &Vec<bool>) -> (all: bool)
    ensures
        all == all_true(v@),
{
    let mut i: usize = 0;
    while i < v.len()
        invariant
            i <= v.len(),
            forall|k: int| 0 <= k < i ==> v@[k],
        decreases v.len() - i,
    {
        if !v[i] {
            return false;
        }
        i += 1;
    }
    true
}

/// Whether some entry is true.
fn some(v: &Vec<bool>) -> (any: bool)
    ensures
        any == any_true(v@),
{
    let mut i: usize = 0;
    while i < v.len()
        invariant
            i <= v.len(),
            forall|k: int| 0 <= k < i ==> !v@[k],
        decreases v.len() - i,
    {
        if v[i] {
            return true;
        }
        i += 1;
    }
    false
}

/// Every entry of a concatenation is true exactly when every entry of each
/// part is.
proof fn lemma_all_true_concat(a: Seq<bool>, b: Seq<bool>)
    ensures
        all_true(a + b) == (all_true(a) && all_true(b)),
{
    if all_true(a + b) {
        assert forall|i: int| 0 <= i < a.len() implies a[i] by {
            assert((a + b)[i] == a[i]);
        }
        assert forall|i: int| 0 <= i < b.len() implies b[i] by {
            assert((a + b)[a.len() + i] == b[i]);
        }
    }
}

/// Some entry of a concatenation is true exactly when some entry of one of
/// the parts is.
proof fn lemma_any_true_concat(a: Seq<bool>, b: Seq<bool>)
    ensures
        any_true(a + b) == (any_true(a) || any_true(b)),
{
    if any_true(a + b) {
        let i = choose|i: int| 0 <= i < (a + b).len() && (a + b)[i];
        if i < a.len() {
            assert(a[i]);
        } else {
            assert(b[i - a.len()]);
        }
    }
    if any_true(a) {
        let i = choose|i: int| 0 <= i < a.len() && a[i];
        assert((a + b)[i]);
    }
    if any_true(b) {
        let i = choose|i: int| 0 <= i < b.len() && b[i];
        assert((a + b)[a.len() + i]);
    }
}

/// The outcomes of a query's criteria are all true exactly when the event
/// meets the query.
pub proof fn lemma_outcomes_all(q: QueryView, e: EventView)
    ensures
        all_true(outcomes(q, e)) == meets(q, e),
{
    let c0 = outcome_if_present(criterion(q.repo, e.repo));
    let c1 = outcome_if_present(criterion_any(q.topic, e.topics));
    let c2 = outcome_if_present(criterion(q.user, e.user));
    let c3 = outcome_if_present(criterion(q.title, e.title));
    let c4 = outcome_if_present(criterion(q.body, e.body));
    let c5 = outcome_if_present(criterion_any(q.label, e.labels));
    lemma_all_true_concat(c0, c1);
    lemma_all_true_concat(c0 + c1, c2);
    lemma_all_true_concat(c0 + c1 + c2, c3);
    lemma_all_true_concat(c0 + c1 + c2 + c3, c4);
    lemma_all_true_concat(c0 + c1 + c2 + c3 + c4, c5);
    lemma_present_all(criterion(q.repo, e.repo));
    lemma_present_all(criterion_any(q.topic, e.topics));
    lemma_present_all(criterion(q.user, e.user));
    lemma_present_all(criterion(q.title, e.title));
    lemma_present_all(criterion(q.body, e.body));
    lemma_present_all(criterion_any(q.label, e.labels));
}

/// One of the outcomes of a query's criteria is true exactly when the event
/// touches the query.
pub proof fn lemma_outcomes_any(q: QueryView, e: EventView)
    ensures
        any_true(outcomes(q, e)) == touches(q, e),
{
    let c0 = outcome_if_present(criterion(q.repo, e.repo));
    let c1 = outcome_if_present(criterion_any(q.topic, e.topics));
    let c2 = outcome_if_present(criterion(q.user, e.user));
    let c3 = outcome_if_present(criterion(q.title, e.title));
    let c4 = outcome_if_present(criterion(q.body, e.body));
    let c5 = outcome_if_present(criterion_any(q.label, e.labels));
    lemma_any_true_concat(c0, c1);
    lemma_any_true_concat(c0 + c1, c2);
    lemma_any_true_concat(c0 + c1 + c2, c3);
    lemma_any_true_concat(c0 + c1 + c2 + c3, c4);
    lemma_any_true_concat(c0 + c1 + c2 + c3 + c4, c5);
    lemma_present_any(criterion(q.repo, e.repo));
    lemma_present_any(criterion_any(q.topic, e.topics));
    lemma_present_any(criterion(q.user, e.user));
    lemma_present_any(criterion(q.title, e.title));
    lemma_present_any(criterion(q.body, e.body));
    lemma_present_any(criterion_any(q.label, e.labels));
}

/// The outcome of one criterion, taken alone, is all true unless the
/// criterion is present and fails.
proof fn lemma_present_all(c: Option<bool>)
    ensures
        all_true(outcome_if_present(c)) == (c != Some(false)),
{
    if let Some(b) = c {
        assert(outcome_if_present(c)[0] == b);
    }
}

/// The outcome of one criterion, taken alone, holds a true entry exactly
/// when the criterion is present and holds.
proof fn lemma_present_any(c: Option<bool>)
    ensures
        any_true(outcome_if_present(c)) == (c == Some(true)),
{
    if let Some(b) = c {
        assert(outcome_if_present(c)[0] == b);
    }
}

} // verus!
