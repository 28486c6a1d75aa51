//! What to send for an event: the one decision that ties routing and
//! composing together.

use vstd::prelude::*;
use crate::github::{IssuesEvent, Payload};
use crate::message::{compose, lacks_assignee, reported, CreatedMessage, IntoMessage};
use crate::routing::{
    decisions, lemma_applying_rule_is_routed, routed, routing, Decision, RuleMatchResult,
};
use crate::rule::{applies, rule_views, Rule, RuleView};
use crate::slack::{Message, MessagePayload, MessagePayloadView, MessageView};

verus! {

/// What is to be done about an event.
#[derive(Debug)]
pub enum Dispatch {
    /// No rule applies: nothing is composed and nothing is sent.
    Unrouted,
    /// Rules apply, but the event reports an assignment without an assignee:
    /// nothing is sent, and the caller is to report the fault.
    Malformed,
    /// Rules apply, but the action is not one that is reported.
    Skipped,
    /// One message for each channel, in the order of the routing.
    Deliver(Vec<MessagePayload>),
}

/// The message as it goes to one channel: the composed text and
/// attachments, under the display name of the decision.
pub open spec fn addressed(message: MessageView, to: Decision) -> MessagePayloadView {
    MessagePayloadView {
        channel: to.channel,
        username: Some(to.display_name),
        text: message.text,
        fallback: None,
        attachments: message.attachments,
    }
}

/// The messages of a delivery as plain values, in order.
pub open spec fn payload_views(list: Seq<MessagePayload>) -> Seq<MessagePayloadView> {
    Seq::new(list.len(), |i: int| list[i]@)
}

/// The same message addressed to each decision of a routing, in order.
pub open spec fn fan_out(message: MessageView, to: Seq<Decision>) -> Seq<MessagePayloadView> {
    Seq::new(to.len(), |i: int| addressed(message, to[i]))
}

/// What is to be done about an event, as plain values.
pub ghost enum DispatchView {
    Unrouted,
    Malformed,
    Skipped,
    Deliver(Seq<MessagePayloadView>),
}

impl View for Dispatch {
    type V = DispatchView;

    open spec fn view(&self) -> DispatchView {
        match self {
            Dispatch::Unrouted => DispatchView::Unrouted,
            Dispatch::Malformed => DispatchView::Malformed,
            Dispatch::Skipped => DispatchView::Skipped,
            Dispatch::Deliver(list) => DispatchView::Deliver(payload_views(list@)),
        }
    }
}

/// What is to be done about an event whose routing is `to`: nothing where
/// no rule applies; else the event is composed once, and the one message
/// goes to every channel of the routing.
pub open spec fn dispatched(payload: Payload, to: Seq<Decision>) -> DispatchView {
    if to.len() == 0 {
        DispatchView::Unrouted
    } else if !payload.well_formed() {
        DispatchView::Malformed
    } else {
        match payload.composed() {
            Some(message) => DispatchView::Deliver(fan_out(message, to)),
            None => DispatchView::Skipped,
        }
    }
}

/// The message addressed to each result of a routing, in order.
pub fn address_all(message: &Message, to: &Vec<RuleMatchResult>) -> (list: Vec<MessagePayload>)
    ensures
        payload_views(list@) == fan_out(message@, decisions(to@)),
{
    let mut list: Vec<MessagePayload> = Vec::new();
    let mut i: usize = 0;
    while i < to.len()
        invariant
            i <= to.len(),
            list@.len() == i,
            forall|k: int| 0 <= k < i ==> list@[k]@ == addressed(message@, to@[k]@),
        decreases to.len() - i,
    {
        let one = message.duplicate().into_payload(
            to[i].channel.as_str(),
            Some(to[i].display_name.as_str()),
        );
        list.push(one);
        i += 1;
    }
    assert(payload_views(list@) =~= fan_out(message@, decisions(to@)));
    list
}

/// Decides what to send for an event under the rules.
pub fn dispatch(payload: &Payload, rules: &[Rule]) -> (plan: Dispatch)
    ensures
        plan@ == dispatched(*payload, routing(payload@, rule_views(rules@))),
{
    let matches = payload.match_rules(rules);
    if matches.len() == 0 {
        return Dispatch::Unrouted;
    }
    match compose(payload) {
        Ok(CreatedMessage::Composed(message)) => Dispatch::Deliver(
            address_all(&message, &matches),
        ),
        Ok(CreatedMessage::SkipThisEvent) => Dispatch::Skipped,
        Err(_) => Dispatch::Malformed,
    }
}

/// An event that reports an assignment without an assignee is never
/// composed: whatever the rules, nothing is delivered for it and it is not
/// skipped as if nothing were wrong. Where a rule applies, it is reported as
/// malformed.
pub proof fn lemma_assignment_without_assignee(payload: Payload, to: Seq<Decision>)
    requires
        lacks_assignee(payload),
    ensures
        !payload.well_formed(),
        to.len() > 0 ==> dispatched(payload, to) == DispatchView::Malformed,
        to.len() == 0 ==> dispatched(payload, to) == DispatchView::Unrouted,
{
}

/// An event whose action is not one that is reported, and to which a rule
/// of the list applies, is routed and yet skipped: the routing holds the
/// channel of that rule, composing gives no message, and nothing is
/// delivered.
pub proof fn lemma_unreported_action_is_skipped(payload: Payload, rules: Seq<RuleView>, k: int)
    requires
        !reported(payload),
        0 <= k < rules.len(),
        applies(rules[k], payload@),
    ensures
        routed(routing(payload@, rules), rules[k].channel),
        routing(payload@, rules).len() > 0,
        payload.well_formed(),
        payload.composed() is None,
        dispatched(payload, routing(payload@, rules)) == DispatchView::Skipped,
{
    lemma_applying_rule_is_routed(payload@, rules, k);
}

/// The action plays no part in routing: two events on issues that differ
/// in nothing but the action are routed alike.
pub proof fn lemma_routing_ignores_action(a: IssuesEvent, b: IssuesEvent, rules: Seq<RuleView>)
    requires
        a.issue == b.issue,
        a.repository == b.repository,
        a.sender == b.sender,
    ensures
        routing(Payload::Issues(Box::new(a))@, rules) == routing(
            Payload::Issues(Box::new(b))@,
            rules,
        ),
{
}

} // verus!
