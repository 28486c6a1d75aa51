//! From an event and a list of rules to one routing decision per channel.

use vstd::prelude::*;
use vstd::string::StringExecFns;
use crate::github::{EventView, Payload};
use crate::rule::{
    applies, has_no_criteria, holds, lemma_excluded_by_title, rule_views, Rule, RuleView,
};
use crate::text::join;

verus! {

/// Where an event goes: a channel, and the name to post under.
#[derive(Debug, PartialEq, Eq, Hash)]
pub struct RuleMatchResult {
    pub display_name: String,
    pub channel: String,
}

/// A routing decision as plain values.
pub ghost struct Decision {
    pub channel: Seq<char>,
    pub display_name: Seq<char>,
}

impl View for RuleMatchResult {
    type V = Decision;

    open spec fn view(&self) -> Decision {
        Decision { channel: self.channel@, display_name: self.display_name@ }
    }
}

/// The decisions of a sequence of results, in order.
pub open spec fn decisions(results: Seq<RuleMatchResult>) -> Seq<Decision> {
    Seq::new(results.len(), |i: int| results[i]@)
}

/// Whether some decision is for the channel.
pub open spec fn routed(acc: Seq<Decision>, channel: Seq<char>) -> bool {
    exists|i: int| 0 <= i < acc.len() && (#[trigger] acc[i]).channel == channel
}

/// The place of the first decision for the channel, or the number of
/// decisions where there is none.
pub open spec fn first_slot(acc: Seq<Decision>, channel: Seq<char>) -> int
    decreases acc.len(),
{
    if acc.len() == 0 {
        0
    } else if acc.first().channel == channel {
        0
    } else {
        1 + first_slot(acc.drop_first(), channel)
    }
}

/// Two display names, joined by an ampersand.
pub open spec fn joined_pair(earlier: Seq<char>, later: Seq<char>) -> Seq<char> {
    earlier + "&"@ + later
}

/// The decisions after one more rule for `channel` has applied: a channel
/// that is there already keeps its place and has the new name joined to its
/// own, a new channel comes last.
pub open spec fn merge(acc: Seq<Decision>, channel: Seq<char>, name: Seq<char>) -> Seq<Decision> {
    let at = first_slot(acc, channel);
    if at < acc.len() {
        acc.update(
            at,
            Decision { channel: channel, display_name: joined_pair(acc[at].display_name, name) },
        )
    } else {
        acc.push(Decision { channel: channel, display_name: name })
    }
}

/// The routing of an event under a list of rules: the rules that apply are
/// merged in the order of the list.
pub open spec fn routing(e: EventView, rules: Seq<RuleView>) -> Seq<Decision>
    decreases rules.len(),
{
    if rules.len() == 0 {
        Seq::empty()
    } else {
        let before = routing(e, rules.drop_last());
        let rule = rules.last();
        if applies(rule, e) {
            merge(before, rule.channel, rule.display_name)
        } else {
            before
        }
    }
}

/// The first slot lies within the decisions or just behind them, no earlier
/// decision is for the channel, and the decision at the slot is.
pub proof fn lemma_first_slot(acc: Seq<Decision>, channel: Seq<char>)
    ensures
        0 <= first_slot(acc, channel) <= acc.len(),
        forall|k: int| 0 <= k < first_slot(acc, channel) ==> (#[trigger] acc[k]).channel != channel,
        first_slot(acc, channel) < acc.len() ==> acc[first_slot(acc, channel)].channel == channel,
        first_slot(acc, channel) < acc.len() <==> routed(acc, channel),
    decreases acc.len(),
{
    if acc.len() > 0 && acc.first().channel != channel {
        let rest = acc.drop_first();
        lemma_first_slot(rest, channel);
        assert forall|k: int| 0 <= k < first_slot(acc, channel) implies (#[trigger] acc[k]).channel
            != channel by {
            if k > 0 {
                assert(acc[k] == rest[k - 1]);
            }
        }
        if first_slot(acc, channel) < acc.len() {
            assert(acc[first_slot(acc, channel)] == rest[first_slot(rest, channel)]);
        }
        if routed(acc, channel) {
            let i = choose|i: int| 0 <= i < acc.len() && (#[trigger] acc[i]).channel == channel;
            assert(rest[i - 1] == acc[i]);
        }
    }
}

/// Whether no two decisions are for the same channel.
pub open spec fn channels_distinct(acc: Seq<Decision>) -> bool {
    forall|i: int, j: int|
        0 <= i < j < acc.len() ==> (#[trigger] acc[i]).channel != (#[trigger] acc[j]).channel
}

/// The display names of the rules that apply to the event and name the
/// channel, in the order of the list.
pub open spec fn names_for(e: EventView, rules: Seq<RuleView>, channel: Seq<char>) -> Seq<
    Seq<char>,
>
    decreases rules.len(),
{
    if rules.len() == 0 {
        Seq::empty()
    } else {
        let before = names_for(e, rules.drop_last(), channel);
        let rule = rules.last();
        if applies(rule, e) && rule.channel == channel {
            before.push(rule.display_name)
        } else {
            before
        }
    }
}

/// Merging keeps the channels apart, adds the channel if it is new and no
/// other, and changes the decision of that channel alone.
pub proof fn lemma_merge(acc: Seq<Decision>, channel: Seq<char>, name: Seq<char>)
    requires
        channels_distinct(acc),
    ensures
        channels_distinct(merge(acc, channel, name)),
        forall|c: Seq<char>| #[trigger]
            routed(merge(acc, channel, name), c) <==> routed(acc, c) || c == channel,
        forall|i: int|
            0 <= i < acc.len() && (#[trigger] acc[i]).channel != channel ==> merge(
                acc,
                channel,
                name,
            )[i] == acc[i],
{
    let at = first_slot(acc, channel);
    let after = merge(acc, channel, name);
    lemma_first_slot(acc, channel);
    assert forall|i: int, j: int| 0 <= i < j < after.len() implies (#[trigger] after[i]).channel != (
    #[trigger] after[j]).channel by {
        if at < acc.len() {
            assert(after[i].channel == acc[i].channel);
            assert(after[j].channel == acc[j].channel);
        } else {
            if j == acc.len() {
                assert(after[i] == acc[i]);
            } else {
                assert(after[i] == acc[i]);
                assert(after[j] == acc[j]);
            }
        }
    }
    assert forall|c: Seq<char>| #[trigger]
        routed(after, c) <==> routed(acc, c) || c == channel by {
        if routed(after, c) {
            let i = choose|i: int| 0 <= i < after.len() && (#[trigger] after[i]).channel == c;
            if i < acc.len() {
                assert(acc[i].channel == c);
            }
        }
        if routed(acc, c) {
            let i = choose|i: int| 0 <= i < acc.len() && (#[trigger] acc[i]).channel == c;
            assert(after[i].channel == c);
        }
        if c == channel {
            assert(after[at].channel == c);
        }
    }
}

/// What holds of every routing: no channel occurs twice; a channel occurs
/// exactly when a rule that applies names it; and the display name of each
/// decision is made of the display names of the rules that apply and name
/// its channel, in the order of the list, with an ampersand between them.
pub proof fn lemma_routing(e: EventView, rules: Seq<RuleView>)
    ensures
        channels_distinct(routing(e, rules)),
        forall|c: Seq<char>|
            routed(routing(e, rules), c) <==> (#[trigger] names_for(e, rules, c)).len() > 0,
        forall|i: int|
            0 <= i < routing(e, rules).len() ==> (#[trigger] routing(e, rules)[i]).display_name
                == join(names_for(e, rules, routing(e, rules)[i].channel), "&"@),
    decreases rules.len(),
{
    let now = routing(e, rules);
    if rules.len() == 0 {
        assert forall|c: Seq<char>|
            routed(now, c) <==> (#[trigger] names_for(e, rules, c)).len() > 0 by {}
    } else {
        let earlier = rules.drop_last();
        let before = routing(e, earlier);
        let rule = rules.last();
        lemma_routing(e, earlier);
        if applies(rule, e) {
            let at = first_slot(before, rule.channel);
            lemma_first_slot(before, rule.channel);
            lemma_merge(before, rule.channel, rule.display_name);
            assert forall|c: Seq<char>|
                routed(now, c) <==> (#[trigger] names_for(e, rules, c)).len() > 0 by {
                assert(routed(now, c) <==> routed(before, c) || c == rule.channel);
                assert(routed(before, c) <==> names_for(e, earlier, c).len() > 0);
            }
            assert forall|i: int| 0 <= i < now.len() implies (#[trigger] now[i]).display_name
                == join(names_for(e, rules, now[i].channel), "&"@) by {
                if i < before.len() && before[i].channel != rule.channel {
                    assert(now[i] == before[i]);
                    assert(names_for(e, rules, now[i].channel) == names_for(
                        e,
                        earlier,
                        before[i].channel,
                    ));
                } else {
                    assert(i == at);
                    let old_names = names_for(e, earlier, rule.channel);
                    let new_names = names_for(e, rules, rule.channel);
                    assert(new_names == old_names.push(rule.display_name));
                    assert(new_names.drop_last() =~= old_names);
                    if at < before.len() {
                        assert(routed(before, rule.channel));
                        assert(old_names.len() > 0);
                        assert(before[at].display_name == join(old_names, "&"@));
                    } else {
                        assert(!routed(before, rule.channel));
                        assert(old_names.len() == 0);
                    }
                }
            }
        } else {
            assert forall|c: Seq<char>|
                routed(now, c) <==> (#[trigger] names_for(e, rules, c)).len() > 0 by {
                assert(routed(before, c) <==> names_for(e, earlier, c).len() > 0);
            }
        }
    }
}

/// A rule of the list that applies has its display name among those of its
/// channel.
pub proof fn lemma_names_for_includes(e: EventView, rules: Seq<RuleView>, k: int)
    requires
        0 <= k < rules.len(),
        applies(rules[k], e),
    ensures
        names_for(e, rules, rules[k].channel).contains(rules[k].display_name),
    decreases rules.len(),
{
    let channel = rules[k].channel;
    let earlier = rules.drop_last();
    if k == rules.len() - 1 {
        let names = names_for(e, rules, channel);
        assert(names[names.len() - 1] == rules[k].display_name);
    } else {
        lemma_names_for_includes(e, earlier, k);
        let names = names_for(e, earlier, channel);
        let i = choose|i: int| 0 <= i < names.len() && names[i] == rules[k].display_name;
        assert(names_for(e, rules, channel)[i] == rules[k].display_name);
    }
}

/// A channel that has display names has a rule of the list that applies
/// and names it.
pub proof fn lemma_names_for_has_rule(e: EventView, rules: Seq<RuleView>, channel: Seq<char>)
    requires
        names_for(e, rules, channel).len() > 0,
    ensures
        exists|k: int|
            0 <= k < rules.len() && applies(#[trigger] rules[k], e) && rules[k].channel == channel,
    decreases rules.len(),
{
    let rule = rules.last();
    if applies(rule, e) && rule.channel == channel {
        assert(rules[rules.len() - 1] == rule);
    } else {
        let earlier = rules.drop_last();
        lemma_names_for_has_rule(e, earlier, channel);
        let k = choose|k: int|
            0 <= k < earlier.len() && applies(#[trigger] earlier[k], e) && earlier[k].channel
                == channel;
        assert(rules[k] == earlier[k]);
    }
}

/// Every channel in the routing is named by a rule of the list that applies
/// to the event.
pub proof fn lemma_routed_has_rule(e: EventView, rules: Seq<RuleView>, channel: Seq<char>)
    requires
        routed(routing(e, rules), channel),
    ensures
        exists|k: int|
            0 <= k < rules.len() && applies(#[trigger] rules[k], e) && rules[k].channel == channel,
{
    lemma_routing(e, rules);
    lemma_names_for_has_rule(e, rules, channel);
}

/// Every rule of the list that applies to the event has its channel in the
/// routing.
pub proof fn lemma_applying_rule_is_routed(e: EventView, rules: Seq<RuleView>, k: int)
    requires
        0 <= k < rules.len(),
        applies(rules[k], e),
    ensures
        routed(routing(e, rules), rules[k].channel),
{
    lemma_names_for_includes(e, rules, k);
    lemma_routing(e, rules);
}

/// A rule of the list whose query asks about no field, and which has no
/// exclusion query, has its channel in the routing of every event.
pub proof fn lemma_open_rule_is_routed(e: EventView, rules: Seq<RuleView>, k: int)
    requires
        0 <= k < rules.len(),
        has_no_criteria(rules[k].query),
        rules[k].exclude_query is None,
    ensures
        routed(routing(e, rules), rules[k].channel),
{
    lemma_applying_rule_is_routed(e, rules, k);
}

/// A rule of the list whose exclusion query has a title pattern that holds
/// of the event's title contributes nothing to the routing, whatever its
/// query says: the routing is the one of the list without that rule.
pub proof fn lemma_excluded_rule_contributes_nothing(e: EventView, rules: Seq<RuleView>, k: int)
    requires
        0 <= k < rules.len(),
        rules[k].exclude_query is Some,
        rules[k].exclude_query->0.title is Some,
        holds(rules[k].exclude_query->0.title->0, e.title),
    ensures
        routing(e, rules) == routing(e, rules.remove(k)),
{
    lemma_excluded_by_title(rules[k], e);
    lemma_idle_rule_contributes_nothing(e, rules, k);
}

/// A rule that does not apply to the event contributes nothing: the routing
/// is the one of the list without that rule.
pub proof fn lemma_idle_rule_contributes_nothing(e: EventView, rules: Seq<RuleView>, k: int)
    requires
        0 <= k < rules.len(),
        !applies(rules[k], e),
    ensures
        routing(e, rules) == routing(e, rules.remove(k)),
    decreases rules.len(),
{
    if k == rules.len() - 1 {
        assert(rules.remove(k) =~= rules.drop_last());
    } else {
        lemma_idle_rule_contributes_nothing(e, rules.drop_last(), k);
        assert(rules.remove(k).drop_last() =~= rules.drop_last().remove(k));
        assert(rules.remove(k).last() == rules.last());
    }
}

/// Two rules for one channel that both apply give one decision, whose
/// display name is the first rule's, an ampersand, and the second rule's.
pub proof fn lemma_two_rules_merge(e: EventView, first: RuleView, second: RuleView)
    requires
        applies(first, e),
        applies(second, e),
        first.channel == second.channel,
    ensures
        routing(e, seq![first, second]) == seq![
            Decision {
                channel: first.channel,
                display_name: joined_pair(first.display_name, second.display_name),
            },
        ],
{
    let both = seq![first, second];
    let one = seq![first];
    assert(both.drop_last() =~= one);
    assert(one.drop_last() =~= Seq::<RuleView>::empty());
    let none = routing(e, Seq::<RuleView>::empty());
    assert(none =~= Seq::<Decision>::empty());
    assert(first_slot(none, first.channel) == 0);
    let after_first = routing(e, one);
    assert(after_first =~= seq![
        Decision { channel: first.channel, display_name: first.display_name },
    ]);
    assert(first_slot(after_first, second.channel) == 0);
    assert(routing(e, both) =~= seq![
        Decision {
            channel: first.channel,
            display_name: joined_pair(first.display_name, second.display_name),
        },
    ]);
}

impl<'a> Payload<'a> {
    /// The routing of this event under the rules: one decision for each
    /// channel that a rule which applies names, in the order in which the
    /// channels first occur, each with the display names of its rules joined
    /// in the order of the list.
    pub fn match_rules(&self, rules: &[Rule]) -> (v: Vec<RuleMatchResult>)
        ensures
            decisions(v@) == routing(self@, rule_views(rules@)),
    {
        let mut v: Vec<RuleMatchResult> = Vec::new();
        let ghost all = rule_views(rules@);
        assert(all.take(0) =~= Seq::empty());
        assert(decisions(v@) =~= Seq::empty());
        let mut n: usize = 0;
        while n < rules.len()
            invariant
                n <= rules.len(),
                all == rule_views(rules@),
                decisions(v@) == routing(self@, all.take(n as int)),
            decreases rules.len() - n,
        {
            let r = &rules[n];
            proof {
                assert(all.take(n + 1).drop_last() =~= all.take(n as int));
                assert(all.take(n + 1).last() == r@);
            }
            if r.check_match(self) {
                let ghost before = decisions(v@);
                let at = find_channel(&v, &r.channel);
                let mut display_name = r.display_name.clone();
                if at < v.len() {
                    display_name = v[at].display_name.clone();
                    display_name.append("&");
                    display_name.append(r.display_name.as_str());
                    let res = RuleMatchResult { display_name, channel: r.channel.clone() };
                    v.set(at, res);
                } else {
                    let res = RuleMatchResult { display_name, channel: r.channel.clone() };
                    v.push(res);
                }
                assert(decisions(v@) =~= merge(before, r@.channel, r@.display_name));
            }
            n += 1;
        }
        assert(all.take(n as int) =~= all);
        v
    }
}

/// The place of the first result for the channel, or the number of results
/// where there is none.
fn find_channel(v: &Vec<RuleMatchResult>, channel: &String) -> (at: usize)
    ensures
        at == first_slot(decisions(v@), channel@),
{
    let ghost acc = decisions(v@);
    let mut i: usize = 0;
    while i < v.len()
        invariant
            i <= v.len(),
            acc == decisions(v@),
            forall|k: int| 0 <= k < i ==> (#[trigger] acc[k]).channel != channel@,
        decreases v.len() - i,
    {
        if v[i].channel.eq(channel) {
            proof {
                lemma_first_slot(acc, channel@);
                assert(acc[i as int].channel == channel@);
            }
            return i;
        }
        i += 1;
    }
    proof {
        lemma_first_slot(acc, channel@);
    }
    i
}

} // verus!
