//! The stale-rule delete pass: which rules of a firewall are due for
//! deletion, and in what order.
//!
//! The candidate set is exactly the rules matching the stale-RDP predicate
//! ([`crate::model::spec_is_stale_rdp_rule`]) -- port range 3389..3389, any
//! protocol, any source IP -- taken in the order the provider returned them.
//! Issuing the delete calls one candidate at a time, and carrying on past
//! failed calls, is the engine's part ([`crate::engine::ReconcileRun`]).

use vstd::prelude::*;

use crate::model::FirewallRule;
use crate::model::RuleModel;
use crate::model::spec_is_stale_rdp_rule;
use crate::model::is_stale_rdp_rule;

verus! {

broadcast use vstd::seq_lib::group_seq_lib_default;

/// The subsequence of stale RDP rules, in source order.
pub open spec fn stale_rules(rules: Seq<RuleModel>) -> Seq<RuleModel> {
    rules.filter(|m: RuleModel| spec_is_stale_rdp_rule(m))
}

/// The subsequence of rules that are not stale RDP rules, in source order:
/// what a run leaves untouched.
pub open spec fn kept_rules(rules: Seq<RuleModel>) -> Seq<RuleModel> {
    rules.filter(|m: RuleModel| !spec_is_stale_rdp_rule(m))
}

/// The ids of the stale RDP rules, in source order: one delete call is due
/// for each.
pub open spec fn stale_ids(rules: Seq<RuleModel>) -> Seq<Seq<char>> {
    stale_rules(rules).map_values(|m: RuleModel| m.id)
}

/// Extending a rule list by one rule extends its stale-id list by that
/// rule's id exactly when the rule is stale.
proof fn lemma_stale_ids_step(rules: Seq<RuleModel>, i: int)
    requires
        0 <= i < rules.len(),
    ensures
        spec_is_stale_rdp_rule(rules[i]) ==> stale_ids(rules.take(i + 1)) == stale_ids(
            rules.take(i),
        ).push(rules[i].id),
        !spec_is_stale_rdp_rule(rules[i]) ==> stale_ids(rules.take(i + 1)) == stale_ids(
            rules.take(i),
        ),
{
    let single = seq![rules[i]];
    assert(rules.take(i + 1) =~= rules.take(i) + single);
    assert(single.drop_last() =~= Seq::<RuleModel>::empty());
    reveal_with_fuel(Seq::filter, 3);
    if spec_is_stale_rdp_rule(rules[i]) {
        assert(stale_rules(single) =~= single);
        assert(stale_ids(rules.take(i + 1)) =~= stale_ids(rules.take(i)).push(rules[i].id));
    } else {
        assert(stale_rules(single) =~= Seq::<RuleModel>::empty());
        assert(stale_ids(rules.take(i + 1)) =~= stale_ids(rules.take(i)));
    }
}

/// Collects the ids of every stale RDP rule, in source order: the delete
/// pass's candidate set, and nothing else.
pub fn delete_candidates(rules: &Vec<FirewallRule>) -> (ids: Vec<String>)
    ensures
        ids.deep_view() == stale_ids(rules.deep_view()),
{
    let ghost all = rules.deep_view();
    let mut ids: Vec<String> = Vec::new();
    let mut i: usize = 0;
    while i < rules.len()
        invariant
            i <= rules.len(),
            all == rules.deep_view(),
            ids.deep_view() == stale_ids(all.take(i as int)),
        decreases rules.len() - i,
    {
        proof {
            lemma_stale_ids_step(all, i as int);
        }
        let rule = &rules[i];
        if is_stale_rdp_rule(rule) {
            ids.push(rule.id.clone());
            assert(ids.deep_view() =~= stale_ids(all.take(i + 1)));
        } else {
            assert(ids.deep_view() =~= stale_ids(all.take(i + 1)));
        }
        i = i + 1;
    }
    proof {
        assert(all.take(rules.len() as int) =~= all);
    }
    ids
}

} // verus!
