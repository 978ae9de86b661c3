//! Run-level laws, stated over a model of the provider's rule list.
//!
//! The engine never holds the firewall's state; the provider does. What a
//! fully successful run does to that state follows from the engine's
//! contracts: the delete phase issues one delete for exactly the stale
//! rules ([`crate::delete_pass::stale_ids`]), so when every delete call
//! succeeds the stale rules are gone and the others untouched; the create
//! phase sends the TCP and UDP requests for the run's IP, so when both
//! succeed the provider records the two rules they describe, under ids and
//! enabled flags of its own choosing. [`spec_rules_after_successful_run`]
//! writes that down, and the lemmas below say what it entails: such a run
//! leaves exactly one TCP and one UDP RDP rule, both scoped to the run's
//! IP, and a second run converges to the same rule list.

use vstd::prelude::*;

use crate::create_pass::spec_cidr;
use crate::delete_pass::kept_rules;
use crate::delete_pass::stale_rules;
use crate::model::RuleModel;
use crate::model::spec_is_stale_rdp_rule;

verus! {

broadcast use vstd::seq_lib::group_seq_lib_default;

/// The rule the provider records for a create request of this tool: the
/// request's protocol, description, port range and `ip/32` source, under a
/// provider-assigned id and enabled flag.
pub open spec fn spec_created_rule(
    ip: Seq<char>,
    protocol: Seq<char>,
    id: Seq<char>,
    enabled: bool,
) -> RuleModel {
    RuleModel {
        id,
        protocol,
        description: "Allow RDP Rust"@,
        port_min: Option::Some(crate::RDP_PORT as int),
        port_max: Option::Some(crate::RDP_PORT as int),
        source_ip: spec_cidr(ip),
        enabled,
    }
}

/// The provider's rule list after one run in which every call succeeded:
/// the stale rules deleted, every other rule untouched and in order, and
/// the TCP and UDP rules for `ip` appended.
pub open spec fn spec_rules_after_successful_run(
    rules: Seq<RuleModel>,
    ip: Seq<char>,
    tcp_id: Seq<char>,
    udp_id: Seq<char>,
    tcp_enabled: bool,
    udp_enabled: bool,
) -> Seq<RuleModel> {
    kept_rules(rules) + seq![
        spec_created_rule(ip, "TCP"@, tcp_id, tcp_enabled),
        spec_created_rule(ip, "UDP"@, udp_id, udp_enabled),
    ]
}

/// Whether a rule is stale depends on its port range alone: protocol,
/// source IP and every other field play no part.
pub proof fn lemma_stale_predicate_ports_only(a: RuleModel, b: RuleModel)
    requires
        a.port_min == b.port_min,
        a.port_max == b.port_max,
    ensures
        spec_is_stale_rdp_rule(a) == spec_is_stale_rdp_rule(b),
{
}

/// In a list without stale rules, the stale-rule pass finds nothing and
/// the kept rules are the whole list.
proof fn lemma_filter_of_stale_free(rules: Seq<RuleModel>)
    requires
        forall|i: int| 0 <= i < rules.len() ==> !spec_is_stale_rdp_rule(rules[i]),
    ensures
        stale_rules(rules) == Seq::<RuleModel>::empty(),
        kept_rules(rules) == rules,
    decreases rules.len(),
{
    reveal_with_fuel(Seq::filter, 2);
    if rules.len() == 0 {
        assert(stale_rules(rules) =~= Seq::<RuleModel>::empty());
        assert(kept_rules(rules) =~= rules);
    } else {
        lemma_filter_of_stale_free(rules.drop_last());
        assert(!spec_is_stale_rdp_rule(rules.last()));
        assert(stale_rules(rules) =~= Seq::<RuleModel>::empty());
        assert(kept_rules(rules) =~= rules.drop_last().push(rules.last()));
        assert(rules.drop_last().push(rules.last()) =~= rules);
    }
}

/// In a list of stale rules only, the stale-rule pass finds the whole list
/// and nothing is kept.
proof fn lemma_filter_of_all_stale(rules: Seq<RuleModel>)
    requires
        forall|i: int| 0 <= i < rules.len() ==> spec_is_stale_rdp_rule(rules[i]),
    ensures
        stale_rules(rules) == rules,
        kept_rules(rules) == Seq::<RuleModel>::empty(),
    decreases rules.len(),
{
    reveal_with_fuel(Seq::filter, 2);
    if rules.len() == 0 {
        assert(stale_rules(rules) =~= rules);
        assert(kept_rules(rules) =~= Seq::<RuleModel>::empty());
    } else {
        lemma_filter_of_all_stale(rules.drop_last());
        assert(spec_is_stale_rdp_rule(rules.last()));
        assert(stale_rules(rules) =~= rules.drop_last().push(rules.last()));
        assert(rules.drop_last().push(rules.last()) =~= rules);
        assert(kept_rules(rules) =~= Seq::<RuleModel>::empty());
    }
}

/// After a fully successful run, the stale-RDP rules of the firewall are
/// exactly the two rules that run created: one TCP and one UDP, both
/// scoped to the run's IP as a single-host CIDR -- whatever rules, from
/// whatever prior IPs, were there before.
pub proof fn lemma_successful_run_establishes_rdp_invariant(
    rules: Seq<RuleModel>,
    ip: Seq<char>,
    tcp_id: Seq<char>,
    udp_id: Seq<char>,
    tcp_enabled: bool,
    udp_enabled: bool,
)
    ensures
        ({
            let after = spec_rules_after_successful_run(
                rules,
                ip,
                tcp_id,
                udp_id,
                tcp_enabled,
                udp_enabled,
            );
            stale_rules(after) == seq![
                spec_created_rule(ip, "TCP"@, tcp_id, tcp_enabled),
                spec_created_rule(ip, "UDP"@, udp_id, udp_enabled),
            ] && stale_rules(after).len() == 2 && stale_rules(after)[0].protocol == "TCP"@
                && stale_rules(after)[1].protocol == "UDP"@ && stale_rules(after)[0].source_ip
                == spec_cidr(ip) && stale_rules(after)[1].source_ip == spec_cidr(ip)
        }),
{
    let created = seq![
        spec_created_rule(ip, "TCP"@, tcp_id, tcp_enabled),
        spec_created_rule(ip, "UDP"@, udp_id, udp_enabled),
    ];
    let kept = kept_rules(rules);
    assert(stale_rules(kept + created) == stale_rules(kept) + stale_rules(created));
    lemma_filter_of_stale_free(kept);
    lemma_filter_of_all_stale(created);
    assert(stale_rules(kept) + stale_rules(created) =~= created);
}

/// Idempotence of reconciliation: running again with the same IP converges.
/// A second fully successful run -- under whatever ids and enabled flags
/// the provider assigns to its two created rules -- leaves exactly the rule
/// list a single successful run with those assignments leaves.
pub proof fn lemma_successful_run_idempotent(
    rules: Seq<RuleModel>,
    ip: Seq<char>,
    first_tcp_id: Seq<char>,
    first_udp_id: Seq<char>,
    first_tcp_enabled: bool,
    first_udp_enabled: bool,
    second_tcp_id: Seq<char>,
    second_udp_id: Seq<char>,
    second_tcp_enabled: bool,
    second_udp_enabled: bool,
)
    ensures
        spec_rules_after_successful_run(
            spec_rules_after_successful_run(
                rules,
                ip,
                first_tcp_id,
                first_udp_id,
                first_tcp_enabled,
                first_udp_enabled,
            ),
            ip,
            second_tcp_id,
            second_udp_id,
            second_tcp_enabled,
            second_udp_enabled,
        ) == spec_rules_after_successful_run(
            rules,
            ip,
            second_tcp_id,
            second_udp_id,
            second_tcp_enabled,
            second_udp_enabled,
        ),
{
    let first_created = seq![
        spec_created_rule(ip, "TCP"@, first_tcp_id, first_tcp_enabled),
        spec_created_rule(ip, "UDP"@, first_udp_id, first_udp_enabled),
    ];
    let kept = kept_rules(rules);
    assert(kept_rules(kept + first_created) == kept_rules(kept) + kept_rules(first_created));
    lemma_filter_of_stale_free(kept);
    lemma_filter_of_all_stale(first_created);
    assert(kept_rules(kept + first_created) =~= kept);
}

} // verus!
