use rdp_firewall_sync::engine::Phase;
use rdp_firewall_sync::engine::ReconcileRun;
use rdp_firewall_sync::model::CreateOutcome;
use rdp_firewall_sync::model::Firewall;
use rdp_firewall_sync::model::FirewallRule;
use rdp_firewall_sync::model::ReconcileError;

fn rule(id: &str, min: Option<i32>, max: Option<i32>, protocol: &str, source_ip: &str) -> FirewallRule {
    FirewallRule {
        id: id.to_string(),
        protocol: protocol.to_string(),
        description: "Allow RDP Rust".to_string(),
        port_range_min: min,
        port_range_max: max,
        source_ip: source_ip.to_string(),
        enabled: true,
    }
}

fn page_with(rules: Vec<FirewallRule>) -> Vec<Firewall> {
    vec![Firewall {
        id: "fw1".to_string(),
        name: "home".to_string(),
        description: String::new(),
        rules,
    }]
}

#[test]
fn run_deletes_matching_rule_and_creates_tcp_then_udp() {
    let mut run = ReconcileRun::new("home".to_string(), "203.0.113.7".to_string());
    let rules = vec![
        rule("a", Some(3389), Some(3389), "TCP", "198.51.100.1/32"),
        rule("b", Some(22), Some(22), "TCP", "198.51.100.1/32"),
    ];
    run.on_firewalls_retrieved(Ok(page_with(rules)));
    assert_eq!(run.phase, Phase::Deleting);
    assert_eq!(run.firewall_id, "fw1");

    // exactly one delete is due, for rule "a"
    assert_eq!(run.next_delete_target().unwrap(), "a");
    run.on_delete_result(true);
    assert!(run.next_delete_target().is_none());
    assert_eq!(run.deleted, 1);

    let tcp_req = run.begin_create();
    assert_eq!(tcp_req.source_ip, "203.0.113.7/32");
    assert_eq!(tcp_req.protocol, "TCP");
    assert_eq!(tcp_req.port_range_min, 3389);
    assert_eq!(tcp_req.port_range_max, 3389);

    let udp_req = run.on_tcp_response(Ok(200)).unwrap();
    assert_eq!(udp_req.source_ip, "203.0.113.7/32");
    assert_eq!(udp_req.protocol, "UDP");
    assert_eq!(udp_req.port_range_min, 3389);
    assert_eq!(udp_req.port_range_max, 3389);

    run.on_udp_response(Ok(201));
    assert_eq!(run.phase, Phase::Finished);
    let outcome = run.run_outcome();
    assert_eq!(outcome.firewall_id, "fw1");
    assert_eq!(outcome.rules_deleted, 1);
    assert_eq!(outcome.create, CreateOutcome::Created);
}

#[test]
fn failed_delete_is_counted_out_but_pass_continues() {
    let mut run = ReconcileRun::new("home".to_string(), "203.0.113.7".to_string());
    let rules = vec![
        rule("a", Some(3389), Some(3389), "TCP", "198.51.100.1/32"),
        rule("b", Some(3389), Some(3389), "UDP", "198.51.100.1/32"),
        rule("c", Some(3389), Some(3389), "TCP", "192.0.2.9/32"),
    ];
    run.on_firewalls_retrieved(Ok(page_with(rules)));

    assert_eq!(run.next_delete_target().unwrap(), "a");
    run.on_delete_result(true);
    // the failed delete of "b" does not stop the pass
    assert_eq!(run.next_delete_target().unwrap(), "b");
    run.on_delete_result(false);
    assert_eq!(run.next_delete_target().unwrap(), "c");
    run.on_delete_result(true);
    assert!(run.next_delete_target().is_none());
    assert_eq!(run.deleted, 2);

    let _ = run.begin_create();
    let _ = run.on_tcp_response(Ok(200));
    run.on_udp_response(Ok(200));
    assert_eq!(run.run_outcome().rules_deleted, 2);
}

#[test]
fn partial_create_failure_without_compensating_delete() {
    let mut run = ReconcileRun::new("home".to_string(), "203.0.113.7".to_string());
    run.on_firewalls_retrieved(Ok(page_with(Vec::new())));
    assert!(run.next_delete_target().is_none());
    assert_eq!(run.deleted, 0);

    let _ = run.begin_create();
    let _ = run.on_tcp_response(Ok(201));
    run.on_udp_response(Ok(500));
    assert_eq!(run.phase, Phase::Finished);
    // the TCP rule that did get created stays: no delete becomes due
    assert!(run.next_delete_target().is_none());
    assert_eq!(
        run.run_outcome().create,
        CreateOutcome::PartialCreateFailure {
            tcp_status: 201,
            udp_status: 500
        }
    );
}

#[test]
fn lookup_miss_aborts_with_not_found_and_no_calls_become_due() {
    let mut run = ReconcileRun::new("office".to_string(), "203.0.113.7".to_string());
    run.on_firewalls_retrieved(Ok(page_with(vec![rule(
        "a",
        Some(3389),
        Some(3389),
        "TCP",
        "198.51.100.1/32",
    )])));
    assert_eq!(run.phase, Phase::Aborted);
    assert!(matches!(run.error, Some(ReconcileError::NotFound)));
    // neither a delete nor a create call is due on an aborted run
    assert!(run.next_delete_target().is_none());
}

#[test]
fn transport_failure_on_lookup_aborts() {
    let mut run = ReconcileRun::new("home".to_string(), "203.0.113.7".to_string());
    run.on_firewalls_retrieved(Err("connection reset".to_string()));
    assert_eq!(run.phase, Phase::Aborted);
    match &run.error {
        Some(ReconcileError::TransportError { detail }) => {
            assert_eq!(detail, "connection reset")
        }
        other => panic!("unexpected error state: {:?}", other),
    }
    assert!(run.next_delete_target().is_none());
}

#[test]
fn transport_failure_on_tcp_create_aborts_before_udp() {
    let mut run = ReconcileRun::new("home".to_string(), "203.0.113.7".to_string());
    run.on_firewalls_retrieved(Ok(page_with(Vec::new())));
    let _ = run.begin_create();
    let udp_req = run.on_tcp_response(Err("timed out".to_string()));
    assert!(udp_req.is_none());
    assert_eq!(run.phase, Phase::Aborted);
    assert!(matches!(
        run.error,
        Some(ReconcileError::TransportError { .. })
    ));
}

fn clone_rule(r: &FirewallRule) -> FirewallRule {
    FirewallRule {
        id: r.id.clone(),
        protocol: r.protocol.clone(),
        description: r.description.clone(),
        port_range_min: r.port_range_min,
        port_range_max: r.port_range_max,
        source_ip: r.source_ip.clone(),
        enabled: r.enabled,
    }
}

/// Plays the provider: deletes remove the rule by id, creates append a rule
/// built from the request under a fresh id. Returns the provider's rule
/// list after one run in which every call succeeds.
fn simulate_successful_run(provider_rules: Vec<FirewallRule>, ip: &str, id_seed: &str) -> Vec<FirewallRule> {
    let mut state = provider_rules;
    let mut run = ReconcileRun::new("home".to_string(), ip.to_string());
    let page = page_with(state.iter().map(clone_rule).collect());
    run.on_firewalls_retrieved(Ok(page));
    assert_eq!(run.phase, Phase::Deleting);
    while let Some(target) = run.next_delete_target() {
        let target = target.clone();
        state.retain(|r| r.id != target);
        run.on_delete_result(true);
    }
    let tcp_req = run.begin_create();
    state.push(FirewallRule {
        id: format!("{}-tcp", id_seed),
        protocol: tcp_req.protocol.clone(),
        description: tcp_req.description.clone(),
        port_range_min: Some(tcp_req.port_range_min),
        port_range_max: Some(tcp_req.port_range_max),
        source_ip: tcp_req.source_ip.clone(),
        enabled: true,
    });
    let udp_req = run.on_tcp_response(Ok(200)).unwrap();
    state.push(FirewallRule {
        id: format!("{}-udp", id_seed),
        protocol: udp_req.protocol.clone(),
        description: udp_req.description.clone(),
        port_range_min: Some(udp_req.port_range_min),
        port_range_max: Some(udp_req.port_range_max),
        source_ip: udp_req.source_ip.clone(),
        enabled: true,
    });
    run.on_udp_response(Ok(200));
    assert_eq!(run.phase, Phase::Finished);
    assert_eq!(run.run_outcome().create, CreateOutcome::Created);
    state
}

#[test]
fn two_successful_runs_with_same_ip_converge() {
    let start = vec![
        rule("old-tcp", Some(3389), Some(3389), "TCP", "198.51.100.1/32"),
        rule("old-udp", Some(3389), Some(3389), "UDP", "198.51.100.1/32"),
        rule("ssh", Some(22), Some(22), "TCP", "0.0.0.0/0"),
    ];
    let after_first = simulate_successful_run(start, "203.0.113.7", "run1");
    let check = |state: &[FirewallRule]| {
        let matching: Vec<&FirewallRule> = state
            .iter()
            .filter(|r| r.port_range_min == Some(3389) && r.port_range_max == Some(3389))
            .collect();
        assert_eq!(matching.len(), 2);
        assert_eq!(matching[0].protocol, "TCP");
        assert_eq!(matching[1].protocol, "UDP");
        assert!(matching.iter().all(|r| r.source_ip == "203.0.113.7/32"));
    };
    check(&after_first);

    let after_second = simulate_successful_run(
        after_first.iter().map(clone_rule).collect(),
        "203.0.113.7",
        "run2",
    );
    check(&after_second);
    // apart from the provider-assigned ids, the second run reproduced the
    // first run's rule list
    assert_eq!(after_first.len(), after_second.len());
    let untouched: Vec<&str> = after_second
        .iter()
        .map(|r| r.id.as_str())
        .filter(|id| !id.starts_with("run2"))
        .collect();
    assert_eq!(untouched, vec!["ssh"]);
}
