use rdp_firewall_sync::delete_pass::delete_candidates;
use rdp_firewall_sync::model::FirewallRule;
use rdp_firewall_sync::model::is_stale_rdp_rule;

fn rule(id: &str, min: Option<i32>, max: Option<i32>, protocol: &str, source_ip: &str) -> FirewallRule {
    FirewallRule {
        id: id.to_string(),
        protocol: protocol.to_string(),
        description: "some rule".to_string(),
        port_range_min: min,
        port_range_max: max,
        source_ip: source_ip.to_string(),
        enabled: true,
    }
}

#[test]
fn candidate_is_port_3389_rule_only() {
    let rules = vec![
        rule("a", Some(3389), Some(3389), "TCP", "198.51.100.1/32"),
        rule("b", Some(22), Some(22), "TCP", "198.51.100.1/32"),
    ];
    let ids = delete_candidates(&rules);
    assert_eq!(ids, vec!["a".to_string()]);
}

#[test]
fn candidates_ignore_protocol_and_source_ip() {
    let rules = vec![
        rule("tcp-old", Some(3389), Some(3389), "TCP", "198.51.100.1/32"),
        rule("udp-old", Some(3389), Some(3389), "UDP", "192.0.2.9/32"),
        rule("other-proto", Some(3389), Some(3389), "ICMP", "0.0.0.0/0"),
        rule("ssh", Some(22), Some(22), "TCP", "198.51.100.1/32"),
    ];
    let ids = delete_candidates(&rules);
    assert_eq!(
        ids,
        vec![
            "tcp-old".to_string(),
            "udp-old".to_string(),
            "other-proto".to_string()
        ]
    );
}

#[test]
fn absent_port_bounds_never_match() {
    let rules = vec![
        rule("no-min", None, Some(3389), "TCP", "198.51.100.1/32"),
        rule("no-max", Some(3389), None, "TCP", "198.51.100.1/32"),
        rule("no-ports", None, None, "TCP", "198.51.100.1/32"),
        rule("half-range", Some(3389), Some(3390), "TCP", "198.51.100.1/32"),
    ];
    let ids = delete_candidates(&rules);
    assert_eq!(ids, Vec::<String>::new());
}

#[test]
fn stale_predicate_on_single_rules() {
    assert!(is_stale_rdp_rule(&rule("x", Some(3389), Some(3389), "UDP", "203.0.113.7/32")));
    assert!(!is_stale_rdp_rule(&rule("y", Some(3388), Some(3389), "TCP", "203.0.113.7/32")));
    assert!(!is_stale_rdp_rule(&rule("z", None, None, "TCP", "203.0.113.7/32")));
}

#[test]
fn candidates_keep_source_order() {
    let rules = vec![
        rule("second", Some(3389), Some(3389), "UDP", "192.0.2.9/32"),
        rule("ssh", Some(22), Some(22), "TCP", "198.51.100.1/32"),
        rule("first", Some(3389), Some(3389), "TCP", "198.51.100.1/32"),
    ];
    let ids = delete_candidates(&rules);
    assert_eq!(ids, vec!["second".to_string(), "first".to_string()]);
}
