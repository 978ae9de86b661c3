//! The data the reconciliation engine works on: firewalls and their rules as
//! the provider reports them, the request payload for a new rule, and the
//! closed error and outcome types a run can end with.
//!
//! Each rule also has a mathematical view, [`RuleModel`], so contracts can
//! speak of rule lists as sequences of plain values.

use vstd::prelude::*;

verus! {

/// Mathematical view of one firewall rule: every field as a plain value.
pub struct RuleModel {
    pub id: Seq<char>,
    pub protocol: Seq<char>,
    pub description: Seq<char>,
    pub port_min: Option<int>,
    pub port_max: Option<int>,
    pub source_ip: Seq<char>,
    pub enabled: bool,
}

/// One access rule of a provider-managed firewall. The protocol is kept as
/// the provider sent it (values other than TCP and UDP pass through
/// untouched), and either end of the port range may be absent.
#[derive(Debug)]
pub struct FirewallRule {
    pub id: String,
    pub protocol: String,
    pub description: String,
    pub port_range_min: Option<i32>,
    pub port_range_max: Option<i32>,
    pub source_ip: String,
    pub enabled: bool,
}

impl View for FirewallRule {
    type V = RuleModel;

    open spec fn view(&self) -> RuleModel {
        RuleModel {
            id: self.id@,
            protocol: self.protocol@,
            description: self.description@,
            port_min: match self.port_range_min {
                Option::Some(v) => Option::Some(v as int),
                Option::None => Option::None,
            },
            port_max: match self.port_range_max {
                Option::Some(v) => Option::Some(v as int),
                Option::None => Option::None,
            },
            source_ip: self.source_ip@,
            enabled: self.enabled,
        }
    }
}

impl DeepView for FirewallRule {
    type V = RuleModel;

    open spec fn deep_view(&self) -> RuleModel {
        self.view()
    }
}

/// A provider-managed firewall: an opaque id, the human-readable name this
/// tool looks it up by, and its rule list.
#[derive(Debug)]
pub struct Firewall {
    pub id: String,
    pub name: String,
    pub description: String,
    pub rules: Vec<FirewallRule>,
}

/// A compute server as the provider lists it; only its id and name matter
/// for a lookup.
#[derive(Debug)]
pub struct Server {
    pub id: String,
    pub name: String,
}

/// The payload sent to provision one rule: a single-host CIDR, a protocol,
/// a description, and the fixed RDP port range.
#[derive(Debug)]
pub struct CreateRuleRequest {
    pub source_ip: String,
    pub protocol: String,
    pub description: String,
    pub port_range_min: i32,
    pub port_range_max: i32,
}

/// The provider's problem document for a failed rule deletion. The engine
/// decides by HTTP status alone; this carries the detail for reporting.
#[derive(Debug)]
pub struct DeleteRuleResponse {
    pub title: String,
    pub status: Option<i32>,
    pub detail: Option<String>,
    pub instance: Option<String>,
    pub trace_id: Option<String>,
}

/// A rule is a stale RDP rule exactly when both ends of its port range are
/// present and equal to the RDP port. Protocol and source IP play no part:
/// rules from any prior IP, TCP and UDP alike, are stale.
pub open spec fn spec_is_stale_rdp_rule(m: RuleModel) -> bool {
    m.port_min == Option::Some(crate::RDP_PORT as int) && m.port_max == Option::Some(
        crate::RDP_PORT as int,
    )
}

/// Decides the stale-RDP predicate for one rule.
pub fn is_stale_rdp_rule(rule: &FirewallRule) -> (stale: bool)
    ensures
        stale == spec_is_stale_rdp_rule(rule@),
{
    match (rule.port_range_min, rule.port_range_max) {
        (Option::Some(lo), Option::Some(hi)) => lo == crate::RDP_PORT && hi == crate::RDP_PORT,
        _ => false,
    }
}

/// How a run can fail before or between the rule calls.
#[derive(Debug)]
pub enum ReconcileError {
    /// No firewall (or server) with the requested name was in the retrieved
    /// page.
    NotFound,
    /// A network, HTTP or deserialization failure, with the transport's own
    /// description.
    TransportError { detail: String },
}

/// What the paired create calls came to. Only `Created` leaves the firewall
/// with both fresh rules; nothing is rolled back in the other two cases, so
/// a partial failure can leave the TCP rule installed alone.
#[derive(Debug, Clone, Copy, PartialEq, Eq, Structural)]
pub enum CreateOutcome {
    /// Both calls returned a success status.
    Created,
    /// Exactly one of the two calls failed; both statuses are carried.
    PartialCreateFailure { tcp_status: u16, udp_status: u16 },
    /// Both calls failed.
    CreateFailure { tcp_status: u16, udp_status: u16 },
}

/// An HTTP status counts as success exactly when it is in the 2xx range.
pub open spec fn spec_is_success_status(status: u16) -> bool {
    200 <= status < 300
}

/// Decides whether an HTTP status is in the success range.
pub fn is_success_status(status: u16) -> (ok: bool)
    ensures
        ok == spec_is_success_status(status),
{
    200 <= status && status < 300
}

} // verus!
