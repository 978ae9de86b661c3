//! The paired create pass: the two requests that install fresh RDP rules,
//! and what the pair of responses amounts to.
//!
//! Both requests carry the same single-host CIDR, description and fixed port
//! range; they differ only in protocol, TCP first, then UDP. The pass
//! succeeds only when both calls returned a success status; a rule that did
//! get created is never rolled back, so a failed pass can leave the TCP rule
//! installed alone.

use vstd::prelude::*;
use vstd::string::StringExecFns;

use crate::model::CreateRuleRequest;
use crate::model::CreateOutcome;
use crate::model::spec_is_success_status;
use crate::model::is_success_status;

verus! {

/// The single-host CIDR form of an IP address: the address with `/32`
/// appended.
pub open spec fn spec_cidr(ip: Seq<char>) -> Seq<char> {
    ip + "/32"@
}

/// Builds the first of the two paired requests: the TCP rule for `ip`,
/// scoped to `ip/32` on the fixed RDP port range.
pub fn rdp_create_request(ip: &str) -> (req: CreateRuleRequest)
    ensures
        req.source_ip@ == spec_cidr(ip@),
        req.protocol@ == "TCP"@,
        req.description@ == "Allow RDP Rust"@,
        req.port_range_min == crate::RDP_PORT,
        req.port_range_max == crate::RDP_PORT,
{
    let mut source_ip = ip.to_owned();
    source_ip.append("/32");
    CreateRuleRequest {
        source_ip,
        protocol: "TCP".to_owned(),
        description: "Allow RDP Rust".to_owned(),
        port_range_min: crate::RDP_PORT,
        port_range_max: crate::RDP_PORT,
    }
}

/// Turns the TCP request into the UDP one: only the protocol field changes.
pub fn set_protocol_udp(req: &mut CreateRuleRequest)
    ensures
        final (req).protocol@ == "UDP"@,
        final (req).source_ip == old(req).source_ip,
        final (req).description == old(req).description,
        final (req).port_range_min == old(req).port_range_min,
        final (req).port_range_max == old(req).port_range_max,
{
    req.protocol = "UDP".to_owned();
}

/// What the pair of create responses amounts to: success only when both
/// statuses are in the success range, a partial failure when exactly one is,
/// and a plain failure when neither is.
pub open spec fn spec_create_outcome(tcp_status: u16, udp_status: u16) -> CreateOutcome {
    if spec_is_success_status(tcp_status) && spec_is_success_status(udp_status) {
        CreateOutcome::Created
    } else if spec_is_success_status(tcp_status) || spec_is_success_status(udp_status) {
        CreateOutcome::PartialCreateFailure { tcp_status, udp_status }
    } else {
        CreateOutcome::CreateFailure { tcp_status, udp_status }
    }
}

/// Classifies the two create responses, carrying both statuses whenever
/// either call failed.
pub fn create_outcome(tcp_status: u16, udp_status: u16) -> (outcome: CreateOutcome)
    ensures
        outcome == spec_create_outcome(tcp_status, udp_status),
{
    let tcp_ok = is_success_status(tcp_status);
    let udp_ok = is_success_status(udp_status);
    if tcp_ok && udp_ok {
        CreateOutcome::Created
    } else if tcp_ok || udp_ok {
        CreateOutcome::PartialCreateFailure { tcp_status, udp_status }
    } else {
        CreateOutcome::CreateFailure { tcp_status, udp_status }
    }
}

} // verus!
