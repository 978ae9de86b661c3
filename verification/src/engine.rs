//! One reconciliation run as a step machine: the caller performs the network
//! calls, the engine decides what each response means and which call is due
//! next.
//!
//! The phases are strictly sequential: resolve the firewall by name, then
//! the delete pass (one delete call per stale rule, in source order), then
//! the paired create calls, TCP before UDP. A lookup failure aborts the run
//! before any delete or create call is handed out; a failed delete is only
//! counted, never retried, and never stops the pass; a create failure is
//! reported, with nothing rolled back. No step retries anything.

use vstd::prelude::*;

use crate::create_pass::create_outcome;
use crate::create_pass::rdp_create_request;
use crate::create_pass::set_protocol_udp;
use crate::create_pass::spec_cidr;
use crate::create_pass::spec_create_outcome;
use crate::delete_pass::delete_candidates;
use crate::delete_pass::stale_ids;
use crate::lookup::find_firewall_by_name;
use crate::lookup::spec_find_firewall;
use crate::model::CreateOutcome;
use crate::model::CreateRuleRequest;
use crate::model::Firewall;
use crate::model::ReconcileError;

verus! {

/// Where a run stands: which call it is waiting on, or how it ended.
#[derive(Debug, Clone, Copy, PartialEq, Eq, Structural)]
pub enum Phase {
    /// Waiting for the retrieved firewall page.
    AwaitingFirewalls,
    /// Issuing one delete call per stale rule.
    Deleting,
    /// Waiting for the TCP create response.
    AwaitingTcp,
    /// Waiting for the UDP create response.
    AwaitingUdp,
    /// The run went through both create calls.
    Finished,
    /// The run ended early: lookup failed, or a create call's transport
    /// failed.
    Aborted,
}

/// The composite outcome of a run that reached the end: which firewall was
/// reconciled, how many stale rules were deleted, and what the paired
/// create calls came to.
#[derive(Debug)]
pub struct RunOutcome {
    pub firewall_id: String,
    pub rules_deleted: usize,
    pub create: CreateOutcome,
}

/// One reconciliation run for a (firewall name, target IP) pair.
///
/// The driver calls, in order: [`ReconcileRun::on_firewalls_retrieved`] with
/// the fetched page; [`ReconcileRun::next_delete_target`] and
/// [`ReconcileRun::on_delete_result`] until no target is left;
/// [`ReconcileRun::begin_create`] for the TCP request;
/// [`ReconcileRun::on_tcp_response`], which hands back the UDP request; and
/// [`ReconcileRun::on_udp_response`]. An aborted run accepts no further
/// step, so no delete or create call is ever due after a failed lookup.
pub struct ReconcileRun {
    /// The name the firewall is looked up by (exact match).
    pub firewall_name: String,
    /// The IP the fresh rules are scoped to.
    pub ip: String,
    pub phase: Phase,
    /// The resolved firewall's id; meaningful from the delete phase on.
    pub firewall_id: String,
    /// Ids of the stale rules, one delete call due for each, in source
    /// order.
    pub candidates: Vec<String>,
    /// How many delete calls have been answered.
    pub next_candidate: usize,
    /// How many delete calls succeeded.
    pub deleted: usize,
    /// The TCP create call's status; meaningful while awaiting the UDP one.
    pub tcp_status: u16,
    /// The create pass's classification; meaningful once finished.
    pub create: Option<CreateOutcome>,
    /// Why the run aborted, if it did.
    pub error: Option<ReconcileError>,
}

impl ReconcileRun {
    /// The delete-pass counters never run ahead of the candidate list.
    pub open spec fn wf(self) -> bool {
        self.deleted <= self.next_candidate && self.next_candidate <= self.candidates@.len()
    }

    /// Starts a run: nothing is decided until the firewall page arrives.
    pub fn new(firewall_name: String, ip: String) -> (run: ReconcileRun)
        ensures
            run.firewall_name == firewall_name,
            run.ip == ip,
            run.phase == Phase::AwaitingFirewalls,
            run.error is None,
            run.create is None,
            run.wf(),
    {
        ReconcileRun {
            firewall_name,
            ip,
            phase: Phase::AwaitingFirewalls,
            firewall_id: String::new(),
            candidates: Vec::new(),
            next_candidate: 0,
            deleted: 0,
            tcp_status: 0,
            create: None,
            error: None,
        }
    }

    /// Takes the retrieved firewall page, or the transport's failure.
    ///
    /// A transport failure or a name with no exact match aborts the run --
    /// with `TransportError` or `NotFound` -- before any delete or create
    /// call is due. A match moves to the delete phase with the stale rules'
    /// ids, in source order, as the candidates.
    pub fn on_firewalls_retrieved(&mut self, page: Result<Vec<Firewall>, String>)
        requires
            old(self).wf(),
            old(self).phase == Phase::AwaitingFirewalls,
        ensures
            final (self).firewall_name == old(self).firewall_name,
            final (self).ip == old(self).ip,
            final (self).wf(),
            match page {
                Result::Err(detail) => final (self).phase == Phase::Aborted && final (self).error
                    == (Some(ReconcileError::TransportError { detail })),
                Result::Ok(firewalls) => match spec_find_firewall(
                    firewalls@,
                    old(self).firewall_name@,
                ) {
                    Option::None => final (self).phase == Phase::Aborted && final (self).error == (
                    Some(ReconcileError::NotFound)),
                    Option::Some(fw) => final (self).phase == Phase::Deleting
                        && final (self).error == old(self).error
                        && final (self).firewall_id == fw.id
                        && final (self).candidates.deep_view() == stale_ids(fw.rules.deep_view())
                        && final (self).next_candidate == 0
                        && final (self).deleted == 0,
                },
            },
    {
        match page {
            Ok(firewalls) => match find_firewall_by_name(firewalls, &self.firewall_name) {
                Ok(fw) => {
                    self.candidates = delete_candidates(&fw.rules);
                    self.firewall_id = fw.id;
                    self.next_candidate = 0;
                    self.deleted = 0;
                    self.phase = Phase::Deleting;
                },
                Err(e) => {
                    self.error = Some(e);
                    self.phase = Phase::Aborted;
                },
            },
            Err(detail) => {
                self.error = Some(ReconcileError::TransportError { detail });
                self.phase = Phase::Aborted;
            },
        }
    }

    /// The id the next delete call is due for, if the run is in its delete
    /// phase with candidates left; `None` anywhere else, so an aborted or
    /// finished run never asks for a delete call.
    pub fn next_delete_target(&self) -> (target: Option<&String>)
        ensures
            if self.phase == Phase::Deleting && self.next_candidate < self.candidates@.len() {
                target matches Some(id) && *id == self.candidates@[self.next_candidate as int]
            } else {
                target is None
            },
    {
        if self.phase == Phase::Deleting && self.next_candidate < self.candidates.len() {
            Some(&self.candidates[self.next_candidate])
        } else {
            None
        }
    }

    /// Records one delete call's outcome: the count grows exactly on
    /// success, and the pass moves to the next candidate either way -- a
    /// failed delete never stops the pass.
    pub fn on_delete_result(&mut self, success: bool)
        requires
            old(self).wf(),
            old(self).phase == Phase::Deleting,
            old(self).next_candidate < old(self).candidates@.len(),
        ensures
            final (self).wf(),
            final (self).phase == Phase::Deleting,
            final (self).firewall_name == old(self).firewall_name,
            final (self).ip == old(self).ip,
            final (self).firewall_id == old(self).firewall_id,
            final (self).candidates == old(self).candidates,
            final (self).error == old(self).error,
            final (self).next_candidate == old(self).next_candidate + 1,
            final (self).deleted == old(self).deleted + if success {
                1int
            } else {
                0int
            },
    {
        // reading the length bounds it by usize::MAX, so the increment fits
        let _candidate_count = self.candidates.len();
        self.next_candidate = self.next_candidate + 1;
        if success {
            self.deleted = self.deleted + 1;
        }
    }

    /// Closes the delete pass -- every candidate has had its one delete
    /// attempt, however many succeeded -- and hands out the TCP create
    /// request: the run's IP as a single-host CIDR on the fixed RDP port
    /// range.
    pub fn begin_create(&mut self) -> (req: CreateRuleRequest)
        requires
            old(self).wf(),
            old(self).phase == Phase::Deleting,
            old(self).next_candidate == old(self).candidates@.len(),
        ensures
            final (self).wf(),
            final (self).phase == Phase::AwaitingTcp,
            final (self).error == old(self).error,
            final (self).firewall_name == old(self).firewall_name,
            final (self).ip == old(self).ip,
            final (self).firewall_id == old(self).firewall_id,
            final (self).deleted == old(self).deleted,
            req.source_ip@ == spec_cidr(old(self).ip@),
            req.protocol@ == "TCP"@,
            req.description@ == "Allow RDP Rust"@,
            req.port_range_min == crate::RDP_PORT,
            req.port_range_max == crate::RDP_PORT,
    {
        self.phase = Phase::AwaitingTcp;
        rdp_create_request(self.ip.as_str())
    }

    /// Takes the TCP create response. A status -- success or not -- moves
    /// the run on and hands out the UDP request, identical but for the
    /// protocol; a transport failure aborts the run, and no UDP call is
    /// due.
    pub fn on_tcp_response(&mut self, response: Result<u16, String>) -> (udp_req: Option<
        CreateRuleRequest,
    >)
        requires
            old(self).wf(),
            old(self).phase == Phase::AwaitingTcp,
        ensures
            final (self).wf(),
            final (self).firewall_name == old(self).firewall_name,
            final (self).ip == old(self).ip,
            final (self).firewall_id == old(self).firewall_id,
            final (self).deleted == old(self).deleted,
            match response {
                Result::Err(detail) => final (self).phase == Phase::Aborted && final (self).error
                    == (Some(ReconcileError::TransportError { detail })) && udp_req is None,
                Result::Ok(status) => final (self).phase == Phase::AwaitingUdp
                    && final (self).error == old(self).error
                    && final (self).tcp_status == status
                    && (udp_req matches Some(req) && req.source_ip@ == spec_cidr(old(self).ip@)
                        && req.protocol@ == "UDP"@ && req.description@ == "Allow RDP Rust"@
                        && req.port_range_min == crate::RDP_PORT && req.port_range_max
                        == crate::RDP_PORT),
            },
    {
        match response {
            Ok(status) => {
                self.tcp_status = status;
                self.phase = Phase::AwaitingUdp;
                let mut req = rdp_create_request(self.ip.as_str());
                set_protocol_udp(&mut req);
                Some(req)
            },
            Err(detail) => {
                self.error = Some(ReconcileError::TransportError { detail });
                self.phase = Phase::Aborted;
                None
            },
        }
    }

    /// Takes the UDP create response and closes the run. With a status the
    /// run finishes, classifying the pair: success only when both statuses
    /// were in the success range, a partial failure -- nothing rolled back
    /// -- when exactly one was. A transport failure aborts the run.
    pub fn on_udp_response(&mut self, response: Result<u16, String>)
        requires
            old(self).wf(),
            old(self).phase == Phase::AwaitingUdp,
        ensures
            final (self).wf(),
            final (self).firewall_name == old(self).firewall_name,
            final (self).ip == old(self).ip,
            final (self).firewall_id == old(self).firewall_id,
            final (self).deleted == old(self).deleted,
            match response {
                Result::Err(detail) => final (self).phase == Phase::Aborted && final (self).error
                    == (Some(ReconcileError::TransportError { detail })),
                Result::Ok(status) => final (self).phase == Phase::Finished
                    && final (self).error == old(self).error
                    && final (self).create == (Some(
                    spec_create_outcome(old(self).tcp_status, status),
                )),
            },
    {
        match response {
            Ok(status) => {
                self.create = Some(create_outcome(self.tcp_status, status));
                self.phase = Phase::Finished;
            },
            Err(detail) => {
                self.error = Some(ReconcileError::TransportError { detail });
                self.phase = Phase::Aborted;
            },
        }
    }

    /// The composite outcome of a finished run: the resolved firewall's id,
    /// the number of stale rules deleted, and the create pass's
    /// classification.
    pub fn run_outcome(&self) -> (outcome: RunOutcome)
        requires
            self.phase == Phase::Finished,
            self.create is Some,
        ensures
            outcome.firewall_id == self.firewall_id,
            outcome.rules_deleted == self.deleted,
            Some(outcome.create) == self.create,
    {
        let create = match &self.create {
            Some(c) => *c,
            None => CreateOutcome::Created,
        };
        RunOutcome { firewall_id: self.firewall_id.clone(), rules_deleted: self.deleted, create }
    }
}

} // verus!
