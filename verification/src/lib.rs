//! Keeps a cloud firewall's remote-desktop (RDP) access rules in sync with a
//! single source IP address.
//!
//! One reconciliation run looks up a firewall by name among the entries a
//! provider returned, removes every stale RDP rule (any rule whose port range
//! is exactly 3389..3389), and installs two fresh rules -- TCP and UDP --
//! scoped to the new IP. The network calls themselves are the caller's
//! business: this crate decides, step by step, which call to make next and
//! what each response means for the run.

use vstd::prelude::*;

pub mod config;
pub mod create_pass;
pub mod delete_pass;
pub mod engine;
pub mod laws;
pub mod lookup;
pub mod model;

verus! {

/// The fixed port both RDP rules use, and the one the stale-rule predicate
/// looks for.
pub const RDP_PORT: i32 = 3389;

} // verus!
