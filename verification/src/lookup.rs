//! Resolving a firewall (or server) by name within the page of entries the
//! provider returned.
//!
//! The match is exact, case-sensitive string equality on the name, and the
//! first match in page order wins. A name with no match is `NotFound`, which
//! is fatal to a reconciliation run: the engine never reaches the delete or
//! create phase without a resolved firewall. Fetching the page itself -- one
//! read call, a single page of up to 100 entries -- is the caller's part.

use vstd::prelude::*;

use crate::model::Firewall;
use crate::model::ReconcileError;
use crate::model::Server;

verus! {

/// The first firewall in `firewalls` whose name is exactly `name`, if any.
pub open spec fn spec_find_firewall(firewalls: Seq<Firewall>, name: Seq<char>) -> Option<Firewall>
    decreases firewalls.len(),
{
    if firewalls.len() == 0 {
        Option::None
    } else if firewalls[0].name@ == name {
        Option::Some(firewalls[0])
    } else {
        spec_find_firewall(firewalls.drop_first(), name)
    }
}

/// The first server in `servers` whose name is exactly `name`, if any.
pub open spec fn spec_find_server(servers: Seq<Server>, name: Seq<char>) -> Option<Server>
    decreases servers.len(),
{
    if servers.len() == 0 {
        Option::None
    } else if servers[0].name@ == name {
        Option::Some(servers[0])
    } else {
        spec_find_server(servers.drop_first(), name)
    }
}

proof fn lemma_find_firewall_skip(firewalls: Seq<Firewall>, name: Seq<char>, i: int)
    requires
        0 <= i < firewalls.len(),
        firewalls[i].name@ != name,
    ensures
        spec_find_firewall(firewalls.skip(i), name) == spec_find_firewall(
            firewalls.skip(i + 1),
            name,
        ),
{
    assert(firewalls.skip(i)[0] == firewalls[i]);
    assert(firewalls.skip(i).drop_first() =~= firewalls.skip(i + 1));
}

proof fn lemma_find_server_skip(servers: Seq<Server>, name: Seq<char>, i: int)
    requires
        0 <= i < servers.len(),
        servers[i].name@ != name,
    ensures
        spec_find_server(servers.skip(i), name) == spec_find_server(servers.skip(i + 1), name),
{
    assert(servers.skip(i)[0] == servers[i]);
    assert(servers.skip(i).drop_first() =~= servers.skip(i + 1));
}

/// Picks the first firewall named exactly `firewall_name` out of the
/// retrieved page, or fails with `NotFound` when no entry matches.
pub fn find_firewall_by_name(firewalls: Vec<Firewall>, firewall_name: &String) -> (r: Result<
    Firewall,
    ReconcileError,
>)
    ensures
        match spec_find_firewall(firewalls@, firewall_name@) {
            Option::Some(fw) => r matches Ok(found) && found == fw,
            Option::None => r matches Err(e) && e matches ReconcileError::NotFound,
        },
{
    let mut page = firewalls;
    let mut i: usize = 0;
    proof {
        assert(firewalls@.skip(0) =~= firewalls@);
    }
    while i < page.len()
        invariant
            i <= page.len(),
            page@ == firewalls@,
            spec_find_firewall(firewalls@, firewall_name@) == spec_find_firewall(
                firewalls@.skip(i as int),
                firewall_name@,
            ),
        decreases page.len() - i,
    {
        if page[i].name == *firewall_name {
            proof {
                assert(firewalls@.skip(i as int)[0] == firewalls@[i as int]);
            }
            let found = page.remove(i);
            return Ok(found);
        }
        proof {
            lemma_find_firewall_skip(firewalls@, firewall_name@, i as int);
        }
        i = i + 1;
    }
    proof {
        assert(firewalls@.skip(i as int) =~= Seq::<Firewall>::empty());
    }
    Err(ReconcileError::NotFound)
}

/// Picks the id of the first server named exactly `server_name` out of the
/// retrieved page, or fails with `NotFound` when no entry matches.
pub fn find_server_id_by_name(servers: Vec<Server>, server_name: &String) -> (r: Result<
    String,
    ReconcileError,
>)
    ensures
        match spec_find_server(servers@, server_name@) {
            Option::Some(s) => r matches Ok(id) && id == s.id,
            Option::None => r matches Err(e) && e matches ReconcileError::NotFound,
        },
{
    let mut page = servers;
    let mut i: usize = 0;
    proof {
        assert(servers@.skip(0) =~= servers@);
    }
    while i < page.len()
        invariant
            i <= page.len(),
            page@ == servers@,
            spec_find_server(servers@, server_name@) == spec_find_server(
                servers@.skip(i as int),
                server_name@,
            ),
        decreases page.len() - i,
    {
        if page[i].name == *server_name {
            proof {
                assert(servers@.skip(i as int)[0] == servers@[i as int]);
            }
            let found = page.remove(i);
            return Ok(found.id);
        }
        proof {
            lemma_find_server_skip(servers@, server_name@, i as int);
        }
        i = i + 1;
    }
    proof {
        assert(servers@.skip(i as int) =~= Seq::<Server>::empty());
    }
    Err(ReconcileError::NotFound)
}

} // verus!
