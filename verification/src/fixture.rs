//! The fixture provisioner.
//!
//! Provisioning builds a fresh, fully seeded store: the fixed two teams
//! and two employees, inserted through the store's integrity-checked
//! inserts — the proof rules every insert failure out, so the seeded
//! content is pinned exactly. Each provisioning call also draws a fresh
//! storage location, so repeated calls never collide.

use vstd::prelude::*;
use crate::location::LocationGen;
use crate::location::StoreLocation;
use crate::records::EmployeeFlatView;
use crate::records::EmployeeWithTeamId;
use crate::records::Team;
use crate::records::TeamView;
use crate::store::Store;

verus! {

/// The seeded teams table: (1, "East Coast Team"), (2, "West Coast Team").
pub open spec fn seed_teams() -> Seq<TeamView> {
    seq![
        (TeamView { id: 1, name: "East Coast Team"@ }),
        (TeamView { id: 2, name: "West Coast Team"@ }),
    ]
}

/// The seeded employees table: (1, "Boston Alice", 1), (2, "Seattle Bob", 2).
pub open spec fn seed_employees() -> Seq<EmployeeFlatView> {
    seq![
        (EmployeeFlatView { id: 1, name: "Boston Alice"@, team: 1 }),
        (EmployeeFlatView { id: 2, name: "Seattle Bob"@, team: 2 }),
    ]
}

/// Build a fresh store seeded with exactly the fixed content: two teams
/// and two employees, every row accepted by the integrity-checked inserts.
pub fn seed_store() -> (s: Store)
    ensures
        s@.wf(),
        s@.teams =~= seed_teams(),
        s@.employees =~= seed_employees(),
        s@.teams.len() == 2,
        s@.employees.len() == 2,
{
    let mut s = Store::new();
    let r1 = s.insert_team(Team { id: 1, name: "East Coast Team".to_owned() });
    proof {
        assert(r1 is Ok);
        assert(s@.teams =~= seed_teams().take(1));
    }
    let r2 = s.insert_team(Team { id: 2, name: "West Coast Team".to_owned() });
    proof {
        assert(s@.teams.take(1) =~= seed_teams().take(1));
        assert(r2 is Ok);
        assert(s@.teams =~= seed_teams());
    }
    let r3 = s.insert_employee(
        EmployeeWithTeamId { id: 1, name: "Boston Alice".to_owned(), team: 1 },
    );
    proof {
        assert(seed_teams()[0].id == 1);
        assert(r3 is Ok);
        assert(s@.employees =~= seed_employees().take(1));
    }
    let r4 = s.insert_employee(
        EmployeeWithTeamId { id: 2, name: "Seattle Bob".to_owned(), team: 2 },
    );
    proof {
        assert(seed_teams()[1].id == 2);
        assert(r4 is Ok);
        assert(s@.employees =~= seed_employees());
        assert(s@.teams =~= seed_teams());
    }
    s
}

/// A provisioned fixture: where its store lives, and the seeded content.
#[derive(Debug, Clone, PartialEq, Eq)]
pub struct Fixture {
    pub location: StoreLocation,
    pub store: Store,
}

/// Provision a fixture: draw a fresh storage location from the generator
/// and build the seeded store. Each invocation yields an independent store
/// with exactly the two seeded teams and two seeded employees, at a
/// location no earlier or later draw shares.
pub fn provision(gen: &mut LocationGen) -> (f: Fixture)
    requires
        old(gen).next < u128::MAX,
    ensures
        f.store@.wf(),
        f.store@.teams =~= seed_teams(),
        f.store@.employees =~= seed_employees(),
        f.store@.teams.len() == 2,
        f.store@.employees.len() == 2,
        f.location == (StoreLocation::File { token: old(gen).next }),
        final(gen).next == old(gen).next + 1,
{
    let location = gen.fresh();
    let store = seed_store();
    Fixture { location, store }
}

/// Provision a fixture at a randomly named file location, for stateless
/// callers. The seeded content is pinned exactly as for `provision`; of
/// the random location only its file-ness is promised, so where draws
/// must provably never collide, provision from a `LocationGen` instead.
pub fn provision_random() -> (f: Fixture)
    ensures
        f.store@.wf(),
        f.store@.teams =~= seed_teams(),
        f.store@.employees =~= seed_employees(),
        f.store@.teams.len() == 2,
        f.store@.employees.len() == 2,
        f.location is File,
{
    let location = crate::location::random_location();
    let store = seed_store();
    Fixture { location, store }
}

} // verus!
