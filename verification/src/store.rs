//! The fixture's relational content, modelled in memory.
//!
//! A store holds the two tables: teams and employees in the flat shape.
//! Its well-formedness is exactly the store-level integrity rules: ids
//! are primary keys (unique per table) and every employee's team id
//! references an existing team. Inserts enforce those rules and refuse
//! offending rows with a `SeedError`; lookups resolve records in the flat
//! or the nested shape.

use vstd::prelude::*;
use crate::errors::SeedError;
use crate::records::Employee;
use crate::records::EmployeeFlatView;
use crate::records::EmployeeView;
use crate::records::EmployeeWithTeamId;
use crate::records::Team;
use crate::records::TeamId;
use crate::records::TeamView;

verus! {

/// Some team in `teams` carries id `id`.
pub open spec fn has_team(teams: Seq<TeamView>, id: int) -> bool {
    exists|j: int| 0 <= j < teams.len() && teams[j].id == id
}

/// The team in `teams` carrying id `id` (unique when ids are unique).
pub open spec fn team_with_id(teams: Seq<TeamView>, id: int) -> TeamView
    recommends
        has_team(teams, id),
{
    teams[choose|j: int| 0 <= j < teams.len() && teams[j].id == id]
}

/// Some employee in `emps` carries id `id`.
pub open spec fn has_employee(emps: Seq<EmployeeFlatView>, id: int) -> bool {
    exists|j: int| 0 <= j < emps.len() && emps[j].id == id
}

/// The employee in `emps` carrying id `id` (unique when ids are unique).
pub open spec fn employee_with_id(emps: Seq<EmployeeFlatView>, id: int) -> EmployeeFlatView
    recommends
        has_employee(emps, id),
{
    emps[choose|j: int| 0 <= j < emps.len() && emps[j].id == id]
}

/// Team ids act as a primary key.
pub open spec fn teams_unique(teams: Seq<TeamView>) -> bool {
    forall|i: int, j: int| 0 <= i < j < teams.len() ==> teams[i].id != teams[j].id
}

/// Employee ids act as a primary key.
pub open spec fn employees_unique(emps: Seq<EmployeeFlatView>) -> bool {
    forall|i: int, j: int| 0 <= i < j < emps.len() ==> emps[i].id != emps[j].id
}

/// Every employee's team id references an existing team.
pub open spec fn employees_reference_teams(
    emps: Seq<EmployeeFlatView>,
    teams: Seq<TeamView>,
) -> bool {
    forall|k: int| 0 <= k < emps.len() ==> has_team(teams, emps[k].team)
}

/// The mathematical view of a store: its two tables.
#[verifier::ext_equal]
pub struct StoreView {
    pub teams: Seq<TeamView>,
    pub employees: Seq<EmployeeFlatView>,
}

impl StoreView {
    /// The store's integrity rules: primary keys unique, foreign keys
    /// resolvable.
    pub open spec fn wf(self) -> bool {
        &&& teams_unique(self.teams)
        &&& employees_unique(self.employees)
        &&& employees_reference_teams(self.employees, self.teams)
    }

    /// The nested record for the employee carrying `id`: its own fields,
    /// with the referenced team embedded.
    pub open spec fn nested_of(self, id: int) -> EmployeeView
        recommends
            self.wf(),
            has_employee(self.employees, id),
    {
        let e = employee_with_id(self.employees, id);
        EmployeeView { id: e.id, name: e.name, team: team_with_id(self.teams, e.team) }
    }
}

/// The fixture's relational content: the teams and employees tables.
#[derive(Debug, Clone, PartialEq, Eq)]
pub struct Store {
    pub teams: Vec<Team>,
    pub employees: Vec<EmployeeWithTeamId>,
}

impl View for Store {
    type V = StoreView;

    open spec fn view(&self) -> StoreView {
        StoreView {
            teams: Seq::new(self.teams@.len(), |i: int| self.teams@[i]@),
            employees: Seq::new(self.employees@.len(), |i: int| self.employees@[i]@),
        }
    }
}

impl Store {
    /// An empty, well-formed store.
    pub fn new() -> (s: Store)
        ensures
            s@.wf(),
            s@.teams.len() == 0,
            s@.employees.len() == 0,
    {
        Store { teams: Vec::new(), employees: Vec::new() }
    }

    /// Whether some seeded team carries `id`.
    pub fn contains_team(&self, id: TeamId) -> (b: bool)
        ensures
            b == has_team(self@.teams, id as int),
    {
        let mut i: usize = 0;
        while i < self.teams.len()
            invariant
                0 <= i <= self.teams.len(),
                forall|k: int| 0 <= k < i ==> self.teams@[k]@.id != id as int,
            decreases self.teams.len() - i,
        {
            if self.teams[i].id == id {
                proof {
                    assert(self@.teams[i as int].id == id as int);
                }
                return true;
            }
            i = i + 1;
        }
        proof {
            assert forall|j: int| 0 <= j < self@.teams.len() implies self@.teams[j].id != id as int by {
                assert(self@.teams[j] == self.teams@[j]@);
            }
        }
        false
    }

    /// Whether some seeded employee carries `id`.
    pub fn contains_employee(&self, id: u64) -> (b: bool)
        ensures
            b == has_employee(self@.employees, id as int),
    {
        let mut i: usize = 0;
        while i < self.employees.len()
            invariant
                0 <= i <= self.employees.len(),
                forall|k: int| 0 <= k < i ==> self.employees@[k]@.id != id as int,
            decreases self.employees.len() - i,
        {
            if self.employees[i].id == id {
                proof {
                    assert(self@.employees[i as int].id == id as int);
                }
                return true;
            }
            i = i + 1;
        }
        proof {
            assert forall|j: int| 0 <= j < self@.employees.len() implies self@.employees[j].id
                != id as int by {
                assert(self@.employees[j] == self.employees@[j]@);
            }
        }
        false
    }

    /// Insert a team row. Refused (store untouched) when a team with the
    /// same id is already seeded; otherwise the row is appended.
    pub fn insert_team(&mut self, t: Team) -> (r: Result<(), SeedError>)
        requires
            old(self)@.wf(),
        ensures
            final(self)@.wf(),
            match r {
                Ok(()) => {
                    &&& !has_team(old(self)@.teams, t@.id)
                    &&& final(self)@.teams =~= old(self)@.teams.push(t@)
                    &&& final(self)@.employees =~= old(self)@.employees
                },
                Err(e) => {
                    &&& has_team(old(self)@.teams, t@.id)
                    &&& e == SeedError::DuplicateTeam(t.id)
                    &&& *final(self) == *old(self)
                },
            },
    {
        if self.contains_team(t.id) {
            return Err(SeedError::DuplicateTeam(t.id));
        }
        let ghost pre = self@;
        let ghost tv = t@;
        self.teams.push(t);
        proof {
            assert(self@.teams =~= pre.teams.push(tv));
            assert(self@.employees =~= pre.employees);
            assert forall|i: int, j: int| 0 <= i < j < self@.teams.len() implies self@.teams[i].id
                != self@.teams[j].id by {
                if j < pre.teams.len() {
                    assert(pre.teams[i].id != pre.teams[j].id);
                } else {
                    assert(self@.teams[j] == tv);
                    assert(self@.teams[i] == pre.teams[i]);
                }
            }
            assert forall|k: int| 0 <= k < self@.employees.len() implies has_team(
                self@.teams,
                self@.employees[k].team,
            ) by {
                assert(pre.employees[k] == self@.employees[k]);
                assert(has_team(pre.teams, pre.employees[k].team));
                let j = choose|j: int|
                    0 <= j < pre.teams.len() && pre.teams[j].id == pre.employees[k].team;
                assert(self@.teams[j] == pre.teams[j]);
            }
        }
        Ok(())
    }

    /// Insert an employee row. Refused (store untouched) when an employee
    /// with the same id is already seeded, or — the referential-integrity
    /// constraint — when its team id references no seeded team; otherwise
    /// the row is appended.
    pub fn insert_employee(&mut self, e: EmployeeWithTeamId) -> (r: Result<(), SeedError>)
        requires
            old(self)@.wf(),
        ensures
            final(self)@.wf(),
            match r {
                Ok(()) => {
                    &&& !has_employee(old(self)@.employees, e@.id)
                    &&& has_team(old(self)@.teams, e@.team)
                    &&& final(self)@.teams =~= old(self)@.teams
                    &&& final(self)@.employees =~= old(self)@.employees.push(e@)
                },
                Err(err) => {
                    &&& *final(self) == *old(self)
                    &&& match err {
                        SeedError::DuplicateEmployee(i) => i == e.id && has_employee(
                            old(self)@.employees,
                            e@.id,
                        ),
                        SeedError::UnknownTeam(t) => {
                            &&& t == e.team
                            &&& !has_employee(old(self)@.employees, e@.id)
                            &&& !has_team(old(self)@.teams, e@.team)
                        },
                        SeedError::DuplicateTeam(_) => false,
                    }
                },
            },
    {
        if self.contains_employee(e.id) {
            return Err(SeedError::DuplicateEmployee(e.id));
        }
        if !self.contains_team(e.team) {
            return Err(SeedError::UnknownTeam(e.team));
        }
        let ghost pre = self@;
        let ghost ev = e@;
        self.employees.push(e);
        proof {
            assert(self@.employees =~= pre.employees.push(ev));
            assert(self@.teams =~= pre.teams);
            assert forall|i: int, j: int|
                0 <= i < j < self@.employees.len() implies self@.employees[i].id
                != self@.employees[j].id by {
                if j < pre.employees.len() {
                    assert(pre.employees[i].id != pre.employees[j].id);
                } else {
                    assert(self@.employees[j] == ev);
                    assert(self@.employees[i] == pre.employees[i]);
                    assert(!has_employee(pre.employees, ev.id));
                }
            }
            assert forall|k: int| 0 <= k < self@.employees.len() implies has_team(
                self@.teams,
                self@.employees[k].team,
            ) by {
                if k < pre.employees.len() {
                    assert(self@.employees[k] == pre.employees[k]);
                    assert(has_team(pre.teams, pre.employees[k].team));
                    let j = choose|j: int|
                        0 <= j < pre.teams.len() && pre.teams[j].id == pre.employees[k].team;
                    assert(self@.teams[j] == pre.teams[j]);
                } else {
                    assert(self@.employees[k] == ev);
                    assert(has_team(pre.teams, ev.team));
                    let j = choose|j: int| 0 <= j < pre.teams.len() && pre.teams[j].id == ev.team;
                    assert(self@.teams[j] == pre.teams[j]);
                }
            }
        }
        Ok(())
    }

    /// Look a team up by id. Returns exactly the team carrying `id`, or
    /// `None` when no seeded team does.
    pub fn team_by_id(&self, id: TeamId) -> (r: Option<Team>)
        requires
            self@.wf(),
        ensures
            match r {
                Some(t) => has_team(self@.teams, id as int) && t@ == team_with_id(
                    self@.teams,
                    id as int,
                ),
                None => !has_team(self@.teams, id as int),
            },
    {
        let mut i: usize = 0;
        while i < self.teams.len()
            invariant
                self@.wf(),
                0 <= i <= self.teams.len(),
                forall|k: int| 0 <= k < i ==> self.teams@[k]@.id != id as int,
            decreases self.teams.len() - i,
        {
            if self.teams[i].id == id {
                let found = &self.teams[i];
                let t = Team { id: found.id, name: found.name.clone() };
                proof {
                    assert(self@.teams[i as int].id == id as int);
                    let c = choose|j: int|
                        0 <= j < self@.teams.len() && self@.teams[j].id == id as int;
                    if c != i as int {
                        assert(self@.teams[c].id != self@.teams[i as int].id);
                    }
                    assert(t@ =~= team_with_id(self@.teams, id as int));
                }
                return Some(t);
            }
            i = i + 1;
        }
        proof {
            assert forall|j: int| 0 <= j < self@.teams.len() implies self@.teams[j].id != id as int by {
                assert(self@.teams[j] == self.teams@[j]@);
            }
        }
        None
    }

    /// Look an employee up by id in the flat shape: the team stays a raw
    /// id reference. Returns exactly the employee carrying `id`, or `None`
    /// when no seeded employee does.
    pub fn employee_flat(&self, id: u64) -> (r: Option<EmployeeWithTeamId>)
        requires
            self@.wf(),
        ensures
            match r {
                Some(e) => has_employee(self@.employees, id as int) && e@ == employee_with_id(
                    self@.employees,
                    id as int,
                ),
                None => !has_employee(self@.employees, id as int),
            },
    {
        let mut i: usize = 0;
        while i < self.employees.len()
            invariant
                self@.wf(),
                0 <= i <= self.employees.len(),
                forall|k: int| 0 <= k < i ==> self.employees@[k]@.id != id as int,
            decreases self.employees.len() - i,
        {
            if self.employees[i].id == id {
                let found = &self.employees[i];
                let e = EmployeeWithTeamId { id: found.id, name: found.name.clone(), team: found.team };
                proof {
                    assert(self@.employees[i as int].id == id as int);
                    let c = choose|j: int|
                        0 <= j < self@.employees.len() && self@.employees[j].id == id as int;
                    if c != i as int {
                        assert(self@.employees[c].id != self@.employees[i as int].id);
                    }
                    assert(e@ =~= employee_with_id(self@.employees, id as int));
                }
                return Some(e);
            }
            i = i + 1;
        }
        proof {
            assert forall|j: int| 0 <= j < self@.employees.len() implies self@.employees[j].id
                != id as int by {
                assert(self@.employees[j] == self.employees@[j]@);
            }
        }
        None
    }

    /// Look an employee up by id in the nested shape: the flat record is
    /// resolved and its team embedded, exactly as a joined query would
    /// return it. Returns `None` when no seeded employee carries `id`.
    pub fn employee_nested(&self, id: u64) -> (r: Option<Employee>)
        requires
            self@.wf(),
        ensures
            match r {
                Some(e) => has_employee(self@.employees, id as int) && e@ == self@.nested_of(
                    id as int,
                ),
                None => !has_employee(self@.employees, id as int),
            },
    {
        let flat = match self.employee_flat(id) {
            Some(f) => f,
            None => {
                return None;
            },
        };
        proof {
            let c = choose|j: int|
                0 <= j < self@.employees.len() && self@.employees[j].id == id as int;
            assert(has_team(self@.teams, self@.employees[c].team));
        }
        let team = match self.team_by_id(flat.team) {
            Some(t) => t,
            None => {
                proof {
                    assert(false);
                }
                return None;
            },
        };
        let e = Employee { id: flat.id, name: flat.name, team };
        proof {
            assert(e@ =~= self@.nested_of(id as int));
        }
        Some(e)
    }
}

/// Flat resolution and nested decoding agree: for every employee of a
/// well-formed store, resolving its flat team id against the teams table
/// yields exactly the team embedded in its nested record, so the flat
/// shape plus a second lookup and the nested shape are observationally
/// equivalent.
pub proof fn lemma_flat_lookup_matches_nested(s: StoreView, id: int)
    requires
        s.wf(),
        has_employee(s.employees, id),
    ensures
        has_team(s.teams, employee_with_id(s.employees, id).team),
        s.nested_of(id) == (EmployeeView {
            id: employee_with_id(s.employees, id).id,
            name: employee_with_id(s.employees, id).name,
            team: team_with_id(s.teams, employee_with_id(s.employees, id).team),
        }),
{
    let c = choose|j: int| 0 <= j < s.employees.len() && s.employees[j].id == id;
    assert(has_team(s.teams, s.employees[c].team));
    assert(s.nested_of(id) =~= (EmployeeView {
        id: employee_with_id(s.employees, id).id,
        name: employee_with_id(s.employees, id).name,
        team: team_with_id(s.teams, employee_with_id(s.employees, id).team),
    }));
}

} // verus!
