//! The record shapes a fixture row can decode into.
//!
//! A team is always a full record. An employee comes in two shapes: the
//! flat one keeps its team as a raw foreign-key id and needs a second
//! lookup for team details; the nested one embeds the full team record,
//! as produced by a joined query.
//!
//! Each exec record has a mathematical view (`TeamView`, `EmployeeFlatView`,
//! `EmployeeView`) that the contracts of the decoders and of the store
//! speak of.

use vstd::prelude::*;

verus! {

/// A foreign key into `Team::id`.
pub type TeamId = u64;

/// A team record: identity is `id`, immutable once seeded.
#[derive(Debug, Clone, PartialEq, Eq)]
pub struct Team {
    pub id: TeamId,
    pub name: String,
}

/// The mathematical view of a `Team`.
#[verifier::ext_equal]
pub struct TeamView {
    pub id: int,
    pub name: Seq<char>,
}

impl View for Team {
    type V = TeamView;

    open spec fn view(&self) -> TeamView {
        TeamView { id: self.id as int, name: self.name@ }
    }
}

/// An employee in the flat shape: the team is kept as a raw id reference,
/// and resolving team details takes a second lookup.
#[derive(Debug, Clone, PartialEq, Eq)]
pub struct EmployeeWithTeamId {
    pub id: u64,
    pub name: String,
    pub team: TeamId,
}

/// The mathematical view of an `EmployeeWithTeamId`.
#[verifier::ext_equal]
pub struct EmployeeFlatView {
    pub id: int,
    pub name: Seq<char>,
    pub team: int,
}

impl View for EmployeeWithTeamId {
    type V = EmployeeFlatView;

    open spec fn view(&self) -> EmployeeFlatView {
        EmployeeFlatView { id: self.id as int, name: self.name@, team: self.team as int }
    }
}

/// An employee in the nested shape: the team record is embedded, not
/// referenced, as decoded from a joined row.
#[derive(Debug, Clone, PartialEq, Eq)]
pub struct Employee {
    pub id: u64,
    pub name: String,
    pub team: Team,
}

/// The mathematical view of an `Employee`.
#[verifier::ext_equal]
pub struct EmployeeView {
    pub id: int,
    pub name: Seq<char>,
    pub team: TeamView,
}

impl View for Employee {
    type V = EmployeeView;

    open spec fn view(&self) -> EmployeeView {
        EmployeeView { id: self.id as int, name: self.name@, team: self.team@ }
    }
}

} // verus!
