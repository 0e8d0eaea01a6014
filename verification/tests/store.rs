use team_fixture::EmployeeWithTeamId;
use team_fixture::SeedError;
use team_fixture::Store;
use team_fixture::Team;
use team_fixture::seed_store;

/// A fresh store is empty.
#[test]
fn new_store_is_empty() {
    let store = Store::new();
    assert_eq!(store.teams.len(), 0);
    assert_eq!(store.employees.len(), 0);
}

/// Inserting an employee whose team id references no seeded team fails
/// with the referential-integrity constraint, and the store is untouched.
#[test]
fn insert_employee_with_unknown_team_fails() {
    let mut store = seed_store();
    let r = store.insert_employee(EmployeeWithTeamId {
        id: 3,
        name: String::from("Denver Carol"),
        team: 9,
    });
    assert_eq!(r, Err(SeedError::UnknownTeam(9)));
    assert_eq!(store.employees.len(), 2);
    assert!(store.employee_flat(3).is_none());
}

/// Inserting a team with a seeded id fails with a duplicate-key error.
#[test]
fn insert_duplicate_team_fails() {
    let mut store = seed_store();
    let r = store.insert_team(Team {
        id: 1,
        name: String::from("Another Team"),
    });
    assert_eq!(r, Err(SeedError::DuplicateTeam(1)));
    assert_eq!(store.teams.len(), 2);
}

/// Inserting an employee with a seeded id fails with a duplicate-key
/// error, even when its team reference is valid.
#[test]
fn insert_duplicate_employee_fails() {
    let mut store = seed_store();
    let r = store.insert_employee(EmployeeWithTeamId {
        id: 1,
        name: String::from("Boston Alice"),
        team: 1,
    });
    assert_eq!(r, Err(SeedError::DuplicateEmployee(1)));
    assert_eq!(store.employees.len(), 2);
}

/// A fresh employee with a resolvable team reference is accepted and then
/// found by both query shapes.
#[test]
fn insert_valid_employee_appends() {
    let mut store = seed_store();
    let r = store.insert_employee(EmployeeWithTeamId {
        id: 3,
        name: String::from("Portland Dana"),
        team: 2,
    });
    assert_eq!(r, Ok(()));
    assert_eq!(store.employees.len(), 3);
    let flat = store.employee_flat(3).unwrap();
    assert_eq!(flat.team, 2);
    let nested = store.employee_nested(3).unwrap();
    assert_eq!(nested.team.name, "West Coast Team");
}

/// With no teams seeded at all, any employee insert trips the
/// referential-integrity constraint.
#[test]
fn insert_employee_into_empty_store_fails() {
    let mut store = Store::new();
    let r = store.insert_employee(EmployeeWithTeamId {
        id: 1,
        name: String::from("Boston Alice"),
        team: 1,
    });
    assert_eq!(r, Err(SeedError::UnknownTeam(1)));
    assert_eq!(store.employees.len(), 0);
}

/// Lookups for ids nobody carries return nothing.
#[test]
fn lookups_miss_unknown_ids() {
    let store = seed_store();
    assert!(store.team_by_id(9).is_none());
    assert!(store.employee_flat(9).is_none());
    assert!(store.employee_nested(9).is_none());
}

/// Team lookup returns exactly the seeded record.
#[test]
fn team_lookup_finds_seeded_team() {
    let store = seed_store();
    let team = store.team_by_id(2).unwrap();
    assert_eq!(
        team,
        Team {
            id: 2,
            name: String::from("West Coast Team"),
        }
    );
}
