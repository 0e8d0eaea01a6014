use team_fixture::Employee;
use team_fixture::EmployeeWithTeamId;
use team_fixture::LocationGen;
use team_fixture::StoreLocation;
use team_fixture::Team;
use team_fixture::provision;
use team_fixture::provision_random;
use team_fixture::seed_store;

/// Provisioning succeeds and hands back a seeded fixture.
#[test]
fn create_test_db() {
    let mut gen = LocationGen::new();
    let fixture = provision(&mut gen);
    assert_eq!(fixture.location, StoreLocation::File { token: 0 });
    assert_eq!(fixture.store.teams.len(), 2);
    assert_eq!(fixture.store.employees.len(), 2);
}

/// Querying employee 1 in the flat shape yields the raw team id reference.
#[test]
fn get_employee_with_team_id() {
    let store = seed_store();
    let employee = store.employee_flat(1).unwrap();
    let expected_employee = EmployeeWithTeamId {
        id: 1,
        name: String::from("Boston Alice"),
        team: 1,
    };
    assert_eq!(employee, expected_employee);
}

/// Querying employee 1 in the nested shape yields the embedded team.
#[test]
fn get_employee() {
    let store = seed_store();
    let employee = store.employee_nested(1).unwrap();
    let expected_team = Team {
        id: 1,
        name: String::from("East Coast Team"),
    };
    let expected_employee = Employee {
        id: 1,
        name: String::from("Boston Alice"),
        team: expected_team,
    };
    assert_eq!(employee, expected_employee);
}

/// The stateless provisioner seeds the same pinned content and lands on
/// a file location.
#[test]
fn provision_random_seeds_and_names_a_file() {
    let fixture = provision_random();
    assert!(matches!(fixture.location, StoreLocation::File { .. }));
    assert_eq!(fixture.store.teams.len(), 2);
    assert_eq!(fixture.store.employees.len(), 2);
    assert_eq!(fixture.store.employee_nested(1).unwrap().team.name, "East Coast Team");
}

/// Every invocation seeds exactly 2 teams and 2 employees.
#[test]
fn provisioning_seeds_exactly_two_of_each() {
    let mut gen = LocationGen::new();
    for _ in 0..3 {
        let fixture = provision(&mut gen);
        assert_eq!(fixture.store.teams.len(), 2);
        assert_eq!(fixture.store.employees.len(), 2);
        assert_eq!(fixture.store.teams[0].id, 1);
        assert_eq!(fixture.store.teams[0].name, "East Coast Team");
        assert_eq!(fixture.store.teams[1].id, 2);
        assert_eq!(fixture.store.teams[1].name, "West Coast Team");
        assert_eq!(fixture.store.employees[0].id, 1);
        assert_eq!(fixture.store.employees[0].name, "Boston Alice");
        assert_eq!(fixture.store.employees[0].team, 1);
        assert_eq!(fixture.store.employees[1].id, 2);
        assert_eq!(fixture.store.employees[1].name, "Seattle Bob");
        assert_eq!(fixture.store.employees[1].team, 2);
    }
}

/// Each invocation yields an independent store: changing one leaves the
/// other untouched.
#[test]
fn provisioning_yields_independent_stores() {
    let mut first = seed_store();
    let second = seed_store();
    let r = first.insert_team(Team {
        id: 3,
        name: String::from("Gulf Coast Team"),
    });
    assert!(r.is_ok());
    assert_eq!(first.teams.len(), 3);
    assert_eq!(second.teams.len(), 2);
}

/// Ten provisioning calls in sequence never collide on storage location.
#[test]
fn repeated_provisioning_never_collides() {
    let mut gen = LocationGen::new();
    let mut locations: Vec<StoreLocation> = Vec::new();
    for _ in 0..10 {
        locations.push(provision(&mut gen).location);
    }
    for i in 0..locations.len() {
        for j in 0..locations.len() {
            if i != j {
                assert_ne!(locations[i], locations[j]);
            }
        }
    }
}

/// The example scenario: employee 1 queried in both shapes.
#[test]
fn example_scenario_both_shapes() {
    let store = seed_store();
    let flat = store.employee_flat(1).unwrap();
    assert_eq!(
        flat,
        EmployeeWithTeamId {
            id: 1,
            name: String::from("Boston Alice"),
            team: 1,
        }
    );
    let nested = store.employee_nested(1).unwrap();
    assert_eq!(
        nested,
        Employee {
            id: 1,
            name: String::from("Boston Alice"),
            team: Team {
                id: 1,
                name: String::from("East Coast Team"),
            },
        }
    );
}

/// Nested decoding resolves team 1 to "East Coast Team" and team 2 to
/// "West Coast Team".
#[test]
fn nested_team_names() {
    let store = seed_store();
    assert_eq!(store.employee_nested(1).unwrap().team.name, "East Coast Team");
    assert_eq!(store.employee_nested(2).unwrap().team.name, "West Coast Team");
}

/// Flat resolution plus a team lookup agrees with the nested shape for
/// every seeded employee.
#[test]
fn flat_and_nested_agree_for_all_seeded() {
    let store = seed_store();
    let ids: Vec<u64> = store.employees.iter().map(|e| e.id).collect();
    for id in ids {
        let flat = store.employee_flat(id).unwrap();
        let looked_up = store.team_by_id(flat.team).unwrap();
        let nested = store.employee_nested(id).unwrap();
        assert_eq!(looked_up.name, nested.team.name);
        assert_eq!(looked_up, nested.team);
    }
}
