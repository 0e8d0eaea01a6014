//! A disposable relational test fixture: two related tables (teams and
//! employees) with fixed seed rows, modelled as verified in-memory data,
//! together with typed row decoders and a collision-free generator of
//! storage locations.

mod decode;
mod errors;
mod fixture;
mod location;
mod records;
mod row;
mod store;

pub use decode::cell_shape;
pub use decode::decode_employee_flat;
pub use decode::decode_employee_nested;
pub use decode::decode_team;
pub use decode::decode_team_at;
pub use decode::flat_cells_ok;
pub use decode::flat_decode_err;
pub use decode::lemma_flat_round_trip;
pub use decode::lemma_nested_round_trip;
pub use decode::lemma_team_round_trip;
pub use decode::nested_cells_ok;
pub use decode::nested_decode_err;
pub use decode::spec_employee_flat;
pub use decode::spec_employee_nested;
pub use decode::spec_team_at;
pub use decode::team_cells_ok;
pub use decode::team_decode_err;
pub use errors::CellShape;
pub use errors::ColumnType;
pub use errors::DecodeError;
pub use errors::FixtureError;
pub use errors::SeedError;
pub use fixture::Fixture;
pub use fixture::provision;
pub use fixture::provision_random;
pub use fixture::seed_employees;
pub use fixture::seed_store;
pub use fixture::seed_teams;
pub use location::LocationGen;
pub use location::StoreLocation;
pub use location::issued_tokens;
pub use location::lemma_issued_tokens_distinct;
pub use location::random_location;
pub use records::Employee;
pub use records::EmployeeFlatView;
pub use records::EmployeeView;
pub use records::EmployeeWithTeamId;
pub use records::Team;
pub use records::TeamId;
pub use records::TeamView;
pub use row::Cell;
pub use row::CellView;
pub use row::Row;
pub use row::employee_flat_row;
pub use row::employee_nested_row;
pub use row::shape_of;
pub use row::spec_flat_cells;
pub use row::spec_nested_cells;
pub use row::spec_team_cells;
pub use row::team_row;
pub use store::Store;
pub use store::StoreView;
pub use store::employee_with_id;
pub use store::employees_reference_teams;
pub use store::employees_unique;
pub use store::has_employee;
pub use store::has_team;
pub use store::lemma_flat_lookup_matches_nested;
pub use store::team_with_id;
pub use store::teams_unique;
