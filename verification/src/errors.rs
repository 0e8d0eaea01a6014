//! The error taxonomy of the fixture.
//!
//! Every failure surfaces as a distinguishable, inspectable value: a
//! provisioning failure (store unreachable, schema rejected, seed insert
//! refused) or a decoding failure naming the offending column with the
//! expected and the actual shape. Nothing is silently coerced or ignored.

use vstd::prelude::*;
use crate::records::TeamId;

verus! {

/// The column type a decoder expected at some position.
#[derive(Debug, Clone, Copy, PartialEq, Eq, Structural)]
pub enum ColumnType {
    Integer,
    Text,
}

/// The shape a decoder actually found at some position: a value of either
/// type, a null, or no column at all.
#[derive(Debug, Clone, Copy, PartialEq, Eq, Structural)]
pub enum CellShape {
    Integer,
    Text,
    Null,
    Missing,
}

/// A row did not match the target record shape: the column at `column`
/// (leftmost offending position) held `actual` where `expected` was needed.
#[derive(Debug, Clone, Copy, PartialEq, Eq, Structural)]
pub struct DecodeError {
    pub column: usize,
    pub expected: ColumnType,
    pub actual: CellShape,
}

/// A seed insert was refused by the store's integrity rules: a duplicate
/// primary key, or an employee referencing a team id that does not exist.
#[derive(Debug, Clone, Copy, PartialEq, Eq, Structural)]
pub enum SeedError {
    DuplicateTeam(TeamId),
    DuplicateEmployee(u64),
    UnknownTeam(TeamId),
}

/// Any failure of the fixture, for callers that drive a real store:
/// connecting, applying the schema, seeding, or decoding a result row.
#[derive(Debug, Clone, Copy, PartialEq, Eq, Structural)]
pub enum FixtureError {
    Connection,
    Schema,
    Seed(SeedError),
    Decode(DecodeError),
}

} // verus!
