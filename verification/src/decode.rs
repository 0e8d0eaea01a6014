//! Typed row decoders.
//!
//! Each record shape has an explicit, statically-typed decoder: a team
//! from two cells, a flat employee from three, a nested employee from a
//! four-cell joined row, the embedded team decoded by the same team
//! decoder starting at its column offset. Decoding is deterministic and
//! total: a well-formed row decodes to exactly the record its cells spell,
//! and a malformed row yields a `DecodeError` naming the leftmost
//! offending column with the expected and the actual shape.

use vstd::prelude::*;
use crate::errors::CellShape;
use crate::errors::ColumnType;
use crate::errors::DecodeError;
use crate::records::Employee;
use crate::records::EmployeeFlatView;
use crate::records::EmployeeView;
use crate::records::EmployeeWithTeamId;
use crate::records::Team;
use crate::records::TeamView;
use crate::row::Cell;
use crate::row::CellView;
use crate::row::Row;
use crate::row::shape_of;
use crate::row::spec_flat_cells;
use crate::row::spec_nested_cells;
use crate::row::spec_team_cells;

verus! {

/// Cells `start` and `start + 1` spell a team: an integer id, then a text
/// name.
pub open spec fn team_cells_ok(cs: Seq<CellView>, start: int) -> bool {
    &&& start + 2 <= cs.len()
    &&& cs[start] is Integer
    &&& cs[start + 1] is Text
}

/// The team that well-formed cells at `start` spell.
pub open spec fn spec_team_at(cs: Seq<CellView>, start: int) -> TeamView
    recommends
        team_cells_ok(cs, start),
{
    TeamView { id: cs[start]->Integer_0, name: cs[start + 1]->Text_0 }
}

/// The leftmost offence when the cells at `start` do not spell a team.
pub open spec fn team_decode_err(cs: Seq<CellView>, start: int) -> DecodeError
    recommends
        !team_cells_ok(cs, start),
{
    if cs.len() <= start {
        DecodeError { column: start as usize, expected: ColumnType::Integer, actual: CellShape::Missing }
    } else if !(cs[start] is Integer) {
        DecodeError { column: start as usize, expected: ColumnType::Integer, actual: shape_of(cs[start]) }
    } else if cs.len() <= start + 1 {
        DecodeError { column: (start + 1) as usize, expected: ColumnType::Text, actual: CellShape::Missing }
    } else {
        DecodeError { column: (start + 1) as usize, expected: ColumnType::Text, actual: shape_of(cs[start + 1]) }
    }
}

/// The shape of a cell, for error reports.
pub fn cell_shape(c: &Cell) -> (s: CellShape)
    ensures
        s == shape_of(c@),
{
    match c {
        Cell::Integer(_) => CellShape::Integer,
        Cell::Text(_) => CellShape::Text,
        Cell::Null => CellShape::Null,
    }
}

/// Decode the team spelled by the two cells at `start`: the embedded-team
/// entry point that the nested employee decoder reuses.
pub fn decode_team_at(row: &Row, start: usize) -> (r: Result<Team, DecodeError>)
    ensures
        match r {
            Ok(t) => team_cells_ok(row@, start as int) && t@ == spec_team_at(row@, start as int),
            Err(e) => !team_cells_ok(row@, start as int) && e == team_decode_err(
                row@,
                start as int,
            ),
        },
{
    if start >= row.cells.len() {
        return Err(
            DecodeError { column: start, expected: ColumnType::Integer, actual: CellShape::Missing },
        );
    }
    let id: u64 = match &row.cells[start] {
        Cell::Integer(v) => *v,
        c => {
            return Err(
                DecodeError { column: start, expected: ColumnType::Integer, actual: cell_shape(c) },
            );
        },
    };
    let name_col = start + 1;
    if name_col >= row.cells.len() {
        return Err(
            DecodeError { column: name_col, expected: ColumnType::Text, actual: CellShape::Missing },
        );
    }
    let name: String = match &row.cells[name_col] {
        Cell::Text(s) => s.clone(),
        c => {
            return Err(
                DecodeError { column: name_col, expected: ColumnType::Text, actual: cell_shape(c) },
            );
        },
    };
    Ok(Team { id, name })
}

/// Decode a team row: id, then name.
pub fn decode_team(row: &Row) -> (r: Result<Team, DecodeError>)
    ensures
        match r {
            Ok(t) => team_cells_ok(row@, 0) && t@ == spec_team_at(row@, 0),
            Err(e) => !team_cells_ok(row@, 0) && e == team_decode_err(row@, 0),
        },
{
    decode_team_at(row, 0)
}

/// A row spells a flat employee: integer id, text name, integer team id.
pub open spec fn flat_cells_ok(cs: Seq<CellView>) -> bool {
    &&& cs.len() >= 3
    &&& cs[0] is Integer
    &&& cs[1] is Text
    &&& cs[2] is Integer
}

/// The flat employee that a well-formed row spells.
pub open spec fn spec_employee_flat(cs: Seq<CellView>) -> EmployeeFlatView
    recommends
        flat_cells_ok(cs),
{
    EmployeeFlatView { id: cs[0]->Integer_0, name: cs[1]->Text_0, team: cs[2]->Integer_0 }
}

/// The leftmost offence when a row does not spell a flat employee.
pub open spec fn flat_decode_err(cs: Seq<CellView>) -> DecodeError
    recommends
        !flat_cells_ok(cs),
{
    if cs.len() <= 0 {
        DecodeError { column: 0, expected: ColumnType::Integer, actual: CellShape::Missing }
    } else if !(cs[0] is Integer) {
        DecodeError { column: 0, expected: ColumnType::Integer, actual: shape_of(cs[0]) }
    } else if cs.len() <= 1 {
        DecodeError { column: 1, expected: ColumnType::Text, actual: CellShape::Missing }
    } else if !(cs[1] is Text) {
        DecodeError { column: 1, expected: ColumnType::Text, actual: shape_of(cs[1]) }
    } else if cs.len() <= 2 {
        DecodeError { column: 2, expected: ColumnType::Integer, actual: CellShape::Missing }
    } else {
        DecodeError { column: 2, expected: ColumnType::Integer, actual: shape_of(cs[2]) }
    }
}

/// Decode a flat employee row: id, name, and the raw team id reference.
pub fn decode_employee_flat(row: &Row) -> (r: Result<EmployeeWithTeamId, DecodeError>)
    ensures
        match r {
            Ok(e) => flat_cells_ok(row@) && e@ == spec_employee_flat(row@),
            Err(err) => !flat_cells_ok(row@) && err == flat_decode_err(row@),
        },
{
    if row.cells.len() < 1 {
        return Err(
            DecodeError { column: 0, expected: ColumnType::Integer, actual: CellShape::Missing },
        );
    }
    let id: u64 = match &row.cells[0] {
        Cell::Integer(v) => *v,
        c => {
            return Err(
                DecodeError { column: 0, expected: ColumnType::Integer, actual: cell_shape(c) },
            );
        },
    };
    if row.cells.len() < 2 {
        return Err(
            DecodeError { column: 1, expected: ColumnType::Text, actual: CellShape::Missing },
        );
    }
    let name: String = match &row.cells[1] {
        Cell::Text(s) => s.clone(),
        c => {
            return Err(DecodeError { column: 1, expected: ColumnType::Text, actual: cell_shape(c) });
        },
    };
    if row.cells.len() < 3 {
        return Err(
            DecodeError { column: 2, expected: ColumnType::Integer, actual: CellShape::Missing },
        );
    }
    let team: u64 = match &row.cells[2] {
        Cell::Integer(v) => *v,
        c => {
            return Err(
                DecodeError { column: 2, expected: ColumnType::Integer, actual: cell_shape(c) },
            );
        },
    };
    Ok(EmployeeWithTeamId { id, name, team })
}

/// A joined row spells a nested employee: integer id, text name, then a
/// team at columns 2 and 3.
pub open spec fn nested_cells_ok(cs: Seq<CellView>) -> bool {
    &&& cs.len() >= 2
    &&& cs[0] is Integer
    &&& cs[1] is Text
    &&& team_cells_ok(cs, 2)
}

/// The nested employee that a well-formed joined row spells.
pub open spec fn spec_employee_nested(cs: Seq<CellView>) -> EmployeeView
    recommends
        nested_cells_ok(cs),
{
    EmployeeView { id: cs[0]->Integer_0, name: cs[1]->Text_0, team: spec_team_at(cs, 2) }
}

/// The leftmost offence when a joined row does not spell a nested employee.
pub open spec fn nested_decode_err(cs: Seq<CellView>) -> DecodeError
    recommends
        !nested_cells_ok(cs),
{
    if cs.len() <= 0 {
        DecodeError { column: 0, expected: ColumnType::Integer, actual: CellShape::Missing }
    } else if !(cs[0] is Integer) {
        DecodeError { column: 0, expected: ColumnType::Integer, actual: shape_of(cs[0]) }
    } else if cs.len() <= 1 {
        DecodeError { column: 1, expected: ColumnType::Text, actual: CellShape::Missing }
    } else if !(cs[1] is Text) {
        DecodeError { column: 1, expected: ColumnType::Text, actual: shape_of(cs[1]) }
    } else {
        team_decode_err(cs, 2)
    }
}

/// Decode a nested employee from a joined row, reusing the team decoder
/// for the embedded columns.
pub fn decode_employee_nested(row: &Row) -> (r: Result<Employee, DecodeError>)
    ensures
        match r {
            Ok(e) => nested_cells_ok(row@) && e@ == spec_employee_nested(row@),
            Err(err) => !nested_cells_ok(row@) && err == nested_decode_err(row@),
        },
{
    if row.cells.len() < 1 {
        return Err(
            DecodeError { column: 0, expected: ColumnType::Integer, actual: CellShape::Missing },
        );
    }
    let id: u64 = match &row.cells[0] {
        Cell::Integer(v) => *v,
        c => {
            return Err(
                DecodeError { column: 0, expected: ColumnType::Integer, actual: cell_shape(c) },
            );
        },
    };
    if row.cells.len() < 2 {
        return Err(
            DecodeError { column: 1, expected: ColumnType::Text, actual: CellShape::Missing },
        );
    }
    let name: String = match &row.cells[1] {
        Cell::Text(s) => s.clone(),
        c => {
            return Err(DecodeError { column: 1, expected: ColumnType::Text, actual: cell_shape(c) });
        },
    };
    let team: Team = match decode_team_at(row, 2) {
        Ok(t) => t,
        Err(e) => {
            return Err(e);
        },
    };
    Ok(Employee { id, name, team })
}

/// Round trip for teams: the row a team occupies is well formed and
/// decodes back to the same team.
pub proof fn lemma_team_round_trip(t: TeamView)
    ensures
        team_cells_ok(spec_team_cells(t), 0),
        spec_team_at(spec_team_cells(t), 0) == t,
{
    assert(spec_team_at(spec_team_cells(t), 0) =~= t);
}

/// Round trip for flat employees: the row a flat employee occupies is well
/// formed and decodes back to the same record.
pub proof fn lemma_flat_round_trip(e: EmployeeFlatView)
    ensures
        flat_cells_ok(spec_flat_cells(e)),
        spec_employee_flat(spec_flat_cells(e)) == e,
{
    assert(spec_employee_flat(spec_flat_cells(e)) =~= e);
}

/// Round trip for nested employees: the joined row an employee and its
/// team occupy is well formed and decodes back to the same nested record.
pub proof fn lemma_nested_round_trip(e: EmployeeFlatView, t: TeamView)
    ensures
        nested_cells_ok(spec_nested_cells(e, t)),
        spec_employee_nested(spec_nested_cells(e, t)) == (EmployeeView {
            id: e.id,
            name: e.name,
            team: t,
        }),
{
    assert(spec_employee_nested(spec_nested_cells(e, t)) =~= (EmployeeView {
        id: e.id,
        name: e.name,
        team: t,
    }));
}

} // verus!
