//! Result rows as plain values.
//!
//! A row is the positional sequence of cells a query returns: an integer,
//! a text, or a null. Decoders read rows into typed records; encoders
//! build the row a well-formed record would come back as, which is how the
//! decoders' round trips are stated and tested.

use vstd::prelude::*;
use crate::errors::CellShape;
use crate::records::EmployeeWithTeamId;
use crate::records::Team;

verus! {

/// One column value of a result row.
#[derive(Debug, Clone, PartialEq, Eq)]
pub enum Cell {
    Integer(u64),
    Text(String),
    Null,
}

/// The mathematical view of a `Cell`.
pub enum CellView {
    Integer(int),
    Text(Seq<char>),
    Null,
}

impl View for Cell {
    type V = CellView;

    open spec fn view(&self) -> CellView {
        match self {
            Cell::Integer(v) => CellView::Integer(*v as int),
            Cell::Text(s) => CellView::Text(s@),
            Cell::Null => CellView::Null,
        }
    }
}

/// The shape of a cell, as reported in decoding errors.
pub open spec fn shape_of(c: CellView) -> CellShape {
    match c {
        CellView::Integer(_) => CellShape::Integer,
        CellView::Text(_) => CellShape::Text,
        CellView::Null => CellShape::Null,
    }
}

/// A result row: its cells in column order.
#[derive(Debug, Clone, PartialEq, Eq)]
pub struct Row {
    pub cells: Vec<Cell>,
}

impl View for Row {
    type V = Seq<CellView>;

    open spec fn view(&self) -> Seq<CellView> {
        Seq::new(self.cells@.len(), |i: int| self.cells@[i]@)
    }
}

/// The row a team record occupies: its id, then its name.
pub open spec fn spec_team_cells(t: crate::records::TeamView) -> Seq<CellView> {
    seq![CellView::Integer(t.id), CellView::Text(t.name)]
}

/// The row a flat employee record occupies: id, name, then the team id.
pub open spec fn spec_flat_cells(e: crate::records::EmployeeFlatView) -> Seq<CellView> {
    seq![CellView::Integer(e.id), CellView::Text(e.name), CellView::Integer(e.team)]
}

/// The joined row an employee and its team occupy: the employee's id and
/// name, then the team's id and name.
pub open spec fn spec_nested_cells(
    e: crate::records::EmployeeFlatView,
    t: crate::records::TeamView,
) -> Seq<CellView> {
    seq![
        CellView::Integer(e.id),
        CellView::Text(e.name),
        CellView::Integer(t.id),
        CellView::Text(t.name),
    ]
}

/// Build the row a team record comes back as.
pub fn team_row(t: &Team) -> (r: Row)
    ensures
        r@ =~= spec_team_cells(t@),
{
    let mut cells: Vec<Cell> = Vec::new();
    cells.push(Cell::Integer(t.id));
    cells.push(Cell::Text(t.name.clone()));
    Row { cells }
}

/// Build the row a flat employee record comes back as.
pub fn employee_flat_row(e: &EmployeeWithTeamId) -> (r: Row)
    ensures
        r@ =~= spec_flat_cells(e@),
{
    let mut cells: Vec<Cell> = Vec::new();
    cells.push(Cell::Integer(e.id));
    cells.push(Cell::Text(e.name.clone()));
    cells.push(Cell::Integer(e.team));
    Row { cells }
}

/// Build the joined row an employee and its team come back as.
pub fn employee_nested_row(e: &EmployeeWithTeamId, t: &Team) -> (r: Row)
    ensures
        r@ =~= spec_nested_cells(e@, t@),
{
    let mut cells: Vec<Cell> = Vec::new();
    cells.push(Cell::Integer(e.id));
    cells.push(Cell::Text(e.name.clone()));
    cells.push(Cell::Integer(t.id));
    cells.push(Cell::Text(t.name.clone()));
    Row { cells }
}

} // verus!
