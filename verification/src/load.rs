//! From rows of the table to records.
//!
//! A row is read cell by cell, in the order key, name, address, follower
//! count. A cell fits its field only if it already has the field's kind:
//! an integer in range for key and count, text for name and address.
//! Nothing is converted, and one cell that does not fit fails the load.
//!
//! The caller does the reading and says what it got: the rows, or the
//! driver's text where the store did not open or refused the query.

use vstd::prelude::*;
use crate::count::MAX_FOLLOWERS;
use crate::record::{all_wf, views, Creator, CreatorView};
use crate::store::{value_views, SqlValue, SqlValueView, StorageError, StorageErrorView};

verus! {

/// What the caller got when it read the table.
pub enum ReadOutcome {
    /// The store could not be opened; the text is the driver's.
    Unopened(String),
    /// The query could not be prepared or run; the text is the driver's.
    QueryFailed(String),
    /// Every row, in the order in which the store gave them.
    Rows(Vec<Vec<SqlValue>>),
}

/// The cell at `column`; a row that is too short reads as null there.
pub open spec fn cell_at(cells: Seq<SqlValueView>, column: int) -> SqlValueView {
    if 0 <= column < cells.len() {
        cells[column]
    } else {
        SqlValueView::Null
    }
}

/// The integer of a cell, where the cell holds one between `low` and
/// `high`.
pub open spec fn integer_between(v: SqlValueView, low: int, high: int) -> Option<int> {
    match v {
        SqlValueView::Integer(i) => if low <= i <= high {
            Some(i)
        } else {
            None
        },
        _ => None,
    }
}

/// The text of a cell, where the cell holds text.
pub open spec fn text_of(v: SqlValueView) -> Option<Seq<char>> {
    match v {
        SqlValueView::Text(t) => Some(t),
        _ => None,
    }
}

/// The key of a row, where its first cell holds a 32-bit integer.
pub open spec fn key_of(cells: Seq<SqlValueView>) -> Option<int> {
    integer_between(cell_at(cells, 0), -2_147_483_648, 2_147_483_647)
}

/// The name of a row, where its second cell holds text.
pub open spec fn name_of(cells: Seq<SqlValueView>) -> Option<Seq<char>> {
    text_of(cell_at(cells, 1))
}

/// The address of a row, where its third cell holds text.
pub open spec fn email_of(cells: Seq<SqlValueView>) -> Option<Seq<char>> {
    text_of(cell_at(cells, 2))
}

/// The follower count of a row, where its fourth cell holds an integer
/// that a record can hold. A stored count below zero fits no record.
pub open spec fn followers_of(cells: Seq<SqlValueView>) -> Option<int> {
    integer_between(cell_at(cells, 3), 0, MAX_FOLLOWERS as int)
}

/// The first column whose cell does not fit its field, if there is one.
pub open spec fn bad_column(cells: Seq<SqlValueView>) -> Option<nat> {
    if key_of(cells) is None {
        Some(0)
    } else if name_of(cells) is None {
        Some(1)
    } else if email_of(cells) is None {
        Some(2)
    } else if followers_of(cells) is None {
        Some(3)
    } else {
        None
    }
}

/// The record that a row with four fitting cells stands for. It is not
/// marked.
pub open spec fn record_of(cells: Seq<SqlValueView>) -> CreatorView
    recommends
        bad_column(cells) is None,
{
    CreatorView {
        id: key_of(cells)->0,
        name: name_of(cells)->0,
        email: email_of(cells)->0,
        followers: followers_of(cells)->0,
        selected: false,
    }
}

/// The views of a run of rows, in order.
pub open spec fn row_views(rows: Seq<Vec<SqlValue>>) -> Seq<Seq<SqlValueView>> {
    Seq::new(rows.len(), |i: int| value_views(rows[i]@))
}

/// The records that a run of fitting rows stands for, in the rows' order.
pub open spec fn records_of(rows: Seq<Seq<SqlValueView>>) -> Seq<CreatorView> {
    Seq::new(rows.len(), |i: int| record_of(rows[i]))
}

fn integer_cell(cells: &Vec<SqlValue>, column: usize, low: i64, high: i64) -> (r: Option<i64>)
    ensures
        r is Some <==> integer_between(
            cell_at(value_views(cells@), column as int),
            low as int,
            high as int,
        ) is Some,
        r matches Some(i) ==> integer_between(
            cell_at(value_views(cells@), column as int),
            low as int,
            high as int,
        ) == Some(i as int),
{
    if column >= cells.len() {
        return None;
    }
    match &cells[column] {
        SqlValue::Integer(i) => {
            if low <= *i && *i <= high {
                Some(*i)
            } else {
                None
            }
        },
        _ => None,
    }
}

fn text_cell(cells: &Vec<SqlValue>, column: usize) -> (r: Option<String>)
    ensures
        r is Some <==> text_of(cell_at(value_views(cells@), column as int)) is Some,
        r matches Some(t) ==> text_of(cell_at(value_views(cells@), column as int)) == Some(t@),
{
    if column >= cells.len() {
        return None;
    }
    match &cells[column] {
        SqlValue::Text(t) => Some(t.clone()),
        _ => None,
    }
}

/// Builds the record that a row stands for, or names the first column
/// whose cell does not fit. Cells after the fourth are not looked at.
pub fn decode_row(cells: &Vec<SqlValue>) -> (r: Result<Creator, usize>)
    ensures
        match r {
            Ok(c) => bad_column(value_views(cells@)) is None && c@ == record_of(
                value_views(cells@),
            ) && c.wf(),
            Err(column) => bad_column(value_views(cells@)) == Some(column as nat),
        },
{
    let id = match integer_cell(cells, 0, -2_147_483_648, 2_147_483_647) {
        Some(i) => i as i32,
        None => {
            return Err(0);
        },
    };
    let name = match text_cell(cells, 1) {
        Some(t) => t,
        None => {
            return Err(1);
        },
    };
    let email = match text_cell(cells, 2) {
        Some(t) => t,
        None => {
            return Err(2);
        },
    };
    let followers = match integer_cell(cells, 3, 0, MAX_FOLLOWERS as i64) {
        Some(i) => i as i32,
        None => {
            return Err(3);
        },
    };
    Ok(Creator::unmarked(id, name, email, followers))
}

/// Builds the records that the rows stand for, in the rows' order.
///
/// Succeeds exactly when every cell of every row fits. Otherwise the
/// whole load fails, with the first row that holds a cell that does not
/// fit and the first such column of that row.
pub fn decode_rows(rows: &Vec<Vec<SqlValue>>) -> (r: Result<Vec<Creator>, StorageError>)
    ensures
        match r {
            Ok(records) => {
                &&& forall|i: int|
                    0 <= i < rows@.len() ==> bad_column(#[trigger] row_views(rows@)[i]) is None
                &&& views(records@) == records_of(row_views(rows@))
                &&& all_wf(records@)
            },
            Err(e) => {
                &&& e@ matches StorageErrorView::Decode { row, column }
                &&& row < rows@.len()
                &&& bad_column(row_views(rows@)[row as int]) == Some(column)
                &&& forall|i: int| 0 <= i < row ==> bad_column(#[trigger] row_views(rows@)[i]) is None
            },
        },
{
    let mut records: Vec<Creator> = Vec::new();
    let mut i: usize = 0;
    while i < rows.len()
        invariant
            0 <= i <= rows@.len(),
            records@.len() == i,
            forall|j: int| 0 <= j < i ==> bad_column(#[trigger] row_views(rows@)[j]) is None,
            forall|j: int|
                0 <= j < i ==> (#[trigger] records@[j])@ == record_of(row_views(rows@)[j]),
            all_wf(records@),
        decreases rows@.len() - i,
    {
        match decode_row(&rows[i]) {
            Ok(record) => {
                records.push(record);
            },
            Err(column) => {
                return Err(StorageError::Decode { row: i, column });
            },
        }
        i = i + 1;
    }
    Ok(records)
}

} // verus!
