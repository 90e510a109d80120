//! The table behind the roster: what is read from it, what is written to
//! it, and how a row of it becomes a record.
//!
//! The table is `Creators(Id, Name, Email, Followers)`. Nothing here talks
//! to a database. A statement is a value, text and parameters, that the
//! caller runs; a row is a run of cells that the caller has read.

use vstd::prelude::*;
use crate::record::{Creator, CreatorView};

verus! {

/// A value of the store, as mathematics sees it.
pub enum SqlValueView {
    Null,
    Integer(int),
    Real,
    Text(Seq<char>),
    Blob,
}

/// A value that a cell of a row holds. Only integers and text matter to
/// a record: of a real number or a byte string just the kind is kept.
/// Text whose bytes are no UTF-8 is handed over as a byte string.
#[derive(Debug, PartialEq, Eq)]
pub enum SqlValue {
    Null,
    Integer(i64),
    Real,
    Text(String),
    Blob,
}

impl View for SqlValue {
    type V = SqlValueView;

    open spec fn view(&self) -> SqlValueView {
        match self {
            SqlValue::Null => SqlValueView::Null,
            SqlValue::Integer(i) => SqlValueView::Integer(*i as int),
            SqlValue::Real => SqlValueView::Real,
            SqlValue::Text(t) => SqlValueView::Text(t@),
            SqlValue::Blob => SqlValueView::Blob,
        }
    }
}

/// The views of a run of values, in order.
pub open spec fn value_views(values: Seq<SqlValue>) -> Seq<SqlValueView> {
    Seq::new(values.len(), |i: int| values[i]@)
}

/// A value that a statement carries for one of its placeholders.
#[derive(Debug, PartialEq, Eq)]
pub enum SqlParam {
    Integer(i64),
    Text(String),
}

impl View for SqlParam {
    type V = SqlValueView;

    open spec fn view(&self) -> SqlValueView {
        match self {
            SqlParam::Integer(i) => SqlValueView::Integer(*i as int),
            SqlParam::Text(t) => SqlValueView::Text(t@),
        }
    }
}

/// The views of a run of parameters, in order.
pub open spec fn param_views(params: Seq<SqlParam>) -> Seq<SqlValueView> {
    Seq::new(params.len(), |i: int| params[i]@)
}

/// A failure of the store, as mathematics sees it.
pub enum StorageErrorView {
    Connection(Seq<char>),
    Statement(Seq<char>),
    Decode { row: nat, column: nat },
}

/// Why the store could not be read or written.
#[derive(Debug, PartialEq, Eq)]
pub enum StorageError {
    /// The store could not be opened; the text is the driver's.
    Connection(String),
    /// A statement could not be prepared or run; the text is the driver's.
    Statement(String),
    /// A cell does not fit the record's field. `row` counts the rows read
    /// and `column` the cells of that row, both from zero.
    Decode { row: usize, column: usize },
}

impl View for StorageError {
    type V = StorageErrorView;

    open spec fn view(&self) -> StorageErrorView {
        match self {
            StorageError::Connection(m) => StorageErrorView::Connection(m@),
            StorageError::Statement(m) => StorageErrorView::Statement(m@),
            StorageError::Decode { row, column } => StorageErrorView::Decode {
                row: *row as nat,
                column: *column as nat,
            },
        }
    }
}

/// The three statements that the table is ever sent.
#[derive(Clone, Copy, PartialEq, Eq, Structural, Debug)]
pub enum StatementKind {
    SelectAll,
    Update,
    Insert,
}

/// The text of each statement. Parameters are positional.
pub open spec fn sql_text(kind: StatementKind) -> Seq<char> {
    match kind {
        StatementKind::SelectAll => "SELECT Id, Name, Email, Followers FROM Creators"@,
        StatementKind::Update =>
            "UPDATE Creators SET Name = ?, Email = ?, Followers = ? WHERE Id = ?"@,
        StatementKind::Insert =>
            "INSERT INTO Creators (Name, Email, Followers) VALUES (?, ?, ?)"@,
    }
}

/// A statement, as mathematics sees it.
pub struct StatementView {
    pub kind: StatementKind,
    pub params: Seq<SqlValueView>,
}

/// The statement that writes a record's name, address and follower count
/// into the row with the record's key.
pub open spec fn update_of(c: CreatorView) -> StatementView {
    StatementView {
        kind: StatementKind::Update,
        params: seq![
            SqlValueView::Text(c.name),
            SqlValueView::Text(c.email),
            SqlValueView::Integer(c.followers),
            SqlValueView::Integer(c.id),
        ],
    }
}

/// The statement that adds a row with a record's name, address and
/// follower count; the store makes the key.
pub open spec fn insert_of(c: CreatorView) -> StatementView {
    StatementView {
        kind: StatementKind::Insert,
        params: seq![
            SqlValueView::Text(c.name),
            SqlValueView::Text(c.email),
            SqlValueView::Integer(c.followers),
        ],
    }
}

/// The statement that reads every row, with the columns in the order of a
/// record's fields.
pub open spec fn select_all_view() -> StatementView {
    StatementView { kind: StatementKind::SelectAll, params: Seq::empty() }
}

/// A statement for the caller to run: which of the three it is, and the
/// values for its placeholders in order.
pub struct Statement {
    kind: StatementKind,
    params: Vec<SqlParam>,
}

impl View for Statement {
    type V = StatementView;

    closed spec fn view(&self) -> StatementView {
        StatementView { kind: self.kind, params: param_views(self.params@) }
    }
}

impl Statement {
    /// Reads every row of the table.
    pub fn select_all() -> (s: Statement)
        ensures
            s@ == select_all_view(),
    {
        let s = Statement { kind: StatementKind::SelectAll, params: Vec::new() };
        assert(s@.params =~= Seq::empty());
        s
    }

    /// Writes `record` into the row with its key.
    pub fn update(record: &Creator) -> (s: Statement)
        ensures
            s@ == update_of(record@),
    {
        let mut params: Vec<SqlParam> = Vec::new();
        params.push(SqlParam::Text(record.name().to_owned()));
        params.push(SqlParam::Text(record.email().to_owned()));
        params.push(SqlParam::Integer(record.followers() as i64));
        params.push(SqlParam::Integer(record.id() as i64));
        let s = Statement { kind: StatementKind::Update, params };
        assert(s@.params =~= update_of(record@).params);
        s
    }

    /// Adds `record` as a new row. The record's own key is not sent.
    pub fn insert(record: &Creator) -> (s: Statement)
        ensures
            s@ == insert_of(record@),
    {
        let mut params: Vec<SqlParam> = Vec::new();
        params.push(SqlParam::Text(record.name().to_owned()));
        params.push(SqlParam::Text(record.email().to_owned()));
        params.push(SqlParam::Integer(record.followers() as i64));
        let s = Statement { kind: StatementKind::Insert, params };
        assert(s@.params =~= insert_of(record@).params);
        s
    }

    /// Which of the three statements this is.
    pub fn kind(&self) -> (k: StatementKind)
        ensures
            k == self@.kind,
    {
        self.kind
    }

    /// The statement's text, with one `?` for each parameter.
    pub fn sql(&self) -> (text: &'static str)
        ensures
            text@ == sql_text(self@.kind),
    {
        match self.kind {
            StatementKind::SelectAll => "SELECT Id, Name, Email, Followers FROM Creators",
            StatementKind::Update =>
                "UPDATE Creators SET Name = ?, Email = ?, Followers = ? WHERE Id = ?",
            StatementKind::Insert =>
                "INSERT INTO Creators (Name, Email, Followers) VALUES (?, ?, ?)",
        }
    }

    /// The values for the placeholders, first placeholder first.
    pub fn params(&self) -> (p: &Vec<SqlParam>)
        ensures
            param_views(p@) == self@.params,
    {
        &self.params
    }
}

} // verus!
