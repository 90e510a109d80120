//! What the statements do to the table, and what a load then reads.
//!
//! This is a model: the table as a run of rows, an update as the rule
//! "every row with this key takes these values". It ties the order of a
//! statement's parameters to the order of the columns that a load reads,
//! and says what a save pass leaves in the table when it ends early.

use vstd::prelude::*;
use crate::load::{bad_column, record_of};
use crate::record::CreatorView;
use crate::save::SavePassView;
use crate::store::{update_of, SqlValueView, StatementKind, StatementView};

verus! {

/// A row as the table keeps it.
pub struct StoredRow {
    pub id: int,
    pub name: Seq<char>,
    pub email: Seq<char>,
    pub followers: int,
}

/// What the table keeps of a record: everything but the mark.
pub open spec fn stored(c: CreatorView) -> StoredRow {
    StoredRow { id: c.id, name: c.name, email: c.email, followers: c.followers }
}

/// The cells that reading every row yields for one row, in column order.
pub open spec fn cells_of(row: StoredRow) -> Seq<SqlValueView> {
    seq![
        SqlValueView::Integer(row.id),
        SqlValueView::Text(row.name),
        SqlValueView::Text(row.email),
        SqlValueView::Integer(row.followers),
    ]
}

/// The table after an update statement: every row whose key is the
/// statement's last parameter takes the first three as name, address and
/// follower count. Any other statement leaves this model's table alone.
pub open spec fn after_statement(table: Seq<StoredRow>, s: StatementView) -> Seq<StoredRow> {
    if s.kind == StatementKind::Update && s.params.len() == 4 {
        match (s.params[0], s.params[1], s.params[2], s.params[3]) {
            (
                SqlValueView::Text(name),
                SqlValueView::Text(email),
                SqlValueView::Integer(followers),
                SqlValueView::Integer(id),
            ) => Seq::new(
                table.len(),
                |i: int|
                    if table[i].id == id {
                        StoredRow { id, name, email, followers }
                    } else {
                        table[i]
                    },
            ),
            _ => table,
        }
    } else {
        table
    }
}

/// The table after the update statements of `records`, first record
/// first.
pub open spec fn after_updates(table: Seq<StoredRow>, records: Seq<CreatorView>) -> Seq<
    StoredRow,
>
    decreases records.len(),
{
    if records.len() == 0 {
        table
    } else {
        after_statement(after_updates(table, records.drop_last()), update_of(records.last()))
    }
}

/// The table that a save pass leaves behind: the statements of the
/// records written so far have run, and no other.
pub open spec fn after_pass(table: Seq<StoredRow>, pass: SavePassView) -> Seq<StoredRow> {
    after_updates(table, pass.records.take(pass.written as int))
}

/// No two rows share a key.
pub open spec fn keys_unique(table: Seq<StoredRow>) -> bool {
    forall|i: int, j: int|
        0 <= i < table.len() && 0 <= j < table.len() && i != j ==> (#[trigger] table[i]).id != (
        #[trigger] table[j]).id
}

/// The roster was loaded from the table and has kept its rows: as many
/// records as rows, and at each position the row's key.
pub open spec fn rows_match(table: Seq<StoredRow>, records: Seq<CreatorView>) -> bool {
    &&& records.len() == table.len()
    &&& forall|i: int| 0 <= i < table.len() ==> (#[trigger] records[i]).id == table[i].id
}

/// After the statements of the first `k` records, the first `k` rows hold
/// what those records hold and every later row is as it was.
pub proof fn lemma_rows_after_updates(
    table: Seq<StoredRow>,
    records: Seq<CreatorView>,
    k: int,
)
    requires
        keys_unique(table),
        rows_match(table, records),
        0 <= k <= records.len(),
    ensures
        after_updates(table, records.take(k)).len() == table.len(),
        forall|i: int|
            0 <= i < k ==> #[trigger] after_updates(table, records.take(k))[i] == stored(
                records[i],
            ),
        forall|i: int|
            k <= i < table.len() ==> #[trigger] after_updates(table, records.take(k))[i]
                == table[i],
    decreases k,
{
    if k > 0 {
        lemma_rows_after_updates(table, records, k - 1);
        assert(records.take(k).drop_last() =~= records.take(k - 1));
        let before = after_updates(table, records.take(k - 1));
        let after = after_updates(table, records.take(k));
        assert(after == after_statement(before, update_of(records[k - 1])));
        assert forall|i: int| 0 <= i < table.len() implies before[i].id == table[i].id by {
            if i < k - 1 {
                assert(before[i] == stored(records[i]));
            }
        }
        assert forall|i: int| 0 <= i < table.len() && i != k - 1 implies #[trigger] after[i]
            == before[i] by {
            assert(table[i].id != table[k - 1].id);
        }
    }
}

/// A pass that a failure ends after `written` records leaves those
/// records in the table and every later row as it was: the pass is no
/// transaction.
pub proof fn lemma_pass_leaves_written_rows(table: Seq<StoredRow>, pass: SavePassView)
    requires
        keys_unique(table),
        rows_match(table, pass.records),
        pass.wf(),
    ensures
        after_pass(table, pass).len() == table.len(),
        forall|i: int|
            0 <= i < pass.written ==> #[trigger] after_pass(table, pass)[i] == stored(
                pass.records[i],
            ),
        forall|i: int|
            pass.written <= i < table.len() ==> #[trigger] after_pass(table, pass)[i]
                == table[i],
{
    lemma_rows_after_updates(table, pass.records, pass.written as int);
}

/// A pass that writes every record makes the table hold the roster: a
/// load that follows reads each record back as it was saved, unmarked.
pub proof fn lemma_saved_roster_reads_back(table: Seq<StoredRow>, records: Seq<CreatorView>)
    requires
        keys_unique(table),
        rows_match(table, records),
        forall|i: int| 0 <= i < records.len() ==> (#[trigger] records[i]).wf(),
    ensures
        after_updates(table, records).len() == records.len(),
        forall|i: int|
            0 <= i < records.len() ==> {
                let cells = cells_of(#[trigger] after_updates(table, records)[i]);
                &&& bad_column(cells) is None
                &&& record_of(cells) == records[i].with_selected(false)
            },
{
    lemma_rows_after_updates(table, records, records.len() as int);
    assert(records.take(records.len() as int) =~= records);
    assert forall|i: int| 0 <= i < records.len() implies {
        let cells = cells_of(#[trigger] after_updates(table, records)[i]);
        &&& bad_column(cells) is None
        &&& record_of(cells) == records[i].with_selected(false)
    } by {
        assert(records[i].wf());
        assert(after_updates(table, records)[i] == stored(records[i]));
    }
}

/// Saving a roster that was not edited since its load changes nothing in
/// the table.
pub proof fn lemma_unedited_save_changes_nothing(
    table: Seq<StoredRow>,
    records: Seq<CreatorView>,
)
    requires
        keys_unique(table),
        records.len() == table.len(),
        forall|i: int| 0 <= i < table.len() ==> stored(#[trigger] records[i]) == table[i],
    ensures
        after_updates(table, records) == table,
{
    assert forall|i: int| 0 <= i < table.len() implies (#[trigger] records[i]).id
        == table[i].id by {
        assert(stored(records[i]) == table[i]);
    }
    lemma_rows_after_updates(table, records, records.len() as int);
    assert(records.take(records.len() as int) =~= records);
}

} // verus!
