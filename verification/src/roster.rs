//! The roster: the records of one session, edited by row position.
//!
//! The roster is loaded once and then keeps its rows where they are:
//! nothing is added, removed or moved, so a position names the same
//! record for the whole session. Every change comes in as a message that
//! names a row. A message for a row that does not exist changes nothing.

use vstd::prelude::*;
use crate::count::{count_or_zero, decimal_value, is_count_text, parse_or_zero, unsigned_part};
use crate::load::{bad_column, decode_rows, records_of, row_views, ReadOutcome};
use crate::record::{all_wf, views, Creator, CreatorView};
use crate::save::{SavePass, SavePassView};
use crate::store::{update_of, StorageError, StorageErrorView};

verus! {

/// What the user did.
#[derive(Debug)]
pub enum Message {
    /// The name field of a row now reads this.
    NameChanged(usize, String),
    /// The address field of a row now reads this.
    EmailChanged(usize, String),
    /// The follower field of a row now reads this.
    FollowersChanged(usize, String),
    /// A row was marked or unmarked.
    CreatorSelected(usize, bool),
    /// A row was asked to go. The roster keeps its rows, so this changes
    /// nothing.
    DeleteCreator(usize),
    /// The roster is to be written to the store.
    Save,
}

impl Clone for Message {
    fn clone(&self) -> (copy: Message)
        ensures
            copy == *self,
    {
        match self {
            Message::NameChanged(row, name) => Message::NameChanged(*row, name.clone()),
            Message::EmailChanged(row, email) => Message::EmailChanged(*row, email.clone()),
            Message::FollowersChanged(row, text) => Message::FollowersChanged(*row, text.clone()),
            Message::CreatorSelected(row, selected) => Message::CreatorSelected(*row, *selected),
            Message::DeleteCreator(row) => Message::DeleteCreator(*row),
            Message::Save => Message::Save,
        }
    }
}

/// What the caller owes once a message is applied.
#[derive(Clone, Copy, PartialEq, Eq, Structural, Debug)]
pub enum Effect {
    /// Nothing but to draw the roster again.
    Redraw,
    /// A save pass over the roster as it now stands.
    Save,
}

/// The roster with the name of `row` replaced; unchanged if there is no
/// such row.
pub open spec fn edit_name(records: Seq<CreatorView>, row: int, name: Seq<char>) -> Seq<
    CreatorView,
> {
    if 0 <= row < records.len() {
        records.update(row, records[row].with_name(name))
    } else {
        records
    }
}

/// The roster with the address of `row` replaced; unchanged if there is
/// no such row.
pub open spec fn edit_email(records: Seq<CreatorView>, row: int, email: Seq<char>) -> Seq<
    CreatorView,
> {
    if 0 <= row < records.len() {
        records.update(row, records[row].with_email(email))
    } else {
        records
    }
}

/// The roster with the follower count of `row` replaced by what `text`
/// stands for, or by zero if it stands for no count; unchanged if there
/// is no such row.
pub open spec fn edit_followers(records: Seq<CreatorView>, row: int, text: Seq<char>) -> Seq<
    CreatorView,
> {
    if 0 <= row < records.len() {
        records.update(row, records[row].with_followers(count_or_zero(text)))
    } else {
        records
    }
}

/// The roster with `row` marked or unmarked; unchanged if there is no
/// such row.
pub open spec fn edit_selected(records: Seq<CreatorView>, row: int, selected: bool) -> Seq<
    CreatorView,
> {
    if 0 <= row < records.len() {
        records.update(row, records[row].with_selected(selected))
    } else {
        records
    }
}

/// The roster after a message.
pub open spec fn applied(records: Seq<CreatorView>, message: Message) -> Seq<CreatorView> {
    match message {
        Message::NameChanged(row, name) => edit_name(records, row as int, name@),
        Message::EmailChanged(row, email) => edit_email(records, row as int, email@),
        Message::FollowersChanged(row, text) => edit_followers(records, row as int, text@),
        Message::CreatorSelected(row, selected) => edit_selected(records, row as int, selected),
        Message::DeleteCreator(_) => records,
        Message::Save => records,
    }
}

/// What a message leaves for the caller to do.
pub open spec fn effect_of(message: Message) -> Effect {
    match message {
        Message::Save => Effect::Save,
        _ => Effect::Redraw,
    }
}

/// Whether every record of a roster is well-formed.
pub open spec fn roster_wf(records: Seq<CreatorView>) -> bool {
    forall|i: int| 0 <= i < records.len() ==> (#[trigger] records[i]).wf()
}

/// The records of one session, in the order in which they were loaded.
pub struct MyApp {
    creators: Vec<Creator>,
}

impl View for MyApp {
    type V = Seq<CreatorView>;

    closed spec fn view(&self) -> Seq<CreatorView> {
        views(self.creators@)
    }
}

impl MyApp {
    /// Well-formed: every record is.
    pub open spec fn wf(&self) -> bool {
        roster_wf(self@)
    }

    /// A roster of the given records, in the given order.
    pub fn new(creators: Vec<Creator>) -> (app: MyApp)
        requires
            all_wf(creators@),
        ensures
            app.wf(),
            app@ == views(creators@),
    {
        MyApp { creators }
    }

    /// The roster that a read of the table gives: the records that the
    /// rows stand for, in the rows' order and with no row marked.
    ///
    /// There is a roster only of a whole table. A store that did not
    /// open, a query that was refused, or one cell that does not fit its
    /// field fails the load, each with its own error; the rows that did
    /// fit are then not kept.
    pub fn load(outcome: ReadOutcome) -> (r: Result<MyApp, StorageError>)
        ensures
            match outcome {
                ReadOutcome::Unopened(text) => r matches Err(e) && e@
                    == StorageErrorView::Connection(text@),
                ReadOutcome::QueryFailed(text) => r matches Err(e) && e@
                    == StorageErrorView::Statement(text@),
                ReadOutcome::Rows(rows) => match r {
                    Ok(app) => {
                        &&& forall|i: int|
                            0 <= i < rows@.len() ==> bad_column(#[trigger] row_views(rows@)[i])
                                is None
                        &&& app@ == records_of(row_views(rows@))
                        &&& app.wf()
                    },
                    Err(e) => {
                        &&& e@ matches StorageErrorView::Decode { row, column }
                        &&& row < rows@.len()
                        &&& bad_column(row_views(rows@)[row as int]) == Some(column)
                        &&& forall|i: int|
                            0 <= i < row ==> bad_column(#[trigger] row_views(rows@)[i]) is None
                    },
                },
            },
    {
        match outcome {
            ReadOutcome::Unopened(text) => Err(StorageError::Connection(text)),
            ReadOutcome::QueryFailed(text) => Err(StorageError::Statement(text)),
            ReadOutcome::Rows(rows) => match decode_rows(&rows) {
                Ok(creators) => Ok(MyApp::new(creators)),
                Err(e) => Err(e),
            },
        }
    }

    /// The window's title.
    pub fn title(&self) -> (t: String)
        ensures
            t@ == "Creator Mailer"@,
    {
        "Creator Mailer".to_owned()
    }

    /// The records, for drawing them. They can be read, not changed.
    pub fn creators(&self) -> (records: &Vec<Creator>)
        ensures
            views(records@) == self@,
    {
        &self.creators
    }

    /// Replaces the name of `row` by `new_name` as it is: nothing is
    /// trimmed and nothing is checked.
    pub fn name_changed(&mut self, row: usize, new_name: String)
        requires
            old(self).wf(),
        ensures
            final(self).wf(),
            final(self)@ == edit_name(old(self)@, row as int, new_name@),
            row < old(self)@.len() ==> final(self)@[row as int].name == new_name@,
            row >= old(self)@.len() ==> final(self)@ == old(self)@,
    {
        if row < self.creators.len() {
            self.creators[row].set_name(new_name);
            assert(self@ =~= edit_name(old(self)@, row as int, new_name@));
        }
    }

    /// Replaces the address of `row` by `new_email` as it is: any text is
    /// an address.
    pub fn email_changed(&mut self, row: usize, new_email: String)
        requires
            old(self).wf(),
        ensures
            final(self).wf(),
            final(self)@ == edit_email(old(self)@, row as int, new_email@),
            row < old(self)@.len() ==> final(self)@[row as int].email == new_email@,
            row >= old(self)@.len() ==> final(self)@ == old(self)@,
    {
        if row < self.creators.len() {
            self.creators[row].set_email(new_email);
            assert(self@ =~= edit_email(old(self)@, row as int, new_email@));
        }
    }

    /// Replaces the follower count of `row` by the count that `new_text`
    /// stands for. Text that stands for no count is not refused: it
    /// stores zero, and the count that was there is gone.
    pub fn followers_changed(&mut self, row: usize, new_text: &str)
        requires
            old(self).wf(),
        ensures
            final(self).wf(),
            final(self)@ == edit_followers(old(self)@, row as int, new_text@),
            row < old(self)@.len() && !is_count_text(new_text@) ==> final(self)@[row as int].followers
                == 0,
            row < old(self)@.len() && is_count_text(new_text@) ==> final(self)@[row as int].followers
                == decimal_value(unsigned_part(new_text@)),
            row >= old(self)@.len() ==> final(self)@ == old(self)@,
    {
        if row < self.creators.len() {
            let followers = parse_or_zero(new_text);
            self.creators[row].set_followers(followers);
            assert(self@ =~= edit_followers(old(self)@, row as int, new_text@));
        }
    }

    /// Marks or unmarks `row`. Nothing that the store keeps changes.
    pub fn selection_changed(&mut self, row: usize, selected: bool)
        requires
            old(self).wf(),
        ensures
            final(self).wf(),
            final(self)@ == edit_selected(old(self)@, row as int, selected),
            row < old(self)@.len() ==> final(self)@[row as int].selected == selected,
            row >= old(self)@.len() ==> final(self)@ == old(self)@,
    {
        if row < self.creators.len() {
            self.creators[row].set_selected(selected);
            assert(self@ =~= edit_selected(old(self)@, row as int, selected));
        }
    }

    /// Starts a save pass over the roster as it stands, in roster order.
    /// The roster is only read: whatever the pass comes to, every edit is
    /// still there afterwards.
    pub fn save(&self) -> (pass: SavePass<'_>)
        ensures
            pass.wf(),
            pass@ == SavePassView::start(self@),
    {
        SavePass::new(&self.creators)
    }

    /// Applies a message and says what is left for the caller to do. Only
    /// the row that the message names can change, and only in the field
    /// that the message names.
    pub fn update(&mut self, message: Message) -> (effect: Effect)
        requires
            old(self).wf(),
        ensures
            final(self).wf(),
            final(self)@ == applied(old(self)@, message),
            effect == effect_of(message),
    {
        match message {
            Message::NameChanged(row, name) => {
                self.name_changed(row, name);
                Effect::Redraw
            },
            Message::EmailChanged(row, email) => {
                self.email_changed(row, email);
                Effect::Redraw
            },
            Message::FollowersChanged(row, text) => {
                self.followers_changed(row, text.as_str());
                Effect::Redraw
            },
            Message::CreatorSelected(row, selected) => {
                self.selection_changed(row, selected);
                Effect::Redraw
            },
            Message::DeleteCreator(_) => Effect::Redraw,
            Message::Save => Effect::Save,
        }
    }
}

/// The row that a message edits, if it edits one.
pub open spec fn row_of(message: Message) -> Option<int> {
    match message {
        Message::NameChanged(row, _) => Some(row as int),
        Message::EmailChanged(row, _) => Some(row as int),
        Message::FollowersChanged(row, _) => Some(row as int),
        Message::CreatorSelected(row, _) => Some(row as int),
        Message::DeleteCreator(_) => None,
        Message::Save => None,
    }
}

/// A message keeps every row where it is: the roster is as long as
/// before, each position holds the record with the same key, and a row
/// that the message does not edit is untouched.
pub proof fn lemma_rows_stay_in_place(records: Seq<CreatorView>, message: Message)
    ensures
        applied(records, message).len() == records.len(),
        forall|i: int|
            0 <= i < records.len() ==> (#[trigger] applied(records, message)[i]).id
                == records[i].id,
        forall|i: int|
            0 <= i < records.len() && row_of(message) != Some(i) ==> #[trigger] applied(
                records,
                message,
            )[i] == records[i],
{
}

/// A message for a row beyond the end of the roster changes nothing.
pub proof fn lemma_missing_row_is_ignored(records: Seq<CreatorView>, message: Message)
    requires
        row_of(message) matches Some(row) ==> row >= records.len(),
    ensures
        applied(records, message) == records,
{
}

/// A message leaves a well-formed roster well-formed; in particular no
/// follower count ever becomes negative.
pub proof fn lemma_applied_keeps_wf(records: Seq<CreatorView>, message: Message)
    requires
        roster_wf(records),
    ensures
        roster_wf(applied(records, message)),
{
}

/// Marking a row and then unmarking it leaves the row unmarked and the
/// rest of the roster as it was; a roster whose row was unmarked to begin
/// with is back where it started.
pub proof fn lemma_mark_then_unmark(records: Seq<CreatorView>, row: int)
    requires
        0 <= row < records.len(),
    ensures
        edit_selected(edit_selected(records, row, true), row, false) == edit_selected(
            records,
            row,
            false,
        ),
        !edit_selected(edit_selected(records, row, true), row, false)[row].selected,
        !records[row].selected ==> edit_selected(edit_selected(records, row, true), row, false)
            == records,
{
}

/// Marking touches nothing that the store keeps: key, name, address and
/// follower count of every row are as before, and a save pass sends the
/// same statements.
pub proof fn lemma_mark_keeps_stored(records: Seq<CreatorView>, row: int, selected: bool)
    ensures
        edit_selected(records, row, selected).len() == records.len(),
        forall|i: int|
            0 <= i < records.len() ==> (#[trigger] edit_selected(records, row, selected)[i]).same_stored(
                records[i],
            ),
        forall|i: int|
            0 <= i < records.len() ==> update_of(#[trigger] edit_selected(records, row, selected)[i])
                == update_of(records[i]),
{
}

} // verus!
