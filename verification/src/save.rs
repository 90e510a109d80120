//! Writing the roster back, one statement per record.
//!
//! A save pass is not a transaction. The store is opened, then the records
//! are written in roster order, each by a statement of its own, and the
//! first step that fails ends the pass: what was written before it stays
//! written, what comes after it is never sent. The pass decides; the
//! caller does each step that it is handed and reports what became of it.

use vstd::prelude::*;
use crate::record::{views, Creator, CreatorView};
use crate::store::{update_of, Statement, StatementView, StorageError, StorageErrorView};

verus! {

/// A save pass, as mathematics sees it.
pub struct SavePassView {
    /// The records to write, in roster order.
    pub records: Seq<CreatorView>,
    /// Whether the store is open.
    pub connected: bool,
    /// How many statements ran; they are those of the first `written`
    /// records.
    pub written: nat,
    /// The failure that ended the pass, once a step has failed.
    pub failure: Option<StorageErrorView>,
}

impl SavePassView {
    /// A pass that has done nothing yet.
    pub open spec fn start(records: Seq<CreatorView>) -> SavePassView {
        SavePassView { records, connected: false, written: 0, failure: None }
    }

    /// Well-formed: no more is written than there are records, nothing is
    /// written before the store is open, and a failure is of the step at
    /// which the pass stands.
    pub open spec fn wf(self) -> bool {
        &&& self.written <= self.records.len()
        &&& !self.connected ==> self.written == 0
        &&& match self.failure {
            None => true,
            Some(StorageErrorView::Connection(_)) => !self.connected,
            Some(StorageErrorView::Statement(_)) => self.connected && self.written
                < self.records.len(),
            Some(StorageErrorView::Decode { .. }) => false,
        }
    }

    /// Whether the pass is over: a step failed, or the store is open and
    /// every record is written.
    pub open spec fn finished(self) -> bool {
        self.failure is Some || (self.connected && self.written >= self.records.len())
    }

    /// The statement to run next, once the store is open and while the
    /// pass is not over.
    pub open spec fn pending(self) -> StatementView
        recommends
            self.connected,
            !self.finished(),
    {
        update_of(self.records[self.written as int])
    }

    /// The failure that the driver's text stands for at this point of the
    /// pass: the store did not open, or a statement did not run.
    pub open spec fn failure_of(self, text: Seq<char>) -> StorageErrorView {
        if self.connected {
            StorageErrorView::Statement(text)
        } else {
            StorageErrorView::Connection(text)
        }
    }

    /// The pass after the caller has reported on the step that it was
    /// handed: `None` if the step was done, the driver's text if it
    /// failed. A pass that is over takes no report.
    pub open spec fn after(self, report: Option<Seq<char>>) -> SavePassView {
        if self.finished() {
            self
        } else {
            match report {
                Some(text) => SavePassView { failure: Some(self.failure_of(text)), ..self },
                None => if self.connected {
                    SavePassView { written: self.written + 1, ..self }
                } else {
                    SavePassView { connected: true, ..self }
                },
            }
        }
    }

    /// The pass after a run of reports, first report first.
    pub open spec fn after_all(self, reports: Seq<Option<Seq<char>>>) -> SavePassView
        decreases reports.len(),
    {
        if reports.len() == 0 {
            self
        } else {
            self.after_all(reports.drop_last()).after(reports.last())
        }
    }
}

/// What the caller is to do next.
pub enum SaveStep {
    /// Open the store and report whether it opened.
    Connect,
    /// Run this statement and report what became of it.
    Execute(Statement),
    /// Nothing more: the pass is over, with this result.
    Finished(Result<(), StorageError>),
}

/// A save pass over a roster's records.
pub struct SavePass<'a> {
    records: &'a Vec<Creator>,
    connected: bool,
    written: usize,
    failure: Option<String>,
}

impl<'a> View for SavePass<'a> {
    type V = SavePassView;

    closed spec fn view(&self) -> SavePassView {
        SavePassView {
            records: views(self.records@),
            connected: self.connected,
            written: self.written as nat,
            failure: match self.failure {
                Some(text) => Some(
                    if self.connected {
                        StorageErrorView::Statement(text@)
                    } else {
                        StorageErrorView::Connection(text@)
                    },
                ),
                None => None,
            },
        }
    }
}

impl<'a> SavePass<'a> {
    /// Well-formed: its view is.
    pub open spec fn wf(&self) -> bool {
        self@.wf()
    }

    /// Starts a pass over `records`. Nothing has been done yet.
    pub fn new(records: &'a Vec<Creator>) -> (pass: SavePass<'a>)
        ensures
            pass.wf(),
            pass@ == SavePassView::start(views(records@)),
    {
        SavePass { records, connected: false, written: 0, failure: None }
    }

    /// What to do next: open the store, run the statement for the first
    /// record not yet written, or stop. Once a step has failed the pass
    /// hands out no further step, only the failure.
    pub fn next_step(&self) -> (step: SaveStep)
        requires
            self.wf(),
        ensures
            match step {
                SaveStep::Connect => !self@.finished() && !self@.connected,
                SaveStep::Execute(statement) => !self@.finished() && self@.connected
                    && statement@ == self@.pending(),
                SaveStep::Finished(Ok(_)) => self@.failure is None && self@.connected
                    && self@.written == self@.records.len(),
                SaveStep::Finished(Err(e)) => self@.failure == Some(e@),
            },
    {
        match &self.failure {
            Some(text) => {
                if self.connected {
                    SaveStep::Finished(Err(StorageError::Statement(text.clone())))
                } else {
                    SaveStep::Finished(Err(StorageError::Connection(text.clone())))
                }
            },
            None => {
                if !self.connected {
                    SaveStep::Connect
                } else if self.written < self.records.len() {
                    SaveStep::Execute(Statement::update(&self.records[self.written]))
                } else {
                    SaveStep::Finished(Ok(()))
                }
            },
        }
    }

    /// Takes the caller's report on the step that was handed out last:
    /// `Ok` if it was done, the driver's text if it failed.
    pub fn report(&mut self, outcome: Result<(), String>)
        requires
            old(self).wf(),
        ensures
            final(self).wf(),
            final(self)@ == old(self)@.after(
                match outcome {
                    Ok(_) => None,
                    Err(text) => Some(text@),
                },
            ),
    {
        if self.failure.is_none() && !(self.connected && self.written >= self.records.len()) {
            match outcome {
                Ok(_) => {
                    if self.connected {
                        self.written = self.written + 1;
                    } else {
                        self.connected = true;
                    }
                },
                Err(text) => {
                    self.failure = Some(text);
                },
            }
        }
    }

    /// How many records are written so far.
    pub fn written(&self) -> (n: usize)
        ensures
            n == self@.written,
    {
        self.written
    }

    /// Whether the pass is over.
    pub fn is_finished(&self) -> (b: bool)
        ensures
            b == self@.finished(),
    {
        self.failure.is_some() || (self.connected && self.written >= self.records.len())
    }
}

/// While every step is done, the store is open after the first report
/// and the pass has written one record for each report after it.
pub proof fn lemma_steps_done(
    records: Seq<CreatorView>,
    reports: Seq<Option<Seq<char>>>,
    k: int,
)
    requires
        0 <= k <= records.len(),
        k + 1 <= reports.len(),
        forall|i: int| 0 <= i <= k ==> reports[i] is None,
    ensures
        SavePassView::start(records).after_all(reports.subrange(0, k + 1)) == (SavePassView {
            records,
            connected: true,
            written: k as nat,
            failure: None,
        }),
    decreases k,
{
    let upto = reports.subrange(0, k + 1);
    if k == 0 {
        assert(SavePassView::start(records).after_all(upto.drop_last()) == SavePassView::start(
            records,
        ));
    } else {
        lemma_steps_done(records, reports, k - 1);
        assert(upto.drop_last() =~= reports.subrange(0, k));
    }
    assert(upto.last() == reports[k]);
}

/// A pass in which the store opens and every statement runs writes every
/// record and then ends without a failure.
pub proof fn lemma_all_steps_done(records: Seq<CreatorView>, reports: Seq<Option<Seq<char>>>)
    requires
        reports.len() == records.len() + 1,
        forall|i: int| 0 <= i < reports.len() ==> reports[i] is None,
    ensures
        SavePassView::start(records).after_all(reports) == (SavePassView {
            records,
            connected: true,
            written: records.len(),
            failure: None,
        }),
        SavePassView::start(records).after_all(reports).finished(),
{
    lemma_steps_done(records, reports, records.len() as int);
    assert(reports.subrange(0, reports.len() as int) =~= reports);
}

/// A pass that is over stays as it is, whatever is reported to it.
pub proof fn lemma_finished_pass_stays(pass: SavePassView, reports: Seq<Option<Seq<char>>>)
    requires
        pass.finished(),
    ensures
        pass.after_all(reports) == pass,
    decreases reports.len(),
{
    if reports.len() > 0 {
        lemma_finished_pass_stays(pass, reports.drop_last());
    }
}

/// A store that does not open ends the pass at once: nothing is written
/// and the failure is one of connection, whatever is reported
/// afterwards.
pub proof fn lemma_unopened_store_ends_pass(
    records: Seq<CreatorView>,
    reports: Seq<Option<Seq<char>>>,
)
    requires
        reports.len() > 0,
        reports[0] is Some,
    ensures
        SavePassView::start(records).after_all(reports) == (SavePassView {
            records,
            connected: false,
            written: 0,
            failure: Some(StorageErrorView::Connection(reports[0]->0)),
        }),
        SavePassView::start(records).after_all(reports).finished(),
    decreases reports.len(),
{
    if reports.len() == 1 {
        assert(SavePassView::start(records).after_all(reports.drop_last())
            == SavePassView::start(records));
    } else {
        lemma_unopened_store_ends_pass(records, reports.drop_last());
    }
}

/// The first failure ends the pass: if the store opens, the statements of
/// the first `k` records run and the next one fails, then exactly those
/// `k` records are written and the pass ends with that failure, whatever
/// is reported afterwards.
pub proof fn lemma_first_failure_ends_pass(
    records: Seq<CreatorView>,
    reports: Seq<Option<Seq<char>>>,
    k: int,
)
    requires
        0 <= k < records.len(),
        k + 1 < reports.len(),
        forall|i: int| 0 <= i <= k ==> reports[i] is None,
        reports[k + 1] is Some,
    ensures
        SavePassView::start(records).after_all(reports) == (SavePassView {
            records,
            connected: true,
            written: k as nat,
            failure: Some(StorageErrorView::Statement(reports[k + 1]->0)),
        }),
        SavePassView::start(records).after_all(reports).finished(),
    decreases reports.len(),
{
    if reports.len() == k + 2 {
        lemma_steps_done(records, reports, k);
        assert(reports.drop_last() =~= reports.subrange(0, k + 1));
    } else {
        lemma_first_failure_ends_pass(records, reports.drop_last(), k);
    }
}

} // verus!
