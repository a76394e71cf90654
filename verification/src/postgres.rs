//! What one iteration writes to the store, and in which steps.
//!
//! The store itself is reached from outside this library. Here stand the filter
//! that drops empty samples, the batch that is left, and the rule that says which
//! statement comes next and how the transaction ends.

use vstd::prelude::*;
use crate::models::{DefaultWithTime, DiskStat, ProcStat, SysStat, UpsStat};
use crate::text::{natural_text, push_natural, texts};

verus! {

/// Whether a sample is worth keeping: whether it is not empty.
pub open spec fn kept<T: DefaultWithTime>(sample: T) -> bool {
    !sample.empty()
}

/// Tells whether a sample is worth keeping.
pub fn keep<T: DefaultWithTime>(sample: &T) -> (verdict: bool)
    ensures
        verdict == kept(*sample),
{
    !sample.is_empty()
}

/// A single sample, if it is worth keeping.
pub fn keep_one<T: DefaultWithTime>(sample: T) -> (survivor: Option<T>)
    ensures
        survivor == if kept(sample) {
            Some(sample)
        } else {
            None
        },
{
    if keep(&sample) {
        Some(sample)
    } else {
        None
    }
}

/// The samples worth keeping, in their order.
pub fn keep_all<T: DefaultWithTime>(samples: Vec<T>) -> (survivors: Vec<T>)
    ensures
        survivors@ == samples@.filter(|sample: T| kept(sample)),
        forall|i: int| 0 <= i < survivors.len() ==> !(#[trigger] survivors[i]).empty(),
{
    let ghost all = samples@;
    let ghost worth = |sample: T| kept(sample);
    let mut survivors: Vec<T> = Vec::new();
    proof {
        reveal(Seq::filter);
        assert(all.take(0) == Seq::<T>::empty());
    }
    for sample in it: samples
        invariant
            it.seq() == all,
            forall|s: T| #[trigger] worth(s) == kept(s),
            survivors@ == all.take(it.index() as int).filter(worth),
    {
        proof {
            reveal(Seq::filter);
            let seen = all.take(it.index() + 1);
            assert(seen.drop_last() == all.take(it.index() as int));
            assert(seen.last() == sample);
        }
        if keep(&sample) {
            survivors.push(sample);
        }
    }
    proof {
        assert(all.take(all.len() as int) == all);
        assert forall|i: int| 0 <= i < survivors.len() implies !(#[trigger] survivors[i]).empty(
        ) by {
            all.lemma_filter_pred(worth, i);
        }
    }
    survivors
}

/// The filter changes nothing when it is applied a second time.
pub proof fn lemma_filter_is_idempotent<T: DefaultWithTime>(samples: Seq<T>)
    ensures
        samples.filter(|sample: T| kept(sample)).filter(|sample: T| kept(sample))
            == samples.filter(|sample: T| kept(sample)),
    decreases samples.len(),
{
    reveal(Seq::filter);
    let worth = |sample: T| kept(sample);
    if samples.len() > 0 {
        let front = samples.drop_last().filter(worth);
        lemma_filter_is_idempotent(samples.drop_last());
        if worth(samples.last()) {
            assert(front.push(samples.last()).drop_last() == front);
        }
    }
}

/// The four tables, in the order in which an iteration writes to them.
#[derive(Debug, Clone, Copy, PartialEq, Eq, Structural)]
pub enum Table {
    System,
    Ups,
    Disks,
    Processes,
}

impl Table {
    /// The table's place in the order of writing, from nought.
    pub open spec fn position(self) -> int {
        match self {
            Table::System => 0,
            Table::Ups => 1,
            Table::Disks => 2,
            Table::Processes => 3,
        }
    }
}

/// What one iteration has to write: the samples that passed the filter.
#[derive(Debug, Clone, PartialEq)]
pub struct Batch {
    /// The system sample, if it is worth keeping.
    pub system: Option<SysStat>,
    /// The power-supply sample, if it is worth keeping.
    pub ups: Option<UpsStat>,
    /// The disk samples worth keeping.
    pub disks: Vec<DiskStat>,
    /// The process samples worth keeping.
    pub processes: Vec<ProcStat>,
}

impl Batch {
    /// Whether the batch is what the filter leaves of the four sets of samples.
    pub open spec fn filtered_from(
        self,
        system: SysStat,
        ups: UpsStat,
        disks: Seq<DiskStat>,
        processes: Seq<ProcStat>,
    ) -> bool {
        &&& self.system == if kept(system) {
            Some(system)
        } else {
            None
        }
        &&& self.ups == if kept(ups) {
            Some(ups)
        } else {
            None
        }
        &&& self.disks@ == disks.filter(|sample: DiskStat| kept(sample))
        &&& self.processes@ == processes.filter(|sample: ProcStat| kept(sample))
    }

    /// Whether no sample of the batch is empty.
    pub open spec fn holds_no_empty(self) -> bool {
        &&& self.system matches Some(sample) ==> !sample.empty()
        &&& self.ups matches Some(sample) ==> !sample.empty()
        &&& forall|i: int| 0 <= i < self.disks.len() ==> !(#[trigger] self.disks[i]).empty()
        &&& forall|i: int|
            0 <= i < self.processes.len() ==> !(#[trigger] self.processes[i]).empty()
    }

    /// The number of rows that the batch holds for a table.
    pub open spec fn rows(self, table: Table) -> nat {
        match table {
            Table::System => if self.system is Some {
                1
            } else {
                0
            },
            Table::Ups => if self.ups is Some {
                1
            } else {
                0
            },
            Table::Disks => self.disks.len() as nat,
            Table::Processes => self.processes.len() as nat,
        }
    }

    /// Passes the samples of one iteration through the filter: the single system
    /// sample, the single power-supply sample, and each disk and process sample
    /// by itself.
    pub fn new(
        system: SysStat,
        ups: UpsStat,
        disks: Vec<DiskStat>,
        processes: Vec<ProcStat>,
    ) -> (batch: Batch)
        ensures
            batch.filtered_from(system, ups, disks@, processes@),
            batch.holds_no_empty(),
    {
        Batch {
            system: keep_one(system),
            ups: keep_one(ups),
            disks: keep_all(disks),
            processes: keep_all(processes),
        }
    }

    /// Counts the rows that the batch holds for a table.
    pub fn row_count(&self, table: Table) -> (count: usize)
        ensures
            count == self.rows(table),
    {
        match table {
            Table::System => if self.system.is_some() {
                1
            } else {
                0
            },
            Table::Ups => if self.ups.is_some() {
                1
            } else {
                0
            },
            Table::Disks => self.disks.len(),
            Table::Processes => self.processes.len(),
        }
    }
}

/// A step of the transaction that writes a batch.
#[derive(Debug, Clone, Copy, PartialEq, Eq, Structural)]
pub enum StoreAction {
    /// Insert the batch's rows for this table, in one statement.
    Insert(Table),
    /// Make the iteration's rows lasting, all at once.
    Commit,
    /// Undo every statement of the iteration.
    Rollback,
}

/// The first table, at `from` or later in the order of writing, for which the batch
/// holds rows.
pub open spec fn first_with_rows(batch: Batch, from: int) -> Option<Table> {
    if from <= 0 && batch.rows(Table::System) > 0 {
        Some(Table::System)
    } else if from <= 1 && batch.rows(Table::Ups) > 0 {
        Some(Table::Ups)
    } else if from <= 2 && batch.rows(Table::Disks) > 0 {
        Some(Table::Disks)
    } else if from <= 3 && batch.rows(Table::Processes) > 0 {
        Some(Table::Processes)
    } else {
        None
    }
}

/// The place after the last statement: nought where none was made yet.
pub open spec fn place_after(last: Option<(Table, bool)>) -> int {
    match last {
        Some((table, _)) => table.position() + 1,
        None => 0,
    }
}

/// The step that follows, given the last statement and whether it succeeded
/// (`None` at the start of the transaction). A failed statement is answered by
/// rollback at once. Else the next table with rows is written, a table without rows
/// being passed over; when none is left, the transaction commits.
pub open spec fn next_action(batch: Batch, last: Option<(Table, bool)>) -> StoreAction {
    if last matches Some((_, false)) {
        StoreAction::Rollback
    } else {
        match first_with_rows(batch, place_after(last)) {
            Some(table) => StoreAction::Insert(table),
            None => StoreAction::Commit,
        }
    }
}

/// Says what to do next in the transaction that writes `batch`: `last` is the
/// table of the statement made last, with `true` where the store accepted it, or
/// `None` where the transaction has just been opened.
pub fn store_entries(batch: &Batch, last: Option<(Table, bool)>) -> (action: StoreAction)
    ensures
        action == next_action(*batch, last),
{
    let from: u8 = match last {
        Some((_, false)) => {
            return StoreAction::Rollback;
        },
        Some((Table::System, true)) => 1,
        Some((Table::Ups, true)) => 2,
        Some((Table::Disks, true)) => 3,
        Some((Table::Processes, true)) => 4,
        None => 0,
    };
    if from <= 0 && batch.row_count(Table::System) > 0 {
        StoreAction::Insert(Table::System)
    } else if from <= 1 && batch.row_count(Table::Ups) > 0 {
        StoreAction::Insert(Table::Ups)
    } else if from <= 2 && batch.row_count(Table::Disks) > 0 {
        StoreAction::Insert(Table::Disks)
    } else if from <= 3 && batch.row_count(Table::Processes) > 0 {
        StoreAction::Insert(Table::Processes)
    } else {
        StoreAction::Commit
    }
}

/// How the transaction ends when it is carried on from `last` and the store
/// refuses exactly the statements on the tables for which `fails` holds.
pub open spec fn run_end(
    batch: Batch,
    fails: spec_fn(Table) -> bool,
    last: Option<(Table, bool)>,
) -> StoreAction
    decreases 4 - place_after(last),
{
    match next_action(batch, last) {
        StoreAction::Insert(table) => run_end(batch, fails, Some((table, !fails(table)))),
        end => end,
    }
}

/// The rows of a batch that a reader of the store sees once the transaction has
/// ended, table by table: all of them after a commit, none after a rollback.
pub open spec fn visible_rows(batch: Batch, end: StoreAction, table: Table) -> nat {
    if end == StoreAction::Commit {
        batch.rows(table)
    } else {
        0
    }
}

/// Every transaction ends, and ends in a commit or in a rollback.
pub proof fn lemma_run_ends(
    batch: Batch,
    fails: spec_fn(Table) -> bool,
    last: Option<(Table, bool)>,
)
    ensures
        run_end(batch, fails, last) == StoreAction::Commit || run_end(batch, fails, last)
            == StoreAction::Rollback,
    decreases 4 - place_after(last),
{
    match next_action(batch, last) {
        StoreAction::Insert(table) => {
            lemma_run_ends(batch, fails, Some((table, !fails(table))));
        },
        _ => {},
    }
}

/// Atomicity: where the store refuses the statement on any table for which the
/// batch holds rows, the transaction ends in a rollback, and no row of the
/// iteration becomes visible.
pub proof fn lemma_failure_rolls_back(batch: Batch, fails: spec_fn(Table) -> bool, failing: Table)
    requires
        batch.rows(failing) > 0,
        fails(failing),
    ensures
        run_end(batch, fails, None) == StoreAction::Rollback,
        forall|table: Table| visible_rows(batch, run_end(batch, fails, None), table) == 0,
{
    lemma_failure_reached(batch, fails, failing, None);
}

/// A transaction that has not yet come to a failing table with rows, and has not
/// failed before, ends in a rollback.
proof fn lemma_failure_reached(
    batch: Batch,
    fails: spec_fn(Table) -> bool,
    failing: Table,
    last: Option<(Table, bool)>,
)
    requires
        batch.rows(failing) > 0,
        fails(failing),
        place_after(last) <= failing.position() || last matches Some((_, false)),
    ensures
        run_end(batch, fails, last) == StoreAction::Rollback,
    decreases 4 - place_after(last),
{
    match next_action(batch, last) {
        StoreAction::Insert(table) => {
            lemma_failure_reached(batch, fails, failing, Some((table, !fails(table))));
        },
        _ => {},
    }
}

/// Where the store accepts every statement, the transaction commits, and every
/// row of the batch becomes visible.
pub proof fn lemma_success_commits(batch: Batch, fails: spec_fn(Table) -> bool)
    requires
        forall|table: Table| batch.rows(table) > 0 ==> !fails(table),
    ensures
        run_end(batch, fails, None) == StoreAction::Commit,
        forall|table: Table|
            visible_rows(batch, run_end(batch, fails, None), table) == batch.rows(table),
{
    lemma_success_reached(batch, fails, None);
}

/// A transaction in which nothing has failed, and nothing will, commits.
proof fn lemma_success_reached(
    batch: Batch,
    fails: spec_fn(Table) -> bool,
    last: Option<(Table, bool)>,
)
    requires
        forall|table: Table| batch.rows(table) > 0 ==> !fails(table),
        !(last matches Some((_, false))),
    ensures
        run_end(batch, fails, last) == StoreAction::Commit,
    decreases 4 - place_after(last),
{
    match next_action(batch, last) {
        StoreAction::Insert(table) => {
            lemma_success_reached(batch, fails, Some((table, !fails(table))));
        },
        _ => {},
    }
}

/// The largest number of rows that a read-back asks for when `amount` are wanted:
/// `amount` itself, as far as the store's row counts reach.
pub open spec fn limit_of(amount: usize) -> int {
    if amount <= i64::MAX {
        amount as int
    } else {
        i64::MAX as int
    }
}

/// Turns a wanted number of rows into the limit of a read-back, which is never
/// negative.
pub fn query_limit(amount: usize) -> (limit: i64)
    ensures
        limit == limit_of(amount),
        limit >= 0,
{
    if amount as u64 <= i64::MAX as u64 {
        amount as i64
    } else {
        i64::MAX
    }
}

/// The ways in which work on the store fails.
#[derive(Debug, Clone, Copy, PartialEq, Eq, Structural)]
pub enum PersistError {
    /// No session with the store could be had. Nothing was written.
    ConnectionError,
    /// A statement of the transaction failed. The whole iteration was rolled back.
    WriteError,
    /// A read-back failed. What was committed before is not touched.
    ReadError,
}

/// What a transaction comes to whose last step was `end`: success after a commit,
/// and a write error after a rollback, or where it was left before its end.
pub open spec fn result_of(end: StoreAction) -> Result<(), PersistError> {
    if end == StoreAction::Commit {
        Ok(())
    } else {
        Err(PersistError::WriteError)
    }
}

/// Says what a transaction comes to whose last step was `end`.
pub fn persist_result(end: StoreAction) -> (result: Result<(), PersistError>)
    ensures
        result == result_of(end),
        result is Ok <==> end == StoreAction::Commit,
{
    match end {
        StoreAction::Commit => Ok(()),
        _ => Err(PersistError::WriteError),
    }
}

/// The rows that a read-back brought, newest first, each written as a line.
#[derive(Debug, Clone, PartialEq, Default)]
pub struct Recent {
    /// Rows of disk samples.
    pub disks: Vec<String>,
    /// Rows of process samples.
    pub processes: Vec<String>,
    /// Rows of power-supply samples.
    pub ups: Vec<String>,
    /// Rows of system samples.
    pub systems: Vec<String>,
}

/// The line that announces the rows of one kind.
pub open spec fn heading(count: nat, kind: Seq<char>) -> Seq<char> {
    "Displaying "@ + natural_text(count) + " "@ + kind + " "@ + if count > 1 {
        "entries"@
    } else {
        "entry"@
    }
}

/// The lines for the rows of one kind: the heading, then each row behind the
/// kind's label.
pub open spec fn section(rows: Seq<Seq<char>>, kind: Seq<char>, label: Seq<char>) -> Seq<
    Seq<char>,
> {
    seq![heading(rows.len(), kind)] + rows.map_values(|row: Seq<char>| label + ": "@ + row)
}

/// The lines that report a read-back: disks, processes, power supply, system.
/// Nothing is reported of a read-back that failed.
pub open spec fn report(recent: Option<Recent>) -> Seq<Seq<char>> {
    match recent {
        Some(rows) => section(texts(rows.disks@), "Disk"@, "Disks"@) + section(
            texts(rows.processes@),
            "Process"@,
            "Processes"@,
        ) + section(texts(rows.ups@), "UPS"@, "UPS"@) + section(
            texts(rows.systems@),
            "system"@,
            "System"@,
        ),
        None => Seq::empty(),
    }
}

/// Writes the lines for the rows of one kind at the end of `lines`.
fn push_section(lines: &mut Vec<String>, rows: &Vec<String>, kind: &str, label: &str)
    ensures
        texts(final(lines)@) == texts(old(lines)@) + section(texts(rows@), kind@, label@),
{
    let ghost behind = |row: Seq<char>| label@ + ": "@ + row;
    let mut first = String::from_str("Displaying ");
    push_natural(&mut first, rows.len() as u64);
    first.append(" ");
    first.append(kind);
    first.append(" ");
    if rows.len() > 1 {
        first.append("entries");
    } else {
        first.append("entry");
    }
    let ghost announced = lines@;
    lines.push(first);
    assert(texts(lines@) =~= texts(old(lines)@) + seq![heading(rows.len() as nat, kind@)]) by {
        assert(texts(lines@) =~= texts(announced).push(first@));
    }
    let mut i: usize = 0;
    assert(texts(rows@).take(0) =~= Seq::<Seq<char>>::empty());
    assert(texts(lines@) =~= texts(old(lines)@) + seq![heading(rows.len() as nat, kind@)]
        + texts(rows@).take(0).map_values(behind));
    while i < rows.len()
        invariant
            i <= rows.len(),
            forall|row: Seq<char>| #[trigger] behind(row) == label@ + ": "@ + row,
            texts(lines@) == texts(old(lines)@) + seq![heading(rows.len() as nat, kind@)] + texts(
                rows@,
            ).take(i as int).map_values(behind),
        decreases rows.len() - i,
    {
        let mut line = String::from_str(label);
        line.append(": ");
        line.append(rows[i].as_str());
        let ghost listed = lines@;
        lines.push(line);
        proof {
            assert(texts(lines@) =~= texts(listed).push(line@));
            assert(texts(rows@).take(i + 1).map_values(behind) =~= texts(rows@).take(
                i as int,
            ).map_values(behind).push(behind(rows@[i as int]@)));
            assert(texts(lines@) =~= texts(old(lines)@) + seq![
                heading(rows.len() as nat, kind@),
            ] + texts(rows@).take(i + 1).map_values(behind));
        }
        i += 1;
    }
    proof {
        assert(texts(rows@).take(rows.len() as int) == texts(rows@));
        assert(texts(lines@) =~= texts(old(lines)@) + section(texts(rows@), kind@, label@)) by {
            assert(texts(rows@).map_values(behind) =~= texts(rows@).map_values(
                |row: Seq<char>| label@ + ": "@ + row,
            ));
        }
    }
}

/// Makes the lines that report a read-back of the newest rows of each kind.
/// `None` stands for a read-back that failed, of which nothing is shown.
pub fn print_entries(recent: &Option<Recent>) -> (lines: Vec<String>)
    ensures
        texts(lines@) == report(*recent),
{
    let mut lines: Vec<String> = Vec::new();
    match recent {
        Some(rows) => {
            assert(texts(lines@) =~= Seq::<Seq<char>>::empty());
            push_section(&mut lines, &rows.disks, "Disk", "Disks");
            push_section(&mut lines, &rows.processes, "Process", "Processes");
            push_section(&mut lines, &rows.ups, "UPS", "UPS");
            push_section(&mut lines, &rows.systems, "system", "System");
            assert(texts(lines@) =~= report(*recent));
        },
        None => {
            assert(texts(lines@) =~= Seq::<Seq<char>>::empty());
        },
    }
    lines
}

} // verus!
