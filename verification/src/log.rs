//! Log records and the sink that numbers them.

use crate::clock::Timestamp;
use vstd::prelude::*;
use vstd::string::*;

verus! {

/// What a log record reports.
#[derive(Clone, Copy, Debug, PartialEq, Eq, Structural)]
pub enum LogCategory {
    /// Narration of what the supervisor does.
    Status,
    /// A line that the worker wrote to its standard output.
    Stdout,
    /// A line that the worker wrote to its standard error.
    Stderr,
    /// A failure.
    Error,
}

impl LogCategory {
    /// The lower-case name under which the category is shown.
    pub open spec fn name(self) -> Seq<char> {
        match self {
            LogCategory::Status => "status"@,
            LogCategory::Stdout => "stdout"@,
            LogCategory::Stderr => "stderr"@,
            LogCategory::Error => "error"@,
        }
    }

    pub fn as_str(&self) -> (text: &'static str)
        ensures
            text@ == self.name(),
    {
        match self {
            LogCategory::Status => "status",
            LogCategory::Stdout => "stdout",
            LogCategory::Stderr => "stderr",
            LogCategory::Error => "error",
        }
    }
}

/// What a log record holds.
pub struct LogRecordView {
    pub id: nat,
    pub message: Seq<char>,
    pub timestamp: Seq<char>,
    pub category: LogCategory,
}

/// One entry of the log. It does not change once the sink has made it.
#[derive(Debug, PartialEq, Eq)]
pub struct LogRecord {
    id: u64,
    message: String,
    timestamp: String,
    category: LogCategory,
}

impl View for LogRecord {
    type V = LogRecordView;

    closed spec fn view(&self) -> LogRecordView {
        LogRecordView {
            id: self.id as nat,
            message: self.message@,
            timestamp: self.timestamp@,
            category: self.category,
        }
    }
}

impl Clone for LogRecord {
    fn clone(&self) -> (copy: LogRecord)
        ensures
            copy@ == self@,
    {
        LogRecord {
            id: self.id,
            message: self.message.clone(),
            timestamp: self.timestamp.clone(),
            category: self.category,
        }
    }
}

impl LogRecord {
    /// The sequence number: 1 for the first record of a sink.
    pub fn id(&self) -> (id: u64)
        ensures
            id == self@.id,
    {
        self.id
    }

    pub fn message(&self) -> (text: &str)
        ensures
            text@ == self@.message,
    {
        self.message.as_str()
    }

    /// The RFC 3339 text of the time at which the record was made.
    pub fn timestamp(&self) -> (text: &str)
        ensures
            text@ == self@.timestamp,
    {
        self.timestamp.as_str()
    }

    pub fn category(&self) -> (category: LogCategory)
        ensures
            category == self@.category,
    {
        self.category
    }
}

/// What each of `records` holds, in order.
pub open spec fn record_views(records: Seq<LogRecord>) -> Seq<LogRecordView> {
    records.map_values(|r: LogRecord| r@)
}

/// A sink as contracts see it.
pub struct LogSinkView {
    /// Every record that the sink has made, oldest first.
    pub history: Seq<LogRecordView>,
    /// The records that have not been handed out for publishing yet.
    pub pending: Seq<LogRecordView>,
}

impl LogSinkView {
    /// A sink that has made no record.
    pub open spec fn empty() -> LogSinkView {
        LogSinkView { history: Seq::empty(), pending: Seq::empty() }
    }

    /// The record at place `i` of the history has the id `i + 1`, and the
    /// pending records are the newest of the history.
    pub open spec fn wf(self) -> bool {
        &&& forall|i: int| 0 <= i < self.history.len() ==> (#[trigger] self.history[i]).id == i + 1
        &&& self.pending.len() <= self.history.len()
        &&& self.pending == self.history.skip(self.history.len() - self.pending.len())
    }

    /// There are ids left for `n` more records.
    pub open spec fn can_take(self, n: nat) -> bool {
        self.history.len() + n <= u64::MAX
    }

    /// The record that the sink makes next from the given parts.
    pub open spec fn next_record(
        self,
        category: LogCategory,
        message: Seq<char>,
        timestamp: Seq<char>,
    ) -> LogRecordView {
        LogRecordView { id: self.history.len() + 1, message, timestamp, category }
    }

    /// The sink after it has made one more record.
    pub open spec fn logged(
        self,
        category: LogCategory,
        message: Seq<char>,
        timestamp: Seq<char>,
    ) -> LogSinkView {
        let record = self.next_record(category, message, timestamp);
        LogSinkView { history: self.history.push(record), pending: self.pending.push(record) }
    }

    /// The sink after its pending records have been handed out.
    pub open spec fn drained(self) -> LogSinkView {
        LogSinkView { history: self.history, pending: Seq::empty() }
    }
}

/// Making a record keeps the sink in order: the new record is the newest of
/// the history and of the pending records, and its id is the number of
/// records made so far.
pub proof fn lemma_logged_keeps_order(
    sink: LogSinkView,
    category: LogCategory,
    message: Seq<char>,
    timestamp: Seq<char>,
)
    requires
        sink.wf(),
    ensures
        sink.logged(category, message, timestamp).wf(),
        sink.logged(category, message, timestamp).history.len() == sink.history.len() + 1,
        sink.logged(category, message, timestamp).history.last().id == sink.history.len() + 1,
        sink.logged(category, message, timestamp).history.drop_last() == sink.history,
{
    let after = sink.logged(category, message, timestamp);
    assert(after.pending =~= after.history.skip(after.history.len() - after.pending.len()));
    assert(after.history.drop_last() =~= sink.history);
}

/// Handing the pending records out keeps the sink in order and its history
/// as it is.
pub proof fn lemma_drained_keeps_order(sink: LogSinkView)
    requires
        sink.wf(),
    ensures
        sink.drained().wf(),
        sink.drained().history == sink.history,
{
    let after = sink.drained();
    assert(after.pending =~= after.history.skip(after.history.len() - after.pending.len()));
}

/// The ids of the records that a sink has made count up from 1 without a
/// gap: of two records the later one has the larger id, and their ids differ
/// by as much as their places in the history.
pub proof fn lemma_ids_count_up(sink: LogSinkView, earlier: int, later: int)
    requires
        sink.wf(),
        0 <= earlier < later < sink.history.len(),
    ensures
        sink.history[0].id == 1,
        sink.history[earlier].id < sink.history[later].id,
        sink.history[later].id - sink.history[earlier].id == later - earlier,
{
}

/// Numbers log records and keeps them until they are handed out for
/// publishing. Access goes through `&mut`, so two producers never draw an id
/// at the same time.
pub struct LogSink {
    issued: u64,
    pending: Vec<LogRecord>,
    history: Ghost<Seq<LogRecordView>>,
}

impl View for LogSink {
    type V = LogSinkView;

    closed spec fn view(&self) -> LogSinkView {
        LogSinkView { history: self.history@, pending: record_views(self.pending@) }
    }
}

impl LogSink {
    pub closed spec fn wf(&self) -> bool {
        &&& self.issued == self.history@.len()
        &&& self@.wf()
    }

    pub fn new() -> (sink: LogSink)
        ensures
            sink.wf(),
            sink@ == LogSinkView::empty(),
    {
        let sink = LogSink { issued: 0, pending: Vec::new(), history: Ghost(Seq::empty()) };
        assert(sink@.pending =~= Seq::empty());
        assert(sink@.pending =~= sink@.history.skip(0));
        sink
    }

    /// Makes the next record and queues it for publishing. Returns its id.
    pub fn emit(&mut self, category: LogCategory, message: String, at: &Timestamp) -> (id: u64)
        requires
            old(self).wf(),
            old(self)@.can_take(1),
        ensures
            final(self).wf(),
            final(self)@ == old(self)@.logged(category, message@, at@),
            id == old(self)@.history.len() + 1,
    {
        let id: u64 = self.issued + 1;
        let record = LogRecord {
            id,
            message,
            timestamp: String::from_str(at.as_str()),
            category,
        };
        proof {
            let before = self@;
            let after = before.logged(category, message@, at@);
            assert(record@ == before.next_record(category, message@, at@));
            assert(record_views(self.pending@.push(record)) =~= before.pending.push(record@));
            assert(after.pending =~= after.history.skip(
                after.history.len() - after.pending.len(),
            ));
        }
        self.history = Ghost(self.history@.push(record@));
        self.pending.push(record);
        self.issued = id;
        id
    }

    /// Hands out the records made since the last call, oldest first.
    pub fn take_pending(&mut self) -> (records: Vec<LogRecord>)
        requires
            old(self).wf(),
        ensures
            final(self).wf(),
            final(self)@ == old(self)@.drained(),
            record_views(records@) == old(self)@.pending,
    {
        let mut records: Vec<LogRecord> = Vec::new();
        std::mem::swap(&mut self.pending, &mut records);
        proof {
            assert(record_views(self.pending@) =~= Seq::empty());
            assert(self@.pending =~= self@.history.skip(self@.history.len() - 0));
        }
        records
    }

    /// The number of records made so far, which is the id of the newest.
    pub fn issued(&self) -> (count: u64)
        requires
            self.wf(),
        ensures
            count == self@.history.len(),
    {
        self.issued
    }

    /// The number of records that can still be made.
    pub fn remaining(&self) -> (count: u64)
        requires
            self.wf(),
        ensures
            count == u64::MAX - self@.history.len(),
            forall|n: nat| self@.can_take(n) <==> n <= count,
    {
        u64::MAX - self.issued
    }
}

} // verus!
