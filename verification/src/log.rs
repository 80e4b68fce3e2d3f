//! The per-partition append-only log: durable, totally ordered records,
//! with trim and seal.
//!
//! Each log is an in-memory record sequence. Offsets (`Lsn`) start at 1
//! and grow by exactly one per append, so log order is append order.
//! Trimming only moves a trim point forward: trimmed offsets surface as a
//! single trim-gap record on read, never as missing offsets. Sealing is
//! terminal: a sealed log refuses appends, and reads past its last record
//! return a seal record instead of waiting for more.

use vstd::prelude::*;

verus! {

use crate::read_stream::LogReadStream;

/// Log sequence number: the offset of a record within one log.
pub type Lsn = u64;

/// Identifier of one independently ordered log.
pub type LogId = u64;

/// A marker standing in for a contiguous run of trimmed records.
#[derive(Debug, Clone, Copy, PartialEq, Eq, Structural)]
pub struct TrimGap {
    /// The last trimmed offset: nothing at or below it can be read.
    pub until: Lsn,
}

/// The body of one record.
#[derive(Debug, Clone, PartialEq, Eq)]
pub enum Record {
    /// An appended payload.
    Data(Vec<u8>),
    /// A stand-in for trimmed records.
    TrimGap(TrimGap),
    /// The terminal marker of a sealed log. The seal's metadata (who
    /// sealed, and why) stays with the storage provider; the core reads
    /// only the marker and its position.
    Seal,
}

/// One record together with its offset.
#[derive(Debug, Clone, PartialEq, Eq)]
pub struct LogRecord {
    pub offset: Lsn,
    pub record: Record,
}

/// Why a log operation was refused.
#[derive(Debug, Clone, Copy, PartialEq, Eq, Structural)]
pub enum LogError {
    /// No log with the given id is hosted here.
    UnknownLogId,
    /// The log was sealed and accepts no further appends.
    Sealed,
}

/// The mathematical state of one log.
pub struct LogModel {
    /// The payloads in append order; the record at offset `i + 1` is
    /// `entries[i]`.
    pub entries: Seq<Seq<u8>>,
    /// Offsets at or below this are trimmed.
    pub trim_point: int,
    /// Whether the log has been sealed.
    pub sealed: bool,
}

/// The mathematical form of one read record.
pub enum RecordModel {
    Data { offset: int, payload: Seq<u8> },
    TrimGap { offset: int, until: int },
    Seal { offset: int },
}

/// The state of one log: its records, trim point and seal flag.
#[derive(Debug, Clone, PartialEq, Eq)]
pub struct LogState {
    pub entries: Vec<Vec<u8>>,
    pub trim_point: Lsn,
    pub sealed: bool,
}

impl View for LogState {
    type V = LogModel;

    open spec fn view(&self) -> LogModel {
        LogModel {
            entries: self.entries@.map_values(|v: Vec<u8>| v@),
            trim_point: self.trim_point as int,
            sealed: self.sealed,
        }
    }
}

/// A log is well formed when its trim point lies within the log.
pub open spec fn log_wf(m: LogModel) -> bool {
    0 <= m.trim_point <= m.entries.len()
}

/// The mathematical form of an optional read record.
pub open spec fn opt_record_model(o: Option<LogRecord>) -> Option<RecordModel> {
    match o {
        None => None,
        Some(r) => Some(record_model(r)),
    }
}

/// The mathematical form of one exec record.
pub open spec fn record_model(r: LogRecord) -> RecordModel {
    match r.record {
        Record::Data(p) => RecordModel::Data { offset: r.offset as int, payload: p@ },
        Record::TrimGap(g) => RecordModel::TrimGap { offset: r.offset as int, until: g.until as int },
        Record::Seal => RecordModel::Seal { offset: r.offset as int },
    }
}

/// The first record of `m` with offset beyond `after`, or `None` when the
/// caller would have to wait: a trim gap if `after` lies in the trimmed
/// range, the data record at `after + 1` if one exists, the seal marker if
/// the log is sealed, and `None` on an open log with nothing further.
pub open spec fn spec_read_next(m: LogModel, after: int) -> Option<RecordModel> {
    if after < m.trim_point {
        Some(RecordModel::TrimGap { offset: after + 1, until: m.trim_point })
    } else if after < m.entries.len() {
        Some(RecordModel::Data { offset: after + 1, payload: m.entries[after] })
    } else if m.sealed {
        Some(RecordModel::Seal { offset: after })
    } else {
        None
    }
}

/// The set of logs hosted by one node, one per partition.
#[derive(Debug)]
pub struct Bifrost {
    pub logs: Vec<LogState>,
}

/// All hosted logs are well formed.
pub open spec fn bifrost_wf(b: Bifrost) -> bool {
    forall|i: int| 0 <= i < b.logs@.len() ==> log_wf(#[trigger] b.logs@[i]@)
}

impl Bifrost {
    /// A fresh node hosting `num_logs` empty, open logs.
    pub fn new(num_logs: usize) -> (r: Self)
        ensures
            r.logs@.len() == num_logs,
            forall|i: int|
                0 <= i < num_logs ==> (#[trigger] r.logs@[i]@) == (LogModel {
                    entries: Seq::<Seq<u8>>::empty(),
                    trim_point: 0,
                    sealed: false,
                }),
            bifrost_wf(r),
    {
        let mut logs: Vec<LogState> = Vec::new();
        let mut i: usize = 0;
        while i < num_logs
            invariant
                0 <= i <= num_logs,
                logs@.len() == i,
                forall|j: int|
                    0 <= j < i ==> (#[trigger] logs@[j]@) == (LogModel {
                        entries: Seq::<Seq<u8>>::empty(),
                        trim_point: 0,
                        sealed: false,
                    }),
            decreases num_logs - i,
        {
            let state = LogState { entries: Vec::new(), trim_point: 0, sealed: false };
            proof {
                assert(state@.entries =~= Seq::<Seq<u8>>::empty());
            }
            logs.push(state);
            i = i + 1;
        }
        Bifrost { logs }
    }

    /// Whether a log id is hosted here.
    pub open spec fn spec_has_log(&self, log_id: LogId) -> bool {
        (log_id as int) < self.logs@.len()
    }

    /// Appends `payload` as the next record of log `log_id` and returns
    /// its offset: always the previous length plus one, so offsets number
    /// the records densely in append order. All-or-nothing: on an unknown
    /// or sealed log nothing changes.
    pub fn append(&mut self, log_id: LogId, payload: Vec<u8>) -> (r: Result<Lsn, LogError>)
        ensures
            !old(self).spec_has_log(log_id) ==> r == Err::<Lsn, LogError>(LogError::UnknownLogId)
                && *final(self) == *old(self),
            old(self).spec_has_log(log_id) && old(self).logs@[log_id as int]@.sealed ==> r == Err::<
                Lsn,
                LogError,
            >(LogError::Sealed) && *final(self) == *old(self),
            old(self).spec_has_log(log_id) && !old(self).logs@[log_id as int]@.sealed ==> ({
                let m = old(self).logs@[log_id as int]@;
                &&& r == Ok::<Lsn, LogError>((m.entries.len() + 1) as Lsn)
                &&& final(self).logs@.len() == old(self).logs@.len()
                &&& (forall|j: int|
                    0 <= j < old(self).logs@.len() && j != log_id as int
                        ==> final(self).logs@[j] == old(self).logs@[j])
                &&& final(self).logs@[log_id as int]@ == (LogModel {
                    entries: m.entries.push(payload@),
                    trim_point: m.trim_point,
                    sealed: false,
                })
            }),
            bifrost_wf(*old(self)) ==> bifrost_wf(*final(self)),
    {
        if log_id >= self.logs.len() as u64 {
            return Err(LogError::UnknownLogId);
        }
        let idx = log_id as usize;
        if self.logs[idx].sealed {
            return Err(LogError::Sealed);
        }
        let log = &mut self.logs[idx];
        let ghost m = log@;
        log.entries.push(payload);
        proof {
            assert(self.logs@[log_id as int]@.entries =~= m.entries.push(payload@));
        }
        let lsn = self.logs[idx].entries.len() as u64;
        Ok(lsn)
    }

    /// Returns the first record of `log_id` beyond `after`, or `None`
    /// when a caller would have to wait for a further append. Reading
    /// never changes the log.
    pub fn read_next_single_opt(&self, log_id: LogId, after: Lsn) -> (r: Result<
        Option<LogRecord>,
        LogError,
    >)
        ensures
            !self.spec_has_log(log_id) ==> r == Err::<Option<LogRecord>, LogError>(
                LogError::UnknownLogId,
            ),
            self.spec_has_log(log_id) ==> ({
                &&& r matches Ok(o)
                &&& opt_record_model(o) == spec_read_next(self.logs@[log_id as int]@, after as int)
            }),
    {
        if log_id >= self.logs.len() as u64 {
            return Err(LogError::UnknownLogId);
        }
        let log = &self.logs[log_id as usize];
        if after < log.trim_point {
            Ok(Some(LogRecord { offset: after + 1, record: Record::TrimGap(TrimGap { until: log.trim_point }) }))
        } else if after < log.entries.len() as u64 {
            let payload = log.entries[after as usize].clone();
            proof {
                assert(payload@ == self.logs@[log_id as int]@.entries[after as int]);
            }
            Ok(Some(LogRecord { offset: after + 1, record: Record::Data(payload) }))
        } else if log.sealed {
            Ok(Some(LogRecord { offset: after, record: Record::Seal }))
        } else {
            Ok(None)
        }
    }

    /// Logically removes the records of `log_id` at offsets up to `until`,
    /// clamped to the log's end: the trim point only ever moves forward,
    /// and subsequent reads below it observe one trim gap. An `until`
    /// beyond the last record trims exactly the existing records, so the
    /// gap's `until` never runs past the end and records appended later
    /// always land above the trim point.
    pub fn trim(&mut self, log_id: LogId, until: Lsn) -> (r: Result<(), LogError>)
        ensures
            !old(self).spec_has_log(log_id) ==> r == Err::<(), LogError>(LogError::UnknownLogId)
                && *final(self) == *old(self),
            old(self).spec_has_log(log_id) ==> ({
                let m = old(self).logs@[log_id as int]@;
                let clamped = if until as int <= m.entries.len() {
                    until as int
                } else {
                    m.entries.len() as int
                };
                let new_tp = if clamped >= m.trim_point {
                    clamped
                } else {
                    m.trim_point
                };
                &&& r == Ok::<(), LogError>(())
                &&& final(self).logs@.len() == old(self).logs@.len()
                &&& (forall|j: int|
                    0 <= j < old(self).logs@.len() && j != log_id as int
                        ==> final(self).logs@[j] == old(self).logs@[j])
                &&& final(self).logs@[log_id as int]@ == (LogModel {
                    entries: m.entries,
                    trim_point: new_tp,
                    sealed: m.sealed,
                })
            }),
            bifrost_wf(*old(self)) ==> bifrost_wf(*final(self)),
    {
        if log_id >= self.logs.len() as u64 {
            return Err(LogError::UnknownLogId);
        }
        let idx = log_id as usize;
        let log = &mut self.logs[idx];
        let len = log.entries.len() as u64;
        let clamped = if until <= len {
            until
        } else {
            len
        };
        if clamped > log.trim_point {
            log.trim_point = clamped;
        }
        Ok(())
    }

    /// Marks `log_id` terminal: appends fail from now on, and readers
    /// past the end observe the seal record instead of waiting. A log
    /// never becomes unsealed again.
    pub fn seal(&mut self, log_id: LogId) -> (r: Result<(), LogError>)
        ensures
            !old(self).spec_has_log(log_id) ==> r == Err::<(), LogError>(LogError::UnknownLogId)
                && *final(self) == *old(self),
            old(self).spec_has_log(log_id) ==> ({
                let m = old(self).logs@[log_id as int]@;
                &&& r == Ok::<(), LogError>(())
                &&& final(self).logs@.len() == old(self).logs@.len()
                &&& (forall|j: int|
                    0 <= j < old(self).logs@.len() && j != log_id as int
                        ==> final(self).logs@[j] == old(self).logs@[j])
                &&& final(self).logs@[log_id as int]@ == (LogModel {
                    entries: m.entries,
                    trim_point: m.trim_point,
                    sealed: true,
                })
            }),
            bifrost_wf(*old(self)) ==> bifrost_wf(*final(self)),
    {
        if log_id >= self.logs.len() as u64 {
            return Err(LogError::UnknownLogId);
        }
        let idx = log_id as usize;
        let log = &mut self.logs[idx];
        log.sealed = true;
        Ok(())
    }

    /// A cursor over `log_id` that will deliver the records after `after`.
    /// Each reader owns its pointer alone: readers never share state.
    pub fn create_reader(&self, log_id: LogId, after: Lsn) -> (r: LogReadStream)
        ensures
            r.log_id == log_id,
            r.read_pointer == after,
    {
        LogReadStream::new(log_id, after)
    }
}

/// On an untrimmed log, reading from any position yields exactly the
/// records in append order: position `i` delivers the `i`-th appended
/// payload at offset `i + 1`, and the reader's pointer then stands at
/// `i + 1`, so successive reads enumerate the appended payloads in order.
pub proof fn lemma_read_follows_append_order(m: LogModel, i: int)
    requires
        log_wf(m),
        m.trim_point == 0,
        0 <= i < m.entries.len(),
    ensures
        spec_read_next(m, i) == Some(
            RecordModel::Data { offset: i + 1, payload: m.entries[i] },
        ),
        crate::read_stream::seek_target(
            RecordModel::Data { offset: i + 1, payload: m.entries[i] },
            i,
        ) == i + 1,
{
}

/// Trimming to at least the reader's position (within the log) and then
/// reading yields exactly one trim gap whose `until` is no less than the
/// trim argument, and the reader's pointer lands on that `until`, so the
/// next read resumes beyond everything trimmed.
pub proof fn lemma_trim_then_read(m: LogModel, until: int, after: int)
    requires
        log_wf(m),
        0 <= until <= m.entries.len(),
        0 <= after < until,
    ensures
        ({
            let new_tp = if until >= m.trim_point {
                until
            } else {
                m.trim_point
            };
            let trimmed = LogModel { entries: m.entries, trim_point: new_tp, sealed: m.sealed };
            &&& log_wf(trimmed)
            &&& spec_read_next(trimmed, after) == Some(
                RecordModel::TrimGap { offset: after + 1, until: new_tp },
            )
            &&& new_tp >= until
            &&& crate::read_stream::seek_target(
                RecordModel::TrimGap { offset: after + 1, until: new_tp },
                after,
            ) == new_tp
        }),
{
}

/// Reading past the last record of a sealed log yields the seal record at
/// once: the end of a sealed log never makes a reader wait.
pub proof fn lemma_sealed_read_is_eof(m: LogModel, after: int)
    requires
        log_wf(m),
        m.sealed,
        after >= m.entries.len(),
        after >= m.trim_point,
    ensures
        spec_read_next(m, after) == Some(RecordModel::Seal { offset: after }),
{
}

} // verus!
