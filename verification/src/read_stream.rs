//! A per-consumer cursor over one log.
//!
//! The stream owns its read pointer exclusively and repositions it after
//! each delivered record: data and seal records move it to their offset,
//! a trim gap fast-forwards it to the end of the gap so the gap is never
//! observed twice. The pointer never moves backwards, and a read that
//! delivers nothing leaves it untouched, so a retried read returns the
//! identical next record.

use vstd::prelude::*;

verus! {

use crate::log::{
    Bifrost, LogError, LogId, LogRecord, Lsn, Record, RecordModel, opt_record_model,
    spec_read_next,
};

/// A cursor over one log: the log's id and an exclusively owned read
/// pointer, the exclusive lower bound of what is still to be read.
#[derive(Debug, Clone, PartialEq, Eq, Structural)]
pub struct LogReadStream {
    /// Which log this stream reads.
    pub log_id: LogId,
    /// The offset of the last resolved record, or the starting position
    /// before any read.
    pub read_pointer: Lsn,
}

/// Where the pointer stands after delivering `rec` from position `after`.
pub open spec fn seek_target(rec: RecordModel, after: int) -> int {
    match rec {
        RecordModel::Data { offset, .. } => offset,
        RecordModel::TrimGap { until, .. } => until,
        RecordModel::Seal { offset } => offset,
    }
}

impl LogReadStream {
    /// A stream over `log_id` positioned after `after`.
    pub(crate) fn new(log_id: LogId, after: Lsn) -> (r: Self)
        ensures
            r.log_id == log_id,
            r.read_pointer == after,
    {
        LogReadStream { log_id, read_pointer: after }
    }

    /// Repositions the pointer past the delivered record: to the record's
    /// offset, or past the whole gap for a trim gap.
    fn seek_to(&mut self, record: &LogRecord)
        ensures
            final(self).log_id == old(self).log_id,
            final(self).read_pointer as int == seek_target(
                crate::log::record_model(*record),
                old(self).read_pointer as int,
            ),
    {
        let read_pointer: Lsn = match &record.record {
            Record::TrimGap(trim_gap) => trim_gap.until,
            Record::Data(_) => record.offset,
            Record::Seal => record.offset,
        };
        self.read_pointer = read_pointer;
    }

    /// Delivers the next record beyond the pointer if one is available
    /// now, repositioning the pointer past it; returns `None`, with the
    /// pointer untouched, when a caller would have to wait. The pointer
    /// never decreases, and after a trim gap it stands exactly at the
    /// gap's `until`.
    pub fn read_next_opt(&mut self, bifrost: &Bifrost) -> (r: Result<Option<LogRecord>, LogError>)
        ensures
            final(self).log_id == old(self).log_id,
            !bifrost.spec_has_log(old(self).log_id) ==> r == Err::<Option<LogRecord>, LogError>(
                LogError::UnknownLogId,
            ) && *final(self) == *old(self),
            bifrost.spec_has_log(old(self).log_id) ==> ({
                let m = bifrost.logs@[old(self).log_id as int]@;
                let next = spec_read_next(m, old(self).read_pointer as int);
                &&& r matches Ok(o)
                &&& opt_record_model(o) == next
                &&& match next {
                    None => final(self).read_pointer == old(self).read_pointer,
                    Some(rec) => final(self).read_pointer as int == seek_target(
                        rec,
                        old(self).read_pointer as int,
                    ),
                }
            }),
            final(self).read_pointer >= old(self).read_pointer,
    {
        let record_opt = bifrost.read_next_single_opt(self.log_id, self.read_pointer)?;
        match record_opt {
            Some(record) => {
                self.seek_to(&record);
                Ok(Some(record))
            },
            None => Ok(None),
        }
    }

    /// The offset of the last read record, or the position this stream
    /// was created at before any read.
    pub fn current_read_pointer(&self) -> (r: Lsn)
        ensures
            r == self.read_pointer,
    {
        self.read_pointer
    }
}

} // verus!
