//! The log of finished updates, newest first, bounded in length.

use crate::state::clone_strings;
use crate::text::str_eq;
use vstd::prelude::*;
use vstd::string::*;

verus! {

/// One finished update.
#[derive(Debug)]
pub struct UpdateLogEntry {
    /// The time of the update as RFC 3339 text.
    pub timestamp: String,
    /// `bucket` or `package`.
    pub operation_type: String,
    /// `success`, `partial` or `failed`.
    pub operation_result: String,
    pub success_count: u32,
    pub total_count: u32,
    pub details: Vec<String>,
}

/// The mathematical value of an `UpdateLogEntry`.
pub struct LogEntryView {
    pub timestamp: Seq<char>,
    pub operation_type: Seq<char>,
    pub operation_result: Seq<char>,
    pub success_count: u32,
    pub total_count: u32,
    pub details: Seq<Seq<char>>,
}

impl View for UpdateLogEntry {
    type V = LogEntryView;

    open spec fn view(&self) -> LogEntryView {
        LogEntryView {
            timestamp: self.timestamp@,
            operation_type: self.operation_type@,
            operation_result: self.operation_result@,
            success_count: self.success_count,
            total_count: self.total_count,
            details: self.details.deep_view(),
        }
    }
}

impl DeepView for UpdateLogEntry {
    type V = LogEntryView;

    open spec fn deep_view(&self) -> LogEntryView {
        self@
    }
}

impl Clone for UpdateLogEntry {
    fn clone(&self) -> (r: Self)
        ensures
            r@ == self@,
    {
        UpdateLogEntry {
            timestamp: self.timestamp.clone(),
            operation_type: self.operation_type.clone(),
            operation_result: self.operation_result.clone(),
            success_count: self.success_count,
            total_count: self.total_count,
            details: clone_strings(&self.details),
        }
    }
}

/// The entries that satisfy `keep`, in their order.
pub open spec fn kept(logs: Seq<LogEntryView>, keep: spec_fn(LogEntryView) -> bool) -> Seq<
    LogEntryView,
>
    decreases logs.len(),
{
    if logs.len() == 0 {
        Seq::empty()
    } else {
        kept(logs.drop_last(), keep) + (if keep(logs.last()) {
            seq![logs.last()]
        } else {
            Seq::empty()
        })
    }
}

/// The entries of another time than `timestamp`.
pub open spec fn without_timestamp(logs: Seq<LogEntryView>, timestamp: Seq<char>) -> Seq<
    LogEntryView,
> {
    kept(logs, |e: LogEntryView| e.timestamp != timestamp)
}

/// The entries of the type `operation_type`.
pub open spec fn of_type(logs: Seq<LogEntryView>, operation_type: Seq<char>) -> Seq<LogEntryView> {
    kept(logs, |e: LogEntryView| e.operation_type == operation_type)
}

/// The first `count` entries, or all where there are fewer.
pub open spec fn recent(logs: Seq<LogEntryView>, count: nat) -> Seq<LogEntryView> {
    if count < logs.len() {
        logs.take(count as int)
    } else {
        logs
    }
}

/// The log of updates: the newest entry first, at most `max_entries` after
/// an entry was added.
#[derive(Debug)]
pub struct UpdateLogStore {
    pub logs: Vec<UpdateLogEntry>,
    pub max_entries: usize,
}

impl UpdateLogStore {
    /// Creates a store that holds `logs`, newest first.
    pub fn new(logs: Vec<UpdateLogEntry>, max_entries: usize) -> (r: Self)
        ensures
            r.logs == logs,
            r.max_entries == max_entries,
    {
        UpdateLogStore { logs, max_entries }
    }

    /// Puts an entry in front and drops the entries beyond `max_entries`.
    pub fn add_log_entry(&mut self, entry: UpdateLogEntry)
        ensures
            final(self).max_entries == old(self).max_entries,
            final(self).logs.deep_view() == recent(
                seq![entry@] + old(self).logs.deep_view(),
                old(self).max_entries as nat,
            ),
    {
        self.logs.insert(0, entry);
        if self.logs.len() > self.max_entries {
            self.logs.truncate(self.max_entries);
        }
    }

    /// Drops every entry.
    pub fn clear_all_logs(&mut self)
        ensures
            final(self).max_entries == old(self).max_entries,
            final(self).logs.deep_view() == Seq::<LogEntryView>::empty(),
    {
        self.logs.clear();
    }

    /// Drops the entries of the time `timestamp`.
    pub fn remove_log_entry(&mut self, timestamp: &str)
        ensures
            final(self).max_entries == old(self).max_entries,
            final(self).logs.deep_view() == without_timestamp(
                old(self).logs.deep_view(),
                timestamp@,
            ),
    {
        let ghost all = self.logs.deep_view();
        let ghost keep = |e: LogEntryView| e.timestamp != timestamp@;
        let mut out: Vec<UpdateLogEntry> = Vec::new();
        let mut k: usize = 0;
        while k < self.logs.len()
            invariant
                k <= self.logs.len(),
                all == self.logs.deep_view(),
                self.max_entries == old(self).max_entries,
                keep == (|e: LogEntryView| e.timestamp != timestamp@),
                out.deep_view() == kept(all.take(k as int), keep),
            decreases self.logs.len() - k,
        {
            let ghost before = out.deep_view();
            proof {
                let now = all.take(k + 1);
                assert(now.drop_last() =~= all.take(k as int));
            }
            if !str_eq(self.logs[k].timestamp.as_str(), timestamp) {
                out.push(self.logs[k].clone());
            }
            assert(out.deep_view() =~= before + (if keep(all[k as int]) {
                seq![all[k as int]]
            } else {
                Seq::empty()
            }));
            k += 1;
        }
        assert(all.take(self.logs.len() as int) =~= all);
        self.logs = out;
    }

    /// Returns the `count` newest entries, or all where there are fewer.
    pub fn get_recent_logs(&self, count: usize) -> (r: Vec<UpdateLogEntry>)
        ensures
            r.deep_view() == recent(self.logs.deep_view(), count as nat),
    {
        let limit = if count < self.logs.len() {
            count
        } else {
            self.logs.len()
        };
        let mut out: Vec<UpdateLogEntry> = Vec::new();
        let mut k: usize = 0;
        while k < limit
            invariant
                k <= limit <= self.logs.len(),
                out.len() == k,
                forall|i: int| 0 <= i < k ==> out@[i]@ == self.logs@[i]@,
            decreases limit - k,
        {
            out.push(self.logs[k].clone());
            k += 1;
        }
        out
    }

    /// Returns all entries, newest first.
    pub fn get_all_logs(&self) -> (r: Vec<UpdateLogEntry>)
        ensures
            r.deep_view() == self.logs.deep_view(),
    {
        self.get_recent_logs(self.logs.len())
    }

    /// Returns the entries of the type `operation_type`, newest first.
    pub fn get_logs_by_type(&self, operation_type: &str) -> (r: Vec<UpdateLogEntry>)
        ensures
            r.deep_view() == of_type(self.logs.deep_view(), operation_type@),
    {
        let ghost all = self.logs.deep_view();
        let ghost keep = |e: LogEntryView| e.operation_type == operation_type@;
        let mut out: Vec<UpdateLogEntry> = Vec::new();
        let mut k: usize = 0;
        while k < self.logs.len()
            invariant
                k <= self.logs.len(),
                all == self.logs.deep_view(),
                keep == (|e: LogEntryView| e.operation_type == operation_type@),
                out.deep_view() == kept(all.take(k as int), keep),
            decreases self.logs.len() - k,
        {
            let ghost before = out.deep_view();
            proof {
                let now = all.take(k + 1);
                assert(now.drop_last() =~= all.take(k as int));
            }
            if str_eq(self.logs[k].operation_type.as_str(), operation_type) {
                out.push(self.logs[k].clone());
            }
            assert(out.deep_view() =~= before + (if keep(all[k as int]) {
                seq![all[k as int]]
            } else {
                Seq::empty()
            }));
            k += 1;
        }
        assert(all.take(self.logs.len() as int) =~= all);
        out
    }
}

} // verus!
