//! Append-only, fixed-capacity trajectory journal.
//!
//! The journal retains a sequence of time-tagged records, oldest first. A
//! write appends one record together with the caller's time tag; the record
//! capacity is fixed at construction and a write into a full journal is
//! refused with [`JournalError::StorageExhausted`]. The latest record can be
//! read back, all retained records can be read in order, and a cleanup
//! drains every retained record, leaving the journal logically empty.

use vstd::prelude::*;

use crate::error::JournalError;

verus! {

/// An append-only log of time-tagged records with a fixed record capacity.
pub struct Journal<R> {
    entries: Vec<(R, u64)>,
    capacity: usize,
}

impl<R> Journal<R> {
    /// All retained entries, oldest first: each record with the time tag it
    /// was written under.
    pub closed spec fn entries_seq(&self) -> Seq<(R, u64)> {
        self.entries@
    }

    /// The retained records, oldest first, without their time tags.
    pub open spec fn records(&self) -> Seq<R> {
        self.entries_seq().map(|i: int, e: (R, u64)| e.0)
    }

    /// The number of records the journal can retain, fixed at construction.
    pub closed spec fn cap(&self) -> int {
        self.capacity as int
    }

    /// The journal never retains more records than its capacity.
    pub open spec fn wf(&self) -> bool {
        self.entries_seq().len() <= self.cap()
    }

    /// A fresh journal able to retain `capacity` records.
    pub fn init(capacity: usize) -> (j: Self)
        ensures
            j.entries_seq() == Seq::<(R, u64)>::empty(),
            j.cap() == capacity as int,
            j.wf(),
    {
        Journal { entries: Vec::new(), capacity }
    }

    /// Appends `record` under the time tag `time`. Refused, with the journal
    /// unchanged, when the journal already retains as many records as its
    /// capacity allows.
    pub fn write(&mut self, record: R, time: u64) -> (r: Result<(), JournalError>)
        ensures
            old(self).entries_seq().len() < old(self).cap() <==> r is Ok,
            r is Ok ==> final(self).entries_seq() == old(self).entries_seq().push(
                (record, time),
            ),
            r is Err ==> r == Err::<(), JournalError>(JournalError::StorageExhausted)
                && *final(self) == *old(self),
            final(self).cap() == old(self).cap(),
            old(self).wf() ==> final(self).wf(),
    {
        if self.entries.len() < self.capacity {
            self.entries.push((record, time));
            Ok(())
        } else {
            Err(JournalError::StorageExhausted)
        }
    }

    /// The most recently written record; refused when nothing is retained.
    pub fn read_state(&self) -> (r: Result<&R, JournalError>)
        ensures
            self.entries_seq().len() > 0 <==> r is Ok,
            r matches Ok(rec) ==> *rec == self.records().last(),
            r matches Err(e) ==> e == JournalError::NoData,
    {
        if self.entries.len() == 0 {
            return Err(JournalError::NoData);
        }
        let e = &self.entries[self.entries.len() - 1];
        Ok(&e.0)
    }

    /// All retained entries, oldest first.
    pub fn read_all(&self) -> (r: Vec<(R, u64)>) where R: Copy
        ensures
            r@ == self.entries_seq(),
    {
        let mut out: Vec<(R, u64)> = Vec::new();
        let mut i: usize = 0;
        while i < self.entries.len()
            invariant
                i <= self.entries@.len(),
                out@ == self.entries@.subrange(0, i as int),
            decreases self.entries@.len() - i,
        {
            out.push(self.entries[i]);
            assert(out@ =~= self.entries@.subrange(0, i + 1 as int));
            i += 1;
        }
        assert(out@ =~= self.entries@);
        out
    }

    /// Removes and returns all retained entries, oldest first; the journal
    /// becomes logically empty while keeping its capacity.
    pub fn cleanup(&mut self) -> (r: Vec<(R, u64)>)
        ensures
            r@ == old(self).entries_seq(),
            final(self).entries_seq() == Seq::<(R, u64)>::empty(),
            final(self).cap() == old(self).cap(),
            final(self).wf(),
    {
        let mut out: Vec<(R, u64)> = Vec::new();
        core::mem::swap(&mut self.entries, &mut out);
        out
    }
}

} // verus!
