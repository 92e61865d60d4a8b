//! The bounded log of recorded clipboard texts.

use crate::entry::{ClipboardEntry, EntryView};
use crate::timestamp::{local_now, Timestamp};
use vstd::prelude::*;

verus! {

/// Why a recall gave no text.
#[derive(Clone, Copy, Debug, PartialEq, Eq, Structural)]
pub enum HistoryError {
    /// The log has no entry at the position asked for.
    NotFound,
}

/// The log after `entry` is added to `log` under a bound of `max_entries`:
/// the entry goes to the end, and where that makes the log longer than the
/// bound, the entry at the front leaves.
pub open spec fn bounded_push(log: Seq<EntryView>, entry: EntryView, max_entries: nat) -> Seq<
    EntryView,
> {
    let grown = log.push(entry);
    if grown.len() > max_entries {
        grown.drop_first()
    } else {
        grown
    }
}

/// The text at position `index` of `log`, if the log reaches that far.
pub open spec fn recalled(log: Seq<EntryView>, index: int) -> Result<Seq<char>, HistoryError> {
    if 0 <= index < log.len() {
        Ok(log[index].content)
    } else {
        Err(HistoryError::NotFound)
    }
}

/// The characters of a recalled text.
pub open spec fn recall_view(outcome: Result<String, HistoryError>) -> Result<
    Seq<char>,
    HistoryError,
> {
    match outcome {
        Ok(text) => Ok(text@),
        Err(e) => Err(e),
    }
}

/// The entries of a vector, each as mathematics.
pub open spec fn entry_views(entries: Seq<ClipboardEntry>) -> Seq<EntryView> {
    Seq::new(entries.len(), |i: int| entries[i]@)
}

/// An oldest-first log of clipboard entries that never holds more than
/// `max_entries` of them.
pub struct History {
    entries: Vec<ClipboardEntry>,
    max_entries: usize,
}

impl View for History {
    type V = Seq<EntryView>;

    closed spec fn view(&self) -> Seq<EntryView> {
        entry_views(self.entries@)
    }
}

impl History {
    /// The most entries that the log may hold.
    pub closed spec fn bound(&self) -> nat {
        self.max_entries as nat
    }

    /// The log is within its bound and none of its texts is empty.
    pub open spec fn wf(&self) -> bool {
        &&& self@.len() <= self.bound()
        &&& forall|i: int| 0 <= i < self@.len() ==> (#[trigger] self@[i]).content.len() > 0
    }

    /// An empty log that will hold at most `max_entries` entries.
    pub fn new(max_entries: usize) -> (history: History)
        ensures
            history.wf(),
            history@ == Seq::<EntryView>::empty(),
            history.bound() == max_entries,
    {
        History { entries: Vec::new(), max_entries }
    }

    /// The bound that the log was made with.
    pub fn max_entries(&self) -> (bound: usize)
        ensures
            bound == self.bound(),
    {
        self.max_entries
    }

    /// How many entries the log holds.
    pub fn len(&self) -> (count: usize)
        ensures
            count == self@.len(),
    {
        self.entries.len()
    }

    /// Whether the log holds no entry.
    pub fn is_empty(&self) -> (empty: bool)
        ensures
            empty == (self@.len() == 0),
    {
        self.entries.len() == 0
    }

    /// Records `content` as seen at `timestamp`: the new entry becomes the
    /// newest, and the oldest leaves if the log would otherwise pass its bound.
    pub fn append_at(&mut self, content: String, timestamp: Timestamp)
        requires
            old(self).wf(),
            content@.len() > 0,
        ensures
            final(self).wf(),
            final(self).bound() == old(self).bound(),
            final(self)@ == bounded_push(
                old(self)@,
                EntryView { content: content@, timestamp },
                old(self).bound(),
            ),
    {
        let entry = ClipboardEntry::new(content, timestamp);
        self.entries.push(entry);
        if self.entries.len() > self.max_entries {
            self.entries.remove(0);
        }
        proof {
            let grown = old(self)@.push(entry@);
            assert forall|i: int| 0 <= i < self@.len() implies (#[trigger] self@[i]).content.len()
                > 0 by {
                if self@.len() == grown.len() {
                    assert(self@[i] == grown[i]);
                } else {
                    assert(self@[i] == grown[i + 1]);
                }
            }
        }
    }

    /// Records `content` as seen now, by this machine's clock.
    pub fn append(&mut self, content: String)
        requires
            old(self).wf(),
            content@.len() > 0,
        ensures
            final(self).wf(),
            final(self).bound() == old(self).bound(),
            exists|timestamp: Timestamp|
                #[trigger] timestamp.in_range() && final(self)@ == bounded_push(
                    old(self)@,
                    EntryView { content: content@, timestamp },
                    old(self).bound(),
                ),
    {
        let timestamp = local_now();
        self.append_at(content, timestamp);
    }

    /// A copy of the log as it stands, oldest entry first.
    pub fn snapshot(&self) -> (copy: Vec<ClipboardEntry>)
        ensures
            entry_views(copy@) == self@,
    {
        let mut copy: Vec<ClipboardEntry> = Vec::new();
        let mut i: usize = 0;
        while i < self.entries.len()
            invariant
                i <= self.entries.len(),
                copy.len() == i,
                forall|j: int| 0 <= j < i ==> copy@[j]@ == self.entries@[j]@,
            decreases self.entries.len() - i,
        {
            copy.push(self.entries[i].clone());
            i = i + 1;
        }
        copy
    }

    /// The text of the entry at position `index`, counted from the oldest, or
    /// `NotFound` where the log does not reach that far.
    pub fn recall(&self, index: usize) -> (outcome: Result<String, HistoryError>)
        ensures
            recall_view(outcome) == recalled(self@, index as int),
    {
        if index < self.entries.len() {
            Ok(self.entries[index].content().clone())
        } else {
            Err(HistoryError::NotFound)
        }
    }
}

} // verus!
