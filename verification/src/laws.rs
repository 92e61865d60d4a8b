//! What holds of the log and of polling, whatever is recorded.

use crate::entry::EntryView;
use crate::history::bounded_push;
use crate::poller::{is_fresh, poll_step};
use crate::timestamp::Timestamp;
use vstd::prelude::*;

verus! {

/// The log that results from recording `entries`, in their order, into an
/// empty log with a bound of `max_entries`.
pub open spec fn replay(entries: Seq<EntryView>, max_entries: nat) -> Seq<EntryView>
    decreases entries.len(),
{
    if entries.len() == 0 {
        Seq::empty()
    } else {
        bounded_push(replay(entries.drop_last(), max_entries), entries.last(), max_entries)
    }
}

/// The last `count` items of `entries`, or all of them where there are fewer.
pub open spec fn newest(entries: Seq<EntryView>, count: nat) -> Seq<EntryView> {
    if entries.len() <= count {
        entries
    } else {
        entries.subrange(entries.len() - count, entries.len() as int)
    }
}

/// No entry of `log` has the text of the entry before it.
pub open spec fn neighbours_differ(log: Seq<EntryView>) -> bool {
    forall|i: int| 0 < i < log.len() ==> (#[trigger] log[i]).content != log[i - 1].content
}

/// The text seen last is that of the newest entry, where there is one.
pub open spec fn last_is_newest(last: Seq<char>, log: Seq<EntryView>) -> bool {
    log.len() > 0 ==> log.last().content == last
}

/// A log within its bound stays within it when an entry is recorded. Below
/// the bound the log grows by the entry and loses nothing; at the bound it
/// keeps its length, and exactly its oldest entry leaves.
pub proof fn law_append_is_bounded(log: Seq<EntryView>, entry: EntryView, max_entries: nat)
    requires
        log.len() <= max_entries,
    ensures
        bounded_push(log, entry, max_entries).len() <= max_entries,
        log.len() < max_entries ==> bounded_push(log, entry, max_entries) == log.push(entry),
        log.len() == max_entries && max_entries > 0 ==> bounded_push(log, entry, max_entries)
            == log.drop_first().push(entry),
        max_entries == 0 ==> bounded_push(log, entry, max_entries) == log,
{
    let grown = log.push(entry);
    if log.len() == max_entries {
        assert(grown.drop_first() =~= if max_entries > 0 {
            log.drop_first().push(entry)
        } else {
            log
        });
    }
}

/// Whatever is recorded, in whatever number, the log never passes its bound.
pub proof fn law_size_is_bounded(entries: Seq<EntryView>, max_entries: nat)
    ensures
        replay(entries, max_entries).len() <= max_entries,
        replay(entries, max_entries).len() <= entries.len(),
{
    law_log_is_newest(entries, max_entries);
}

/// The log holds the newest of what was recorded, as many as the bound
/// allows, in the order of recording and with the oldest first: nothing is
/// reordered, doubled or lost but from the old end.
pub proof fn law_log_is_newest(entries: Seq<EntryView>, max_entries: nat)
    ensures
        replay(entries, max_entries) == newest(entries, max_entries),
    decreases entries.len(),
{
    if entries.len() > 0 {
        let before = entries.drop_last();
        law_log_is_newest(before, max_entries);
        assert(replay(entries, max_entries) =~= newest(entries, max_entries));
    } else {
        assert(replay(entries, max_entries) =~= newest(entries, max_entries));
    }
}

/// Polling the same text twice in a row records it at most once: the second
/// round changes neither the log nor the text seen last.
pub proof fn law_repeat_is_not_recorded(
    last: Seq<char>,
    log: Seq<EntryView>,
    max_entries: nat,
    content: Seq<char>,
    first: Timestamp,
    second: Timestamp,
)
    ensures
        ({
            let once = poll_step(last, log, max_entries, Some(content), first);
            poll_step(once.0, once.1, max_entries, Some(content), second) == once
        }),
{
}

/// A reading that failed, or that gave no text, is never recorded.
pub proof fn law_nothing_is_not_recorded(
    last: Seq<char>,
    log: Seq<EntryView>,
    max_entries: nat,
    timestamp: Timestamp,
)
    ensures
        poll_step(last, log, max_entries, None, timestamp) == (last, log),
        poll_step(last, log, max_entries, Some(Seq::<char>::empty()), timestamp) == (last, log),
{
}

/// A text that differs from the one seen last is recorded, even where the
/// log already holds it further back.
pub proof fn law_change_is_recorded(
    last: Seq<char>,
    log: Seq<EntryView>,
    max_entries: nat,
    content: Seq<char>,
    timestamp: Timestamp,
)
    requires
        content.len() > 0,
        content != last,
    ensures
        poll_step(last, log, max_entries, Some(content), timestamp) == (
            content,
            bounded_push(log, EntryView { content, timestamp }, max_entries),
        ),
{
}

/// In a log that only polling fills, no entry repeats the text of the entry
/// before it, and polling keeps it so.
pub proof fn law_polling_keeps_neighbours_apart(
    last: Seq<char>,
    log: Seq<EntryView>,
    max_entries: nat,
    reading: Option<Seq<char>>,
    timestamp: Timestamp,
)
    requires
        neighbours_differ(log),
        last_is_newest(last, log),
    ensures
        ({
            let next = poll_step(last, log, max_entries, reading, timestamp);
            neighbours_differ(next.1) && last_is_newest(next.0, next.1)
        }),
{
    if is_fresh(last, reading) {
        let entry = EntryView { content: reading->0, timestamp };
        let grown = log.push(entry);
        assert(neighbours_differ(grown)) by {
            assert forall|i: int| 0 < i < grown.len() implies (#[trigger] grown[i]).content
                != grown[i - 1].content by {
                if i < log.len() {
                    assert(grown[i] == log[i]);
                }
            }
        }
        let next = bounded_push(log, entry, max_entries);
        if grown.len() > max_entries {
            assert forall|i: int| 0 < i < next.len() implies (#[trigger] next[i]).content
                != next[i - 1].content by {
                assert(next[i] == grown[i + 1]);
                assert(next[i - 1] == grown[i]);
            }
        }
    }
}

} // verus!
