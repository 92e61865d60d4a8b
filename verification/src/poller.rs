//! The decision that turns readings of the clipboard into entries.

use crate::entry::EntryView;
use crate::history::{bounded_push, History};
use crate::text_view;
use crate::timestamp::Timestamp;
use vstd::prelude::*;

verus! {

/// Whether a reading is a change worth recording: the read succeeded, gave
/// some text, and the text is not the one that was seen last.
pub open spec fn is_fresh(last: Seq<char>, reading: Option<Seq<char>>) -> bool {
    match reading {
        Some(content) => content.len() > 0 && content != last,
        None => false,
    }
}

/// The text that is remembered as seen last once `reading` has been looked at.
pub open spec fn remembered(last: Seq<char>, reading: Option<Seq<char>>) -> Seq<char> {
    if is_fresh(last, reading) {
        reading->0
    } else {
        last
    }
}

/// One round of polling, as mathematics: from the text seen last and the log,
/// to both after `reading` has been looked at, at the moment `timestamp`.
pub open spec fn poll_step(
    last: Seq<char>,
    log: Seq<EntryView>,
    max_entries: nat,
    reading: Option<Seq<char>>,
    timestamp: Timestamp,
) -> (Seq<char>, Seq<EntryView>) {
    if is_fresh(last, reading) {
        (reading->0, bounded_push(log, EntryView { content: reading->0, timestamp }, max_entries))
    } else {
        (last, log)
    }
}

/// Remembers the text that was last seen on the clipboard.
pub struct Poller {
    last_content: String,
}

impl View for Poller {
    type V = Seq<char>;

    closed spec fn view(&self) -> Seq<char> {
        self.last_content@
    }
}

impl Poller {
    /// A poller that has seen nothing yet.
    pub fn new() -> (poller: Poller)
        ensures
            poller@ == Seq::<char>::empty(),
    {
        Poller { last_content: String::new() }
    }

    /// The text that was seen last.
    pub fn last_content(&self) -> (text: &String)
        ensures
            text@ == self@,
    {
        &self.last_content
    }

    /// Looks at one reading of the clipboard, `None` standing for a read that
    /// failed. A fresh text is remembered and handed back for recording;
    /// anything else changes nothing and gives `None`.
    pub fn observe(&mut self, reading: Option<String>) -> (fresh: Option<String>)
        ensures
            final(self)@ == remembered(old(self)@, text_view(reading)),
            text_view(fresh) == if is_fresh(old(self)@, text_view(reading)) {
                text_view(reading)
            } else {
                None
            },
    {
        match reading {
            Some(content) => {
                if !content.as_str().is_empty() && !(content == self.last_content) {
                    self.last_content = content.clone();
                    Some(content)
                } else {
                    None
                }
            },
            None => None,
        }
    }

    /// One round of polling: looks at `reading` and, if it is fresh, records
    /// it in `history` as seen now. Tells whether it recorded.
    pub fn tick(&mut self, history: &mut History, reading: Option<String>) -> (recorded: bool)
        requires
            old(history).wf(),
        ensures
            final(history).wf(),
            final(history).bound() == old(history).bound(),
            recorded == is_fresh(old(self)@, text_view(reading)),
            !recorded ==> final(self)@ == old(self)@ && final(history)@ == old(history)@,
            recorded ==> exists|timestamp: Timestamp|
                #[trigger] timestamp.in_range() && (final(self)@, final(history)@) == poll_step(
                    old(self)@,
                    old(history)@,
                    old(history).bound(),
                    text_view(reading),
                    timestamp,
                ),
    {
        match self.observe(reading) {
            Some(content) => {
                history.append(content);
                true
            },
            None => false,
        }
    }
}

} // verus!
