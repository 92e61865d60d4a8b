//! One recorded clipboard text.

use crate::timestamp::Timestamp;
use vstd::prelude::*;

verus! {

/// What an entry holds, as mathematics: the characters of its text and the
/// moment at which it was recorded.
pub struct EntryView {
    pub content: Seq<char>,
    pub timestamp: Timestamp,
}

/// A clipboard text and the moment at which it was recorded. Once made, an
/// entry does not change.
#[derive(Debug)]
pub struct ClipboardEntry {
    content: String,
    timestamp: Timestamp,
}

impl View for ClipboardEntry {
    type V = EntryView;

    closed spec fn view(&self) -> EntryView {
        EntryView { content: self.content@, timestamp: self.timestamp }
    }
}

impl Clone for ClipboardEntry {
    fn clone(&self) -> (copy: ClipboardEntry)
        ensures
            copy@ == self@,
    {
        ClipboardEntry { content: self.content.clone(), timestamp: self.timestamp }
    }
}

impl ClipboardEntry {
    /// The entry that holds `content`, recorded at `timestamp`.
    pub(crate) fn new(content: String, timestamp: Timestamp) -> (entry: ClipboardEntry)
        ensures
            entry@ == (EntryView { content: content@, timestamp }),
    {
        ClipboardEntry { content, timestamp }
    }

    /// The recorded text.
    pub fn content(&self) -> (text: &String)
        ensures
            text@ == self@.content,
    {
        &self.content
    }

    /// The moment at which the text was recorded.
    pub fn timestamp(&self) -> (moment: Timestamp)
        ensures
            moment == self@.timestamp,
    {
        self.timestamp
    }
}

} // verus!
