//! A bounded history of clipboard texts.
//!
//! [`History`] is the store: an oldest-first log that holds at most a fixed
//! number of entries and drops its oldest one when a new one would not fit.
//! [`Poller`] decides, for each reading of the clipboard, whether the reading
//! is a change worth recording. Neither touches the clipboard, a lock or a
//! thread: the caller reads, locks and sleeps, and hands plain values in.

use vstd::prelude::*;

pub mod entry;
pub mod history;
pub mod laws;
pub mod poller;
pub mod timestamp;

pub use crate::entry::{ClipboardEntry, EntryView};
pub use crate::history::{History, HistoryError};
pub use crate::poller::Poller;
pub use crate::timestamp::Timestamp;

verus! {

/// How many entries the history of a running monitor holds at most.
pub const MAX_ENTRIES: usize = 100;

/// The pause between two readings of the clipboard, in milliseconds.
pub const POLL_INTERVAL_MILLIS: u64 = 500;

/// The pause between two refreshes of what is shown, in seconds.
pub const REFRESH_INTERVAL_SECS: u64 = 5;

/// The characters of an optional string.
pub open spec fn text_view(text: Option<String>) -> Option<Seq<char>> {
    match text {
        Some(s) => Some(s@),
        None => None,
    }
}

} // verus!
