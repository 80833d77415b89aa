//! The serial transport: a byte pattern on a serial link stands for the
//! presence change.
//!
//! The caller opens the port and reads from it with a short timeout; each
//! thing that happens there is handed to the watcher, which keeps the bytes
//! received so far and says what to do next. A timeout is no error: it is a
//! tick on which nothing arrived. A link that drops is expected with a cable
//! that can be pulled: the caller waits and opens the port again.

use vstd::prelude::*;

verus! {

/// How long one read waits for bytes, in milliseconds.
pub const READ_TIMEOUT_MILLIS: u64 = 100;

/// How long to wait before the port is opened again, in seconds.
pub const RECONNECT_DELAY_SECS: u64 = 5;

/// How many bytes one read asks for at most.
pub const READ_CHUNK_SIZE: usize = 1024;

/// What happened on the serial link.
#[derive(Clone, Debug, PartialEq, Eq)]
pub enum SerialEvent {
    /// The port was opened.
    Opened,
    /// The port could not be opened.
    OpenFailed,
    /// A read returned these bytes.
    Data(Vec<u8>),
    /// A read timed out: nothing arrived on this tick.
    TimedOut,
    /// A read returned a chunk that cannot be taken in.
    BadChunk,
    /// A read failed: the link has dropped.
    ReadFailed,
}

/// What the caller is to do next.
#[derive(Clone, Copy, Debug, PartialEq, Eq, Structural)]
pub enum SerialAction {
    /// Read again.
    Listen,
    /// Fire the action once, then read again.
    Trigger,
    /// Wait for the reconnect delay, then open the port again.
    Reconnect,
}

/// The pattern watched for and the bytes received since the last trigger.
pub struct SerialWatcher {
    pattern: Vec<u8>,
    received: Vec<u8>,
}

/// Whether the pattern stands in the data at a given offset.
pub open spec fn occurs_at(data: Seq<u8>, pattern: Seq<u8>, at: int) -> bool {
    0 <= at && at + pattern.len() <= data.len() && data.subrange(at, at + pattern.len())
        == pattern
}

/// Whether the pattern stands somewhere in the data, byte for byte.
pub open spec fn contains_pattern(data: Seq<u8>, pattern: Seq<u8>) -> bool {
    exists|at: int| occurs_at(data, pattern, at)
}

/// The default pattern: the four bytes `DE AD BE EF`.
pub fn magic_sequence() -> (pattern: Vec<u8>)
    ensures
        pattern@ == seq![0xDEu8, 0xADu8, 0xBEu8, 0xEFu8],
{
    let mut pattern: Vec<u8> = Vec::new();
    pattern.push(0xDE);
    pattern.push(0xAD);
    pattern.push(0xBE);
    pattern.push(0xEF);
    assert(pattern@ =~= seq![0xDEu8, 0xADu8, 0xBEu8, 0xEFu8]);
    pattern
}

/// Whether the pattern stands in the data at a given offset.
fn stands_at(data: &Vec<u8>, pattern: &Vec<u8>, at: usize) -> (found: bool)
    requires
        at + pattern@.len() <= data@.len(),
    ensures
        found == occurs_at(data@, pattern@, at as int),
{
    let ghost window = data@.subrange(at as int, at + pattern@.len());
    let size: usize = data.len();
    let mut k: usize = 0;
    while k < pattern.len()
        invariant
            k <= pattern@.len(),
            at + pattern@.len() <= data@.len(),
            size == data@.len(),
            window == data@.subrange(at as int, at + pattern@.len()),
            forall|j: int| 0 <= j < k ==> window[j] == pattern@[j],
        decreases pattern@.len() - k,
    {
        if data[at + k] != pattern[k] {
            assert(window[k as int] != pattern@[k as int]);
            return false;
        }
        k = k + 1;
    }
    assert(window =~= pattern@);
    true
}

/// Searches the data for the pattern.
pub fn find_pattern(data: &Vec<u8>, pattern: &Vec<u8>) -> (found: bool)
    ensures
        found == contains_pattern(data@, pattern@),
{
    if pattern.len() > data.len() {
        return false;
    }
    let last: usize = data.len() - pattern.len();
    let mut at: usize = 0;
    while at < last
        invariant
            at <= last,
            last + pattern@.len() == data@.len(),
            forall|earlier: int| 0 <= earlier < at ==> !occurs_at(data@, pattern@, earlier),
        decreases last - at,
    {
        if stands_at(data, pattern, at) {
            return true;
        }
        at = at + 1;
    }
    stands_at(data, pattern, last)
}

impl SerialWatcher {
    /// The pattern watched for.
    pub closed spec fn pattern(&self) -> Seq<u8> {
        self.pattern@
    }

    /// The bytes received since the last trigger.
    pub closed spec fn pending(&self) -> Seq<u8> {
        self.received@
    }

    /// Makes a watcher for a pattern, with nothing received yet. The empty
    /// pattern stands in any data, so with it every read triggers.
    pub fn new(pattern: Vec<u8>) -> (watcher: SerialWatcher)
        ensures
            watcher.pattern() == pattern@,
            watcher.pending() == Seq::<u8>::empty(),
    {
        SerialWatcher { pattern, received: Vec::new() }
    }

    /// How many bytes are kept from earlier reads.
    pub fn pending_len(&self) -> (count: usize)
        ensures
            count == self.pending().len(),
    {
        self.received.len()
    }

    /// Takes in what happened on the link and says what to do next.
    ///
    /// Bytes that arrive are added to those kept from earlier reads. When
    /// the pattern stands in them, the action is triggered once and the kept
    /// bytes are dropped; otherwise they are kept for the next read. A
    /// timeout and a bad chunk change nothing. A failed read or a port that
    /// cannot be opened asks for a reconnect, and a port that is opened
    /// starts with no bytes kept.
    pub fn step(&mut self, event: SerialEvent) -> (action: SerialAction)
        ensures
            final(self).pattern() == old(self).pattern(),
            match event {
                SerialEvent::Data(chunk) => if contains_pattern(
                    old(self).pending() + chunk@,
                    old(self).pattern(),
                ) {
                    action == SerialAction::Trigger && final(self).pending() == Seq::<u8>::empty()
                } else {
                    action == SerialAction::Listen && final(self).pending() == old(self).pending()
                        + chunk@
                },
                SerialEvent::TimedOut | SerialEvent::BadChunk => action == SerialAction::Listen
                    && final(self).pending() == old(self).pending(),
                SerialEvent::Opened => action == SerialAction::Listen && final(self).pending()
                    == Seq::<u8>::empty(),
                SerialEvent::OpenFailed | SerialEvent::ReadFailed => action
                    == SerialAction::Reconnect && final(self).pending() == Seq::<u8>::empty(),
            },
    {
        match event {
            SerialEvent::Data(chunk) => {
                let mut chunk = chunk;
                self.received.append(&mut chunk);
                if find_pattern(&self.received, &self.pattern) {
                    self.received.clear();
                    SerialAction::Trigger
                } else {
                    SerialAction::Listen
                }
            },
            SerialEvent::TimedOut => SerialAction::Listen,
            SerialEvent::BadChunk => SerialAction::Listen,
            SerialEvent::Opened => {
                self.received.clear();
                SerialAction::Listen
            },
            SerialEvent::OpenFailed => {
                self.received.clear();
                SerialAction::Reconnect
            },
            SerialEvent::ReadFailed => {
                self.received.clear();
                SerialAction::Reconnect
            },
        }
    }
}

} // verus!
