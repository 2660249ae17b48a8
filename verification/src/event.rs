//! A broadcast event channel: a single append-only log per tick lifetime,
//! read through independent per-reader cursors. A cursor observes exactly
//! the events appended since its last read, in append order, and never
//! observes an event twice.

use vstd::prelude::*;

verus! {

/// A private read cursor into one [`EventChannel`]. Each consumer owns its
/// own cursor; reading through one cursor never disturbs another.
pub struct ReaderId {
    cursor: usize,
}

impl ReaderId {
    /// How many events of the channel's log this reader has already seen.
    pub closed spec fn seen(self) -> int {
        self.cursor as int
    }

    /// A cursor never sits before the log's start.
    pub proof fn lemma_seen_nonneg(self)
        ensures
            self.seen() >= 0,
    {
    }
}

/// An append-only broadcast log. Producers append; each consumer reads the
/// suffix it has not seen yet through its own [`ReaderId`].
pub struct EventChannel<T> {
    events: Vec<T>,
}

impl<T> View for EventChannel<T> {
    type V = Seq<T>;

    closed spec fn view(&self) -> Seq<T> {
        self.events@
    }
}

impl<T: Copy> EventChannel<T> {
    /// An empty log.
    pub fn new() -> (r: Self)
        ensures
            r@ == Seq::<T>::empty(),
    {
        EventChannel { events: Vec::new() }
    }

    /// Registers a new reader. It will observe exactly the events appended
    /// from this moment on.
    pub fn register_reader(&self) -> (r: ReaderId)
        ensures
            r.seen() == self@.len(),
            r.seen() >= 0,
    {
        ReaderId { cursor: self.events.len() }
    }

    /// Appends one event to the log. No reader cursor moves.
    pub fn single_write(&mut self, event: T)
        ensures
            final(self)@ == old(self)@.push(event),
    {
        self.events.push(event);
    }

    /// Returns every event appended since this reader's last read, in
    /// append order, and advances the reader past them.
    pub fn read(&self, reader: &mut ReaderId) -> (r: Vec<T>)
        requires
            old(reader).seen() <= self@.len(),
        ensures
            r@ == self@.subrange(old(reader).seen(), self@.len() as int),
            final(reader).seen() == self@.len(),
    {
        let mut out: Vec<T> = Vec::new();
        let n = self.events.len();
        let mut i: usize = reader.cursor;
        while i < n
            invariant
                old(reader).cursor <= i <= n,
                n == self@.len(),
                out@ == self@.subrange(old(reader).seen(), i as int),
            decreases n - i,
        {
            out.push(self.events[i]);
            assert(self@.subrange(old(reader).seen(), i + 1 as int) =~= self@.subrange(
                old(reader).seen(),
                i as int,
            ).push(self@[i as int]));
            i = i + 1;
        }
        reader.cursor = n;
        out
    }
}

/// Consecutive reads partition the log: what a reader sees in two reads,
/// with any number of appends between them, is exactly the log segment
/// between its starting and final cursor, each event once. Together with
/// the contract of [`EventChannel::read`] this is the exactly-once law for
/// every reader, independent of other readers.
pub proof fn lemma_reads_partition<T>(log: Seq<T>, c0: int, c1: int, c2: int)
    requires
        0 <= c0 <= c1 <= c2 <= log.len(),
    ensures
        log.subrange(c0, c1) + log.subrange(c1, c2) == log.subrange(c0, c2),
{
    assert(log.subrange(c0, c1) + log.subrange(c1, c2) =~= log.subrange(c0, c2));
}

} // verus!
