//! The distribution channel: a bounded fan-out message bus.
//!
//! Every published message is appended to one shared history; the channel
//! retains only the newest `cap()` of them. Each subscriber owns a cursor
//! into that history. A subscriber that stays within the retained window
//! receives every message in publish order; one that falls behind misses
//! the dropped messages, is told how many it missed, and resumes from the
//! oldest retained message (the lag policy) instead of failing.

use vstd::prelude::*;

verus! {

/// How many messages the channel retains for slow subscribers.
pub const CHANNEL_CAPACITY: usize = 100;

/// The outcome of asking a subscription for its next message.
#[derive(Debug)]
pub enum Receive {
    /// No message newer than the cursor exists yet; the caller waits.
    Empty,
    /// The cursor had fallen out of the retained window: `missed`
    /// messages were skipped and the cursor now points at the oldest
    /// retained message.
    Lagged { missed: usize },
    /// The next message, in publish order; the cursor advanced past it.
    Msg(String),
}

/// The shared bus. One logical history, a bounded retained window.
pub struct Channel {
    buf: Vec<String>,
    dropped: usize,
    capacity: usize,
    history: Ghost<Seq<Seq<char>>>,
}

/// A subscriber's cursor into a channel's history.
pub struct Subscription {
    next: usize,
}

impl Channel {
    /// Every message ever published, in the one total order that all
    /// subscribers observe.
    pub closed spec fn hist(&self) -> Seq<Seq<char>> {
        self.history@
    }

    /// The bound on the retained window.
    pub closed spec fn cap(&self) -> nat {
        self.capacity as nat
    }

    /// The index of the oldest message still retained.
    pub closed spec fn oldest_retained(&self) -> nat {
        self.dropped as nat
    }

    /// How many messages have ever been published.
    pub open spec fn total(&self) -> nat {
        self.hist().len()
    }

    /// The message at position `i` of the shared history.
    pub open spec fn msg_at(&self, i: int) -> Seq<char>
        recommends
            0 <= i < self.total(),
    {
        self.hist()[i]
    }

    /// What a subscriber whose cursor stands at `cursor` has yet to see:
    /// the rest of the shared history.
    pub open spec fn pending(&self, cursor: int) -> Seq<Seq<char>>
        recommends
            0 <= cursor <= self.total(),
    {
        self.hist().subrange(cursor, self.total() as int)
    }

    /// The channel's internal invariant: the buffer is exactly the
    /// newest `cap()` messages of the history (all of it while the
    /// history is shorter than that).
    pub closed spec fn wf(&self) -> bool {
        &&& 1 <= self.capacity
        &&& self.buf@.len() <= self.capacity
        &&& self.history@.len() == self.dropped + self.buf@.len()
        &&& self.dropped + self.buf@.len() <= usize::MAX
        &&& (forall|i: int|
            0 <= i < self.buf@.len() ==> self.buf@[i]@ == self.history@[self.dropped + i])
        &&& (self.history@.len() <= self.capacity ==> self.dropped == 0)
        &&& (self.history@.len() > self.capacity ==> self.dropped == self.history@.len()
            - self.capacity)
    }

    /// A fresh channel with an empty history.
    pub fn new(capacity: usize) -> (c: Channel)
        requires
            1 <= capacity,
        ensures
            c.wf(),
            c.total() == 0,
            c.cap() == capacity,
    {
        Channel { buf: Vec::new(), dropped: 0, capacity, history: Ghost(Seq::empty()) }
    }

    /// Publish one message: append it to the shared history for every
    /// current and future subscriber. Never blocks and never fails; a
    /// slow subscriber lags instead of slowing the publisher down.
    pub fn publish(&mut self, m: String)
        requires
            old(self).wf(),
            old(self).total() < usize::MAX,
        ensures
            final(self).wf(),
            final(self).cap() == old(self).cap(),
            final(self).hist() == old(self).hist().push(m@),
    {
        self.history = Ghost(self.history@.push(m@));
        if self.buf.len() == self.capacity {
            let _ = self.buf.remove(0);
            self.dropped = self.dropped + 1;
        }
        self.buf.push(m);
    }

    /// How many messages have ever been published, for callers that
    /// must honor the bound in `publish`'s precondition.
    pub fn published(&self) -> (n: usize)
        requires
            self.wf(),
        ensures
            n == self.total(),
    {
        self.dropped + self.buf.len()
    }

    /// A new subscription starts at the newest position: it sees only
    /// messages published after it was taken.
    pub fn subscribe(&self) -> (s: Subscription)
        requires
            self.wf(),
        ensures
            s.cursor() == self.total(),
    {
        Subscription { next: self.dropped + self.buf.len() }
    }
}

impl Subscription {
    /// Where this subscriber stands in the shared history: the index of
    /// the next message it has not yet received.
    pub closed spec fn cursor(&self) -> nat {
        self.next as nat
    }

    /// Ask for the next message. Returns, exactly:
    /// - `Empty` when nothing newer than the cursor exists (the caller
    ///   would wait and ask again);
    /// - the message at the cursor, advancing the cursor, while the
    ///   cursor is within the retained window;
    /// - `Lagged` with the number of missed messages when the cursor has
    ///   fallen out of the window, resynchronizing the cursor to the
    ///   oldest retained message — never an error that ends the caller.
    pub fn receive(&mut self, chan: &Channel) -> (r: Receive)
        requires
            chan.wf(),
        ensures
            old(self).cursor() >= chan.total() ==> (r == Receive::Empty
                && final(self).cursor() == old(self).cursor()),
            chan.oldest_retained() <= old(self).cursor() < chan.total() ==> ((r matches
            Receive::Msg(m) && m@ == chan.msg_at(old(self).cursor() as int))
                && final(self).cursor() == old(self).cursor() + 1),
            old(self).cursor() < chan.oldest_retained() ==> ((r matches
            Receive::Lagged { missed } && missed == chan.oldest_retained() - old(self).cursor())
                && final(self).cursor() == chan.oldest_retained()),
    {
        let total = chan.dropped + chan.buf.len();
        if self.next >= total {
            Receive::Empty
        } else if self.next >= chan.dropped {
            let i = self.next - chan.dropped;
            let m = chan.buf[i].clone();
            self.next = self.next + 1;
            Receive::Msg(m)
        } else {
            let missed = chan.dropped - self.next;
            self.next = chan.dropped;
            Receive::Lagged { missed }
        }
    }
}

/// Law: all subscribers observe one shared total order. What a
/// further-along subscriber has yet to see is exactly a suffix of what a
/// less-advanced one has yet to see, and every pending message is the
/// history entry at the cursor's offset — no subscriber can observe two
/// messages in a different relative order than any other.
pub proof fn lemma_subscribers_share_order(c: Channel, c1: int, c2: int)
    requires
        c.wf(),
        0 <= c1 <= c2 <= c.total(),
    ensures
        c.pending(c1).skip(c2 - c1) == c.pending(c2),
        forall|i: int| 0 <= i < c.pending(c1).len() ==> c.pending(c1)[i] == c.msg_at(c1 + i),
{
    assert(c.pending(c1).skip(c2 - c1) =~= c.pending(c2));
}

/// Law: a published message reaches every subscriber. Publishing `m`
/// appends it to what every subscriber (any cursor position up to the old
/// end of the history) has yet to receive, at the same final position for
/// all of them.
pub proof fn lemma_publish_reaches_all(pre: Channel, post: Channel, m: Seq<char>, cursor: int)
    requires
        pre.wf(),
        post.wf(),
        post.hist() == pre.hist().push(m),
        0 <= cursor <= pre.total(),
    ensures
        post.pending(cursor) == pre.pending(cursor).push(m),
        post.msg_at(pre.total() as int) == m,
{
    assert(post.pending(cursor) =~= pre.pending(cursor).push(m));
}

/// Law: a subscriber that stays within `cap()` messages of the newest is
/// never lagged — its cursor is always at or past the oldest retained
/// message, so `receive` hands it every message in publish order.
pub proof fn lemma_within_window_not_lagged(c: Channel, cursor: int)
    requires
        c.wf(),
        0 <= cursor <= c.total(),
        c.total() - cursor <= c.cap(),
    ensures
        cursor >= c.oldest_retained(),
{
}

/// The retained window in the clear: nothing is dropped until the history
/// outgrows the capacity, and after that exactly the oldest overflow.
pub proof fn lemma_window(c: Channel)
    requires
        c.wf(),
    ensures
        c.oldest_retained() == if c.total() <= c.cap() {
            0
        } else {
            c.total() - c.cap()
        },
{
}

} // verus!
