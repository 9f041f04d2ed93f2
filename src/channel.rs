//! An ordered, unbounded queue with any number of senders and one receiver.
//!
//! The queue keeps the order in which values were sent. Sending fails once the
//! receiver is gone; receiving reports the channel closed once every sender is
//! gone and nothing is left to take.
use vstd::prelude::*;
use std::collections::VecDeque;

verus! {

/// What one attempt to receive yields.
#[derive(Debug, Clone, Copy, PartialEq, Eq)]
pub enum Received<E> {
    /// The earliest value still queued, now taken out.
    Item(E),
    /// Nothing is queued yet, but a sender may still send: a blocking receiver waits.
    Empty,
    /// Nothing is queued and no sender is left: no value will ever arrive.
    Closed,
}

/// A send into a channel whose receiver is gone; it hands the value back.
#[derive(Debug, Clone, Copy, PartialEq, Eq)]
pub struct SendError<E>(pub E);

/// The abstract state of a channel.
pub ghost struct ChannelState<E> {
    /// The values sent and not yet received, earliest first.
    pub queue: Seq<E>,
    /// How many sending ends are live.
    pub senders: nat,
    /// Whether the receiving end is live.
    pub receiver_open: bool,
}

impl<E> ChannelState<E> {
    /// The state after sending `e`, and whether it was queued.
    pub open spec fn send(self, e: E) -> (ChannelState<E>, bool) {
        if self.receiver_open {
            (ChannelState { queue: self.queue.push(e), ..self }, true)
        } else {
            (self, false)
        }
    }

    /// The state after one attempt to receive, and what it yields.
    pub open spec fn recv(self) -> (ChannelState<E>, Received<E>) {
        if self.queue.len() > 0 {
            (ChannelState { queue: self.queue.drop_first(), ..self }, Received::Item(self.queue[0]))
        } else if self.senders == 0 {
            (self, Received::Closed)
        } else {
            (self, Received::Empty)
        }
    }

    /// The state after sending each of `events` in turn.
    pub open spec fn send_all(self, events: Seq<E>) -> ChannelState<E>
        decreases events.len(),
    {
        if events.len() == 0 {
            self
        } else {
            self.send(events[0]).0.send_all(events.drop_first())
        }
    }

    /// The state after `n` attempts to receive, and what they yield in turn.
    pub open spec fn recv_n(self, n: nat) -> (ChannelState<E>, Seq<Received<E>>)
        decreases n,
    {
        if n == 0 {
            (self, Seq::empty())
        } else {
            let (next, r) = self.recv();
            let (last, rs) = next.recv_n((n - 1) as nat);
            (last, seq![r] + rs)
        }
    }

    /// The state after one sending end is dropped, if any is live.
    pub open spec fn release(self) -> ChannelState<E> {
        if self.senders > 0 {
            ChannelState { senders: (self.senders - 1) as nat, ..self }
        } else {
            self
        }
    }

    /// Every sender is gone and nothing is left to receive.
    pub open spec fn closed_and_drained(self) -> bool {
        self.senders == 0 && self.queue.len() == 0
    }
}

/// What receiving each of `events` yields.
pub open spec fn items<E>(events: Seq<E>) -> Seq<Received<E>> {
    events.map_values(|e: E| Received::Item(e))
}

/// Sending a sequence into a channel with a live receiver appends it to the queue.
proof fn lemma_send_all_appends<E>(st: ChannelState<E>, events: Seq<E>)
    requires
        st.receiver_open,
    ensures
        st.send_all(events) == (ChannelState { queue: st.queue + events, ..st }),
    decreases events.len(),
{
    if events.len() > 0 {
        let next = st.send(events[0]).0;
        lemma_send_all_appends(next, events.drop_first());
        assert(st.queue.push(events[0]) + events.drop_first() =~= st.queue + events);
    } else {
        assert(st.queue + events =~= st.queue);
    }
}

/// Receiving at most as many times as values are queued yields the first of
/// them in order and leaves the rest.
proof fn lemma_recv_n_takes_prefix<E>(st: ChannelState<E>, n: nat)
    requires
        n <= st.queue.len(),
    ensures
        st.recv_n(n).1 == items(st.queue.take(n as int)),
        st.recv_n(n).0 == (ChannelState { queue: st.queue.skip(n as int), ..st }),
    decreases n,
{
    if n == 0 {
        assert(items(st.queue.take(0)) =~= Seq::<Received<E>>::empty());
        assert(st.queue.skip(0) =~= st.queue);
    } else {
        let next = st.recv().0;
        lemma_recv_n_takes_prefix(next, (n - 1) as nat);
        assert(next.queue.skip(n - 1) =~= st.queue.skip(n as int));
        assert(seq![Received::Item(st.queue[0])] + items(next.queue.take(n - 1)) =~= items(
            st.queue.take(n as int),
        ));
    }
}

/// Receiving `a + b` times is receiving `a` times and then `b` times.
proof fn lemma_recv_n_split<E>(st: ChannelState<E>, a: nat, b: nat)
    ensures
        st.recv_n(a + b).0 == st.recv_n(a).0.recv_n(b).0,
        st.recv_n(a + b).1 == st.recv_n(a).1 + st.recv_n(a).0.recv_n(b).1,
    decreases a,
{
    if a == 0 {
        assert(st.recv_n(a).1 + st.recv_n(b).1 =~= st.recv_n(b).1);
    } else {
        let next = st.recv().0;
        lemma_recv_n_split(next, (a - 1) as nat, b);
        assert((a + b - 1) as nat == (a - 1) as nat + b);
        let r = st.recv().1;
        assert(seq![r] + (next.recv_n((a - 1) as nat).1 + next.recv_n((a - 1) as nat).0.recv_n(b).1)
            =~= (seq![r] + next.recv_n((a - 1) as nat).1) + next.recv_n((a - 1) as nat).0.recv_n(b).1);
    }
}

/// Whatever the interleaving in which the producers' values reach an empty
/// channel with a live receiver, receiving once per value yields exactly those
/// values in arrival order, so each producer's values keep their relative
/// order, and leaves the queue empty.
pub proof fn lemma_receives_in_send_order<E>(st: ChannelState<E>, events: Seq<E>)
    requires
        st.receiver_open,
        st.queue.len() == 0,
    ensures
        st.send_all(events).recv_n(events.len()).1 == items(events),
        st.send_all(events).recv_n(events.len()).0.queue.len() == 0,
{
    lemma_send_all_appends(st, events);
    let full = st.send_all(events);
    assert(full.queue =~= events);
    lemma_recv_n_takes_prefix(full, events.len());
    assert(events.take(events.len() as int) =~= events);
}

/// Once every sender is gone and the queue is drained, every later attempt to
/// receive reports the channel closed and changes nothing.
pub proof fn lemma_closed_stays_closed<E>(st: ChannelState<E>, n: nat)
    requires
        st.closed_and_drained(),
    ensures
        st.recv_n(n).0 == st,
        st.recv_n(n).1 == Seq::new(n, |i: int| Received::<E>::Closed),
    decreases n,
{
    if n > 0 {
        lemma_closed_stays_closed(st, (n - 1) as nat);
        assert(seq![Received::<E>::Closed] + Seq::new((n - 1) as nat, |i: int| Received::<E>::Closed)
            =~= Seq::new(n, |i: int| Received::<E>::Closed));
    } else {
        assert(st.recv_n(n).1 =~= Seq::new(n, |i: int| Received::<E>::Closed));
    }
}

/// With no sender left, receiving yields what is still queued, in order, and
/// then reports the channel closed instead of waiting.
pub proof fn lemma_drains_then_closes<E>(st: ChannelState<E>)
    requires
        st.senders == 0,
    ensures
        st.recv_n(st.queue.len()).0.closed_and_drained(),
        st.recv_n(st.queue.len() + 1).1 == items(st.queue).push(Received::Closed),
{
    let n = st.queue.len();
    lemma_recv_n_takes_prefix(st, n);
    lemma_recv_n_split(st, n, 1);
    let drained = st.recv_n(n).0;
    assert(drained.queue.len() == 0);
    assert(st.queue.take(n as int) =~= st.queue);
    assert(drained.senders == 0);
    let (after, r) = drained.recv();
    assert(r == Received::<E>::Closed);
    assert(after.recv_n(0).1 =~= Seq::<Received<E>>::empty());
    assert(drained.recv_n(1).1 =~= seq![Received::<E>::Closed]);
}

/// A channel as a plain value; a program that shares it between threads
/// guards it with a lock.
pub struct Channel<E> {
    queue: VecDeque<E>,
    senders: usize,
    receiver_open: bool,
}

impl<E> View for Channel<E> {
    type V = ChannelState<E>;

    closed spec fn view(&self) -> ChannelState<E> {
        ChannelState { queue: self.queue@, senders: self.senders as nat, receiver_open: self.receiver_open }
    }
}

impl<E> Channel<E> {
    /// A new channel with one sending end and a live receiver.
    pub fn new() -> (r: Channel<E>)
        ensures
            r@.queue == Seq::<E>::empty(),
            r@.senders == 1,
            r@.receiver_open,
    {
        Channel { queue: VecDeque::new(), senders: 1, receiver_open: true }
    }

    /// The number of live sending ends.
    pub fn senders(&self) -> (r: usize)
        ensures
            r == self@.senders,
    {
        self.senders
    }

    /// The number of values sent and not yet received.
    pub fn len(&self) -> (r: usize)
        ensures
            r == self@.queue.len(),
    {
        self.queue.len()
    }

    /// Whether the receiving end is live.
    pub fn is_receiver_open(&self) -> (r: bool)
        ensures
            r == self@.receiver_open,
    {
        self.receiver_open
    }

    /// One more sending end, as a clone of an existing one makes.
    pub fn add_sender(&mut self)
        requires
            old(self)@.senders < usize::MAX,
        ensures
            final(self)@ == (ChannelState { senders: old(self)@.senders + 1, ..old(self)@ }),
    {
        self.senders = self.senders + 1;
    }

    /// One sending end is dropped.
    pub fn drop_sender(&mut self)
        requires
            old(self)@.senders > 0,
        ensures
            final(self)@ == (ChannelState { senders: (old(self)@.senders - 1) as nat, ..old(self)@ }),
    {
        self.senders = self.senders - 1;
    }

    /// A producer that stops lets go of its sending end.
    pub fn release(&mut self)
        ensures
            final(self)@ == old(self)@.release(),
    {
        if self.senders > 0 {
            self.drop_sender();
        }
    }

    /// The receiving end is dropped; later sends fail.
    pub fn close_receiver(&mut self)
        ensures
            final(self)@ == (ChannelState { receiver_open: false, ..old(self)@ }),
    {
        self.receiver_open = false;
    }

    /// Queues `e` behind every value sent before it; fails, handing `e` back,
    /// once the receiver is gone.
    pub fn send(&mut self, e: E) -> (r: Result<(), SendError<E>>)
        ensures
            final(self)@ == old(self)@.send(e).0,
            r is Ok <==> old(self)@.send(e).1,
            r is Ok <==> old(self)@.receiver_open,
            r matches Err(SendError(v)) ==> v == e,
    {
        if self.receiver_open {
            self.queue.push_back(e);
            Ok(())
        } else {
            Err(SendError(e))
        }
    }

    /// Takes the earliest queued value; `Empty` when nothing is queued but a
    /// sender is live, `Closed` when nothing is queued and no sender is live.
    pub fn try_recv(&mut self) -> (r: Received<E>)
        ensures
            (final(self)@, r) == old(self)@.recv(),
    {
        match self.queue.pop_front() {
            Some(e) => Received::Item(e),
            None => {
                if self.senders == 0 {
                    Received::Closed
                } else {
                    Received::Empty
                }
            },
        }
    }
}

} // verus!
