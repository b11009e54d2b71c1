//! Fan-out of published lines to subscribers, with a bounded backlog.
//!
//! The broadcaster keeps the last `capacity` published lines. Each
//! subscriber has a cursor: the sequence number of the next line it will
//! receive. A subscriber whose cursor falls behind the oldest kept line has
//! lagged: its next receive reports how many lines it missed and moves its
//! cursor to the oldest kept line. Publishing never waits on subscribers.

use vstd::prelude::*;
use crate::line::copy_line;

verus! {

/// What a receive yields, as a mathematical value.
pub enum Delivery {
    Value(Seq<u8>),
    Lagged(nat),
    Empty,
    Closed,
}

/// The result of [`Broadcaster::recv`].
pub enum Recv {
    /// The next line for this subscriber.
    Value(Vec<u8>),
    /// The subscriber fell behind; this many lines were dropped for it.
    Lagged(u64),
    /// No line is pending; the caller should wait for the next publish.
    Empty,
    /// The subscription does not exist (never made, or dropped).
    Closed,
}

impl Recv {
    pub open spec fn model(&self) -> Delivery {
        match self {
            Recv::Value(v) => Delivery::Value(v@),
            Recv::Lagged(n) => Delivery::Lagged(*n as nat),
            Recv::Empty => Delivery::Empty,
            Recv::Closed => Delivery::Closed,
        }
    }
}

/// The abstract state of a broadcaster.
pub struct BroadcastView {
    /// How many of the latest lines are kept for subscribers.
    pub capacity: nat,
    /// Every line ever published, in publication order.
    pub history: Seq<Seq<u8>>,
    /// Sequence number of the oldest line still kept.
    pub base: nat,
    /// For each live subscription, the sequence number of its next line.
    pub cursors: Map<usize, nat>,
}

/// The shape every reachable broadcaster state has: the kept lines are the
/// latest `capacity` ones (all of them while fewer were published), and every
/// cursor lies within the history.
pub open spec fn view_ok(v: BroadcastView) -> bool {
    &&& v.capacity > 0
    &&& v.base <= v.history.len()
    &&& v.base == if v.history.len() > v.capacity { v.history.len() - v.capacity } else { 0 }
    &&& forall|id: usize| #[trigger] v.cursors.contains_key(id) ==> v.cursors[id] <= v.history.len()
}

/// The state after publishing `line`.
pub open spec fn publish_spec(v: BroadcastView, line: Seq<u8>) -> BroadcastView {
    let history = v.history.push(line);
    BroadcastView {
        capacity: v.capacity,
        history,
        base: if history.len() - v.base > v.capacity { v.base + 1 } else { v.base },
        cursors: v.cursors,
    }
}

/// The state after adding subscription `id`, which starts at the next line
/// to be published.
pub open spec fn subscribe_spec(v: BroadcastView, id: usize) -> BroadcastView {
    BroadcastView { cursors: v.cursors.insert(id, v.history.len()), ..v }
}

/// The state after dropping subscription `id`.
pub open spec fn unsubscribe_spec(v: BroadcastView, id: usize) -> BroadcastView {
    BroadcastView { cursors: v.cursors.remove(id), ..v }
}

/// The state after, and the outcome of, one receive on subscription `id`.
pub open spec fn recv_spec(v: BroadcastView, id: usize) -> (BroadcastView, Delivery) {
    if !v.cursors.contains_key(id) {
        (v, Delivery::Closed)
    } else {
        let c = v.cursors[id];
        if c < v.base {
            (
                BroadcastView { cursors: v.cursors.insert(id, v.base), ..v },
                Delivery::Lagged((v.base - c) as nat),
            )
        } else if c < v.history.len() {
            (
                BroadcastView { cursors: v.cursors.insert(id, c + 1), ..v },
                Delivery::Value(v.history[c as int]),
            )
        } else {
            (v, Delivery::Empty)
        }
    }
}

pub struct Broadcaster {
    capacity: usize,
    base: u64,
    kept: Vec<Vec<u8>>,
    slots: Vec<Option<u64>>,
    history: Ghost<Seq<Seq<u8>>>,
}

impl View for Broadcaster {
    type V = BroadcastView;

    closed spec fn view(&self) -> BroadcastView {
        BroadcastView {
            capacity: self.capacity as nat,
            history: self.history@,
            base: self.base as nat,
            cursors: Map::new(
                |i: usize| i < self.slots@.len() && self.slots@[i as int].is_some(),
                |i: usize| self.slots@[i as int].unwrap() as nat,
            ),
        }
    }
}

impl Broadcaster {
    /// The broadcaster's internal invariant.
    pub closed spec fn wf(&self) -> bool {
        &&& self.capacity > 0
        &&& self.slots@.len() <= usize::MAX
        &&& self.kept@.len() <= self.capacity
        &&& self.base + self.kept@.len() == self.history@.len()
        &&& self.base > 0 ==> self.kept@.len() == self.capacity
        &&& self.history@.len() <= u64::MAX
        &&& forall|i: int| 0 <= i < self.kept@.len() ==> #[trigger] self.kept@[i]@ == self.history@[self.base + i]
        &&& forall|i: int| 0 <= i < self.slots@.len() && #[trigger] self.slots@[i].is_some()
            ==> self.slots@[i].unwrap() <= self.history@.len()
    }

    /// The abstract state of a well-formed broadcaster has the shape of a
    /// reachable state.
    pub proof fn lemma_view_ok(&self)
        requires
            self.wf(),
        ensures
            view_ok(self@),
    {
    }

    /// A broadcaster that keeps up to `capacity` lines for each subscriber.
    pub fn new(capacity: usize) -> (r: Broadcaster)
        requires
            capacity > 0,
        ensures
            r.wf(),
            r@.capacity == capacity,
            r@.history == Seq::<Seq<u8>>::empty(),
            r@.base == 0,
            r@.cursors == Map::<usize, nat>::empty(),
    {
        let r = Broadcaster {
            capacity,
            base: 0,
            kept: Vec::new(),
            slots: Vec::new(),
            history: Ghost(Seq::empty()),
        };
        assert(r@.cursors =~= Map::<usize, nat>::empty());
        r
    }

    /// Number of lines published so far.
    pub fn published(&self) -> (r: u64)
        requires
            self.wf(),
        ensures
            r == self@.history.len(),
    {
        self.base + self.kept.len() as u64
    }

    /// Sends `line` to every live subscription. Never waits: when the
    /// backlog is full, the oldest kept line is dropped.
    pub fn publish(&mut self, line: &Vec<u8>)
        requires
            old(self).wf(),
            old(self)@.history.len() < u64::MAX,
        ensures
            final(self).wf(),
            final(self)@ == publish_spec(old(self)@, line@),
            final(self).slot_count() == old(self).slot_count(),
    {
        let ghost old_view = self@;
        if self.kept.len() == self.capacity {
            self.kept.remove(0);
            self.base = self.base + 1;
        }
        self.kept.push(copy_line(line));
        self.history = Ghost(self.history@.push(line@));
        assert forall|i: int| 0 <= i < self.slots@.len() && #[trigger] self.slots@[i].is_some()
            implies self.slots@[i].unwrap() <= self.history@.len() by {}
        assert(self@.cursors =~= old_view.cursors);
    }

    /// Adds a subscription that receives every line published from now on.
    /// Fails only when no further slot can be numbered.
    pub fn subscribe(&mut self) -> (r: Option<usize>)
        requires
            old(self).wf(),
        ensures
            final(self).wf(),
            old(self).slot_count() < usize::MAX ==> r is Some,
            r is None ==> final(self)@ == old(self)@ && old(self).slot_count() == usize::MAX
                && final(self).slot_count() == old(self).slot_count(),
            r is Some ==> final(self).slot_count() == old(self).slot_count()
                || final(self).slot_count() == old(self).slot_count() + 1,
            r is Some ==> !old(self)@.cursors.contains_key(r->Some_0)
                && final(self)@ == subscribe_spec(old(self)@, r->Some_0),
    {
        let tail = self.base + self.kept.len() as u64;
        let mut i: usize = 0;
        while i < self.slots.len()
            invariant
                self.wf(),
                self@ == old(self)@,
                self.slot_count() == old(self).slot_count(),
                tail as nat == self@.history.len(),
                i <= self.slots@.len(),
                forall|j: int| 0 <= j < i ==> #[trigger] self.slots@[j].is_some(),
            decreases self.slots@.len() - i,
        {
            if self.slots[i].is_none() {
                let ghost old_view = self@;
                self.slots.set(i, Some(tail));
                assert(self@.cursors =~= old_view.cursors.insert(i, old_view.history.len()));
                return Some(i);
            }
            i = i + 1;
        }
        if self.slots.len() == usize::MAX {
            return None;
        }
        let ghost old_view = self@;
        self.slots.push(Some(tail));
        assert(self@.cursors =~= old_view.cursors.insert(i, old_view.history.len()));
        Some(i)
    }

    /// Number of subscription slots in use or free for reuse.
    pub closed spec fn slot_count(&self) -> nat {
        self.slots@.len()
    }

    /// Removes subscription `id`; it receives nothing more.
    pub fn unsubscribe(&mut self, id: usize)
        requires
            old(self).wf(),
        ensures
            final(self).wf(),
            final(self).slot_count() == old(self).slot_count(),
            final(self)@ == unsubscribe_spec(old(self)@, id),
    {
        let ghost old_view = self@;
        if id < self.slots.len() {
            self.slots.set(id, None);
        }
        assert(self@.cursors =~= old_view.cursors.remove(id));
    }

    /// Takes the next line for subscription `id`, or reports lag, an empty
    /// backlog, or a closed subscription.
    pub fn recv(&mut self, id: usize) -> (r: Recv)
        requires
            old(self).wf(),
        ensures
            final(self).wf(),
            final(self).slot_count() == old(self).slot_count(),
            (final(self)@, r.model()) == recv_spec(old(self)@, id),
    {
        let ghost old_view = self@;
        if id >= self.slots.len() {
            return Recv::Closed;
        }
        match self.slots[id] {
            None => Recv::Closed,
            Some(c) => {
                if c < self.base {
                    let missed = self.base - c;
                    self.slots.set(id, Some(self.base));
                    assert(self@.cursors =~= old_view.cursors.insert(id, old_view.base));
                    Recv::Lagged(missed)
                } else if c - self.base < self.kept.len() as u64 {
                    let k = (c - self.base) as usize;
                    let line = copy_line(&self.kept[k]);
                    self.slots.set(id, Some(c + 1));
                    assert(self@.cursors =~= old_view.cursors.insert(id, c as nat + 1));
                    Recv::Value(line)
                } else {
                    Recv::Empty
                }
            },
        }
    }
}

/// The outcomes of `n` receives in a row on subscription `id`, with no
/// publish in between.
pub open spec fn drain(v: BroadcastView, id: usize, n: nat) -> Seq<Delivery>
    decreases n,
{
    if n == 0 {
        Seq::empty()
    } else {
        let (w, d) = recv_spec(v, id);
        seq![d] + drain(w, id, (n - 1) as nat)
    }
}

/// Publishing keeps the shape of a reachable state, whatever the
/// subscribers have or have not received.
pub proof fn lemma_publish_keeps_shape(v: BroadcastView, line: Seq<u8>)
    requires
        view_ok(v),
    ensures
        view_ok(publish_spec(v, line)),
        publish_spec(v, line).history == v.history.push(line),
        publish_spec(v, line).cursors == v.cursors,
{
}

/// A subscription that has not lagged receives the lines from its cursor
/// on, one per receive, in publication order.
pub proof fn lemma_receives_in_order(v: BroadcastView, id: usize, n: nat)
    requires
        v.cursors.contains_key(id),
        v.base <= v.cursors[id],
        v.cursors[id] + n <= v.history.len(),
    ensures
        drain(v, id, n).len() == n,
        forall|i: int| 0 <= i < n ==> #[trigger] drain(v, id, n)[i] == Delivery::Value(v.history[v.cursors[id] + i]),
    decreases n,
{
    if n > 0 {
        let (w, d) = recv_spec(v, id);
        lemma_receives_in_order(w, id, (n - 1) as nat);
        let rest = drain(w, id, (n - 1) as nat);
        assert(drain(v, id, n) == seq![d] + rest);
        assert forall|i: int| 0 <= i < n implies #[trigger] drain(v, id, n)[i] == Delivery::Value(v.history[v.cursors[id] + i]) by {
            if i > 0 {
                assert(drain(v, id, n)[i] == rest[i - 1]);
            }
        }
    }
}

/// Two subscriptions that were made before line `k` was published and have
/// not lagged both receive it, and both receive the lines up to it in
/// publication order: the lines before `k` come first, `k` itself after them.
pub proof fn lemma_subscribers_agree(v: BroadcastView, a: usize, b: usize, k: nat)
    requires
        v.cursors.contains_key(a),
        v.cursors.contains_key(b),
        v.base <= v.cursors[a] <= k,
        v.base <= v.cursors[b] <= k,
        k < v.history.len(),
    ensures
        drain(v, a, (k + 1 - v.cursors[a]) as nat)
            =~= v.history.subrange(v.cursors[a] as int, (k + 1) as int).map_values(|l: Seq<u8>| Delivery::Value(l)),
        drain(v, b, (k + 1 - v.cursors[b]) as nat)
            =~= v.history.subrange(v.cursors[b] as int, (k + 1) as int).map_values(|l: Seq<u8>| Delivery::Value(l)),
{
    lemma_receives_in_order(v, a, (k + 1 - v.cursors[a]) as nat);
    lemma_receives_in_order(v, b, (k + 1 - v.cursors[b]) as nat);
}

/// A new subscription gets nothing until the next publish, and then exactly
/// the line published: it neither sees a line from before it was made nor
/// skips ahead.
pub proof fn lemma_new_subscriber_gets_next(v: BroadcastView, id: usize, line: Seq<u8>)
    requires
        view_ok(v),
        !v.cursors.contains_key(id),
    ensures
        recv_spec(subscribe_spec(v, id), id).1 == Delivery::Empty,
        recv_spec(publish_spec(subscribe_spec(v, id), line), id).1 == Delivery::Value(line),
{
}

/// A subscription more than `capacity` lines behind is told how many lines
/// it missed, and resumes at the oldest kept line; the producer did not
/// wait for it.
pub proof fn lemma_slow_subscriber_lags(v: BroadcastView, id: usize)
    requires
        view_ok(v),
        v.cursors.contains_key(id),
        v.cursors[id] + v.capacity < v.history.len(),
    ensures
        v.cursors[id] < v.base,
        recv_spec(v, id).1 == Delivery::Lagged((v.base - v.cursors[id]) as nat),
        recv_spec(v, id).0.cursors[id] == v.base,
        recv_spec(recv_spec(v, id).0, id).1 == Delivery::Value(v.history[v.base as int]),
{
}

} // verus!
