//! The shared state of a feed server: the latest-value cache, the
//! broadcaster and the admission controller, with the operations that the
//! producer and the connection handlers perform on them.

use vstd::prelude::*;
use crate::admission::{fresh, grant_spec, grants, release_spec, Acquire, Admission, AdmissionView, Permit};
use crate::broadcast::{
    lemma_new_subscriber_gets_next, publish_spec, recv_spec, subscribe_spec, unsubscribe_spec,
    view_ok, BroadcastView, Broadcaster, Delivery, Recv,
};
use crate::cache::LatestValueCache;
use crate::line::copy_line;

verus! {

/// The abstract state of a hub.
pub struct HubView {
    /// The latest published line, if any.
    pub cache: Option<Seq<u8>>,
    /// What a consumer gets first while no line was published.
    pub placeholder: Seq<u8>,
    pub channel: BroadcastView,
    pub admission: AdmissionView,
}

/// The first line a consumer that connects in state `v` receives.
pub open spec fn initial_line(v: HubView) -> Seq<u8> {
    match v.cache {
        Some(l) => l,
        None => v.placeholder,
    }
}

/// The state after the producer publishes `line`: cache first, then fan-out.
pub open spec fn update_spec(v: HubView, line: Seq<u8>) -> HubView {
    HubView { cache: Some(line), channel: publish_spec(v.channel, line), ..v }
}

/// A consumer's subscription and the first line to send it.
pub struct Connection {
    pub id: usize,
    pub initial: Vec<u8>,
}

pub struct Hub {
    cache: LatestValueCache,
    channel: Broadcaster,
    admission: Admission,
    placeholder: Vec<u8>,
}

impl View for Hub {
    type V = HubView;

    closed spec fn view(&self) -> HubView {
        HubView {
            cache: self.cache@,
            placeholder: self.placeholder@,
            channel: self.channel@,
            admission: self.admission@,
        }
    }
}

impl Hub {
    /// The hub's internal invariant.
    pub closed spec fn wf(&self) -> bool {
        self.channel.wf() && self.admission.wf()
    }

    /// In every well-formed hub the broadcaster's state has the shape of a
    /// reachable one, and no more permits are out than the capacity.
    pub proof fn lemma_invariants(&self)
        requires
            self.wf(),
        ensures
            view_ok(self@.channel),
            self@.admission.held.finite(),
            self@.admission.held.len() <= self@.admission.capacity,
    {
        self.channel.lemma_view_ok();
        self.admission.lemma_bounded();
    }

    /// Whether no further subscription can be numbered.
    pub closed spec fn slots_exhausted(&self) -> bool {
        self.channel.slot_count() == usize::MAX
    }

    /// A hub admitting up to `capacity` connections at once, keeping up to
    /// `backlog` undelivered lines per consumer, and greeting consumers with
    /// `placeholder` until the first line is published.
    pub fn new(capacity: usize, backlog: usize, placeholder: &Vec<u8>) -> (r: Hub)
        requires
            backlog > 0,
        ensures
            r.wf(),
            r@.cache is None,
            r@.placeholder == placeholder@,
            r@.channel.capacity == backlog,
            r@.channel.history.len() == 0,
            r@.channel.base == 0,
            r@.channel.cursors == Map::<usize, nat>::empty(),
            r@.admission == fresh(capacity as nat),
    {
        Hub {
            cache: LatestValueCache::new(),
            channel: Broadcaster::new(backlog),
            admission: Admission::new(capacity),
            placeholder: copy_line(placeholder),
        }
    }

    /// Number of lines published so far.
    pub fn published(&self) -> (r: u64)
        requires
            self.wf(),
        ensures
            r == self@.channel.history.len(),
    {
        self.channel.published()
    }

    /// Number of permits granted so far.
    pub fn permits_granted(&self) -> (r: u64)
        ensures
            r == self@.admission.next_id,
    {
        self.admission.granted()
    }

    /// Number of connections admitted and not yet released.
    pub fn active(&self) -> (r: usize)
        requires
            self.wf(),
        ensures
            r == self@.admission.held.len(),
    {
        self.admission.active()
    }

    /// Number of free connection slots.
    pub fn available(&self) -> (r: usize)
        requires
            self.wf(),
        ensures
            r == self@.admission.capacity - self@.admission.held.len(),
    {
        self.admission.available()
    }

    /// The producer's step: stores `line` as the latest value, then sends it
    /// to every subscription. Admission is untouched.
    pub fn update(&mut self, line: &Vec<u8>)
        requires
            old(self).wf(),
            old(self)@.channel.history.len() < u64::MAX,
        ensures
            final(self).wf(),
            final(self).slots_exhausted() == old(self).slots_exhausted(),
            final(self)@ == update_spec(old(self)@, line@),
    {
        self.cache.set(line);
        self.channel.publish(line);
    }

    /// Asks for a connection slot.
    pub fn try_acquire(&mut self) -> (r: Acquire)
        requires
            old(self).wf(),
            old(self)@.admission.next_id < u64::MAX,
        ensures
            final(self).wf(),
            final(self).slots_exhausted() == old(self).slots_exhausted(),
            old(self)@.admission.shut_down ==> r is ShuttingDown && final(self)@ == old(self)@,
            !old(self)@.admission.shut_down && !grants(old(self)@.admission) ==> r is Full
                && final(self)@ == old(self)@,
            grants(old(self)@.admission) ==> r is Granted
                && r->Granted_0.spec_id() == old(self)@.admission.next_id
                && final(self)@ == (HubView { admission: grant_spec(old(self)@.admission), ..old(self)@ }),
    {
        self.admission.try_acquire()
    }

    /// Starts a consumer: subscribes first, then reads the cache, so that no
    /// line published in between is missed. The consumer's first line is the
    /// cached line (or the placeholder), and its subscription starts at the
    /// next line to be published.
    pub fn connect(&mut self) -> (r: Option<Connection>)
        requires
            old(self).wf(),
        ensures
            final(self).wf(),
            !old(self).slots_exhausted() ==> r is Some,
            r is None ==> final(self)@ == old(self)@ && final(self).slots_exhausted(),
            r is Some ==> !old(self)@.channel.cursors.contains_key(r->Some_0.id)
                && r->Some_0.initial@ == initial_line(old(self)@)
                && final(self)@ == (HubView {
                    channel: subscribe_spec(old(self)@.channel, r->Some_0.id),
                    ..old(self)@
                }),
    {
        match self.channel.subscribe() {
            None => None,
            Some(id) => {
                let initial = match self.cache.get() {
                    Some(line) => line,
                    None => copy_line(&self.placeholder),
                };
                Some(Connection { id, initial })
            },
        }
    }

    /// The next thing for consumer `id`: a line, a lag report, nothing yet,
    /// or the end of a dropped subscription.
    pub fn recv(&mut self, id: usize) -> (r: Recv)
        requires
            old(self).wf(),
        ensures
            final(self).wf(),
            final(self).slots_exhausted() == old(self).slots_exhausted(),
            final(self)@ == (HubView { channel: recv_spec(old(self)@.channel, id).0, ..old(self)@ }),
            r.model() == recv_spec(old(self)@.channel, id).1,
    {
        self.channel.recv(id)
    }

    /// Ends a consumer: drops its subscription and releases its permit.
    /// Safe to repeat. Answers whether the permit's slot was freed.
    pub fn disconnect(&mut self, permit: &Permit, id: usize) -> (r: bool)
        requires
            old(self).wf(),
        ensures
            final(self).wf(),
            final(self).slots_exhausted() == old(self).slots_exhausted(),
            r == old(self)@.admission.held.contains(permit.spec_id()),
            final(self)@ == (HubView {
                channel: unsubscribe_spec(old(self)@.channel, id),
                admission: release_spec(old(self)@.admission, permit.spec_id()),
                ..old(self)@
            }),
    {
        self.channel.unsubscribe(id);
        self.admission.release(permit)
    }

    /// Releases a permit whose connection never got a subscription.
    pub fn release(&mut self, permit: &Permit) -> (r: bool)
        requires
            old(self).wf(),
        ensures
            final(self).wf(),
            final(self).slots_exhausted() == old(self).slots_exhausted(),
            r == old(self)@.admission.held.contains(permit.spec_id()),
            final(self)@ == (HubView {
                admission: release_spec(old(self)@.admission, permit.spec_id()),
                ..old(self)@
            }),
    {
        self.admission.release(permit)
    }

    /// Stops admitting connections.
    pub fn shutdown(&mut self)
        requires
            old(self).wf(),
        ensures
            final(self).wf(),
            final(self).slots_exhausted() == old(self).slots_exhausted(),
            final(self)@ == (HubView {
                admission: AdmissionView { shut_down: true, ..old(self)@.admission },
                ..old(self)@
            }),
    {
        self.admission.shutdown();
    }
}

/// A consumer's first line is what the cache held when it connected, and
/// the first line its subscription yields is the next one published after
/// that: nothing older, nothing skipped.
pub proof fn lemma_connect_then_update(v: HubView, id: usize, line: Seq<u8>)
    requires
        view_ok(v.channel),
        !v.channel.cursors.contains_key(id),
    ensures
        ({
            let joined = HubView { channel: subscribe_spec(v.channel, id), ..v };
            let after = update_spec(joined, line);
            &&& recv_spec(joined.channel, id).1 == Delivery::Empty
            &&& recv_spec(after.channel, id).1 == Delivery::Value(line)
            &&& initial_line(after) == line
        }),
{
    lemma_new_subscriber_gets_next(v.channel, id, line);
}

/// Publishing, an error line included, leaves admission as it was: the hub
/// keeps admitting connections after a failed fetch.
pub proof fn lemma_update_keeps_admission(v: HubView, line: Seq<u8>)
    ensures
        update_spec(v, line).admission == v.admission,
        grants(update_spec(v, line).admission) == grants(v.admission),
        update_spec(v, line).cache == Some(line),
{
}

} // verus!
