//! Admission control: a bound on the number of connections served at once.
//!
//! Each admitted connection holds a permit. A permit is handed out only
//! while fewer than `capacity` are held, and returning one frees its slot.
//! Waiting for a slot is the caller's part: when [`Admission::try_acquire`]
//! answers `Full`, the caller suspends until a permit is released.

use vstd::prelude::*;

verus! {

/// A token for one occupied connection slot.
pub struct Permit {
    id: u64,
}

impl Permit {
    pub closed spec fn spec_id(&self) -> u64 {
        self.id
    }

    /// The permit's identity, unique among the permits of one controller.
    pub fn id(&self) -> (r: u64)
        ensures
            r == self.spec_id(),
    {
        self.id
    }
}

/// The result of [`Admission::try_acquire`].
pub enum Acquire {
    Granted(Permit),
    /// Every slot is taken; try again after a release.
    Full,
    /// The controller was shut down; no permit will be granted.
    ShuttingDown,
}

/// The abstract state of an admission controller.
pub struct AdmissionView {
    pub capacity: nat,
    /// The ids of the permits currently held.
    pub held: Set<u64>,
    /// The id the next granted permit gets.
    pub next_id: nat,
    pub shut_down: bool,
}

/// Whether an acquire on state `v` grants a permit.
pub open spec fn grants(v: AdmissionView) -> bool {
    !v.shut_down && v.held.len() < v.capacity
}

/// The state after a granted acquire.
pub open spec fn grant_spec(v: AdmissionView) -> AdmissionView {
    AdmissionView {
        held: v.held.insert(v.next_id as u64),
        next_id: v.next_id + 1,
        ..v
    }
}

/// The state after releasing the permit with id `id`.
pub open spec fn release_spec(v: AdmissionView, id: u64) -> AdmissionView {
    AdmissionView { held: v.held.remove(id), ..v }
}

pub struct Admission {
    capacity: usize,
    held: Vec<u64>,
    next_id: u64,
    shut_down: bool,
}

impl View for Admission {
    type V = AdmissionView;

    closed spec fn view(&self) -> AdmissionView {
        AdmissionView {
            capacity: self.capacity as nat,
            held: self.held@.to_set(),
            next_id: self.next_id as nat,
            shut_down: self.shut_down,
        }
    }
}

impl Admission {
    /// The controller's internal invariant.
    pub closed spec fn wf(&self) -> bool {
        &&& self.held@.len() <= self.capacity
        &&& self.held@.no_duplicates()
        &&& forall|i: int| 0 <= i < self.held@.len() ==> #[trigger] self.held@[i] < self.next_id
    }

    proof fn lemma_held_len(&self)
        requires
            self.wf(),
        ensures
            self@.held.finite(),
            self@.held.len() == self.held@.len(),
            self@.held.len() <= self@.capacity,
            forall|x: u64| #[trigger] self@.held.contains(x) ==> x < self@.next_id,
    {
        self.held@.unique_seq_to_set();
        assert forall|x: u64| #[trigger] self@.held.contains(x) implies x < self@.next_id by {
            let j = choose|j: int| 0 <= j < self.held@.len() && self.held@[j] == x;
            assert(self.held@[j] < self.next_id);
        }
    }

    /// A controller with `capacity` free slots.
    pub fn new(capacity: usize) -> (r: Admission)
        ensures
            r.wf(),
            r@ == fresh(capacity as nat),
    {
        let r = Admission { capacity, held: Vec::new(), next_id: 0, shut_down: false };
        assert(r@.held =~= Set::<u64>::empty());
        r
    }

    /// Number of permits currently held.
    pub fn active(&self) -> (r: usize)
        requires
            self.wf(),
        ensures
            r == self@.held.len(),
    {
        proof { self.lemma_held_len(); }
        self.held.len()
    }

    /// Number of permits granted so far.
    pub fn granted(&self) -> (r: u64)
        ensures
            r == self@.next_id,
    {
        self.next_id
    }

    /// Number of free slots.
    pub fn available(&self) -> (r: usize)
        requires
            self.wf(),
        ensures
            r == self@.capacity - self@.held.len(),
    {
        proof { self.lemma_held_len(); }
        self.capacity - self.held.len()
    }

    /// A well-formed controller never has more permits out than its capacity.
    pub proof fn lemma_bounded(&self)
        requires
            self.wf(),
        ensures
            self@.held.finite(),
            self@.held.len() <= self@.capacity,
    {
        self.lemma_held_len();
    }

    /// Grants a permit if a slot is free and the controller runs.
    pub fn try_acquire(&mut self) -> (r: Acquire)
        requires
            old(self).wf(),
            old(self)@.next_id < u64::MAX,
        ensures
            final(self).wf(),
            old(self)@.shut_down ==> r is ShuttingDown && final(self)@ == old(self)@,
            !old(self)@.shut_down && !grants(old(self)@) ==> r is Full && final(self)@ == old(self)@,
            grants(old(self)@) ==> r is Granted && r->Granted_0.spec_id() == old(self)@.next_id
                && !old(self)@.held.contains(r->Granted_0.spec_id())
                && final(self)@ == grant_spec(old(self)@),
    {
        proof { self.lemma_held_len(); }
        if self.shut_down {
            return Acquire::ShuttingDown;
        }
        if self.held.len() >= self.capacity {
            return Acquire::Full;
        }
        let id = self.next_id;
        let ghost old_held = self.held@;
        self.held.push(id);
        self.next_id = self.next_id + 1;
        proof {
            old_held.lemma_push_to_set_commute(id);
            assert forall|i: int, j: int| 0 <= i < j < self.held@.len()
                implies self.held@[i] != self.held@[j] by {
                if j == old_held.len() {
                    assert(old_held[i] < id);
                }
            }
        }
        Acquire::Granted(Permit { id })
    }

    /// Returns the slot of `permit`. Releasing a permit that is not held
    /// (already released, or of another controller) changes nothing.
    /// Answers whether a slot was freed.
    pub fn release(&mut self, permit: &Permit) -> (r: bool)
        requires
            old(self).wf(),
        ensures
            final(self).wf(),
            r == old(self)@.held.contains(permit.spec_id()),
            final(self)@ == release_spec(old(self)@, permit.spec_id()),
    {
        let id = permit.id;
        let ghost old_held = self.held@;
        let ghost pre = self@;
        let mut i: usize = 0;
        while i < self.held.len()
            invariant
                self.wf(),
                self.held@ == old_held,
                self.capacity == pre.capacity,
                self.next_id == pre.next_id,
                self.shut_down == pre.shut_down,
                pre.held == old_held.to_set(),
                pre == old(self)@,
                id == permit.spec_id(),
                i <= old_held.len(),
                forall|j: int| 0 <= j < i ==> #[trigger] old_held[j] != id,
            decreases old_held.len() - i,
        {
            if self.held[i] == id {
                self.held.remove(i);
                proof {
                    let s = self.held@;
                    assert(old_held[i as int] == id);
                    assert(s =~= old_held.subrange(0, i as int) + old_held.subrange(i + 1, old_held.len() as int));
                    assert forall|k: int| 0 <= k < s.len() implies #[trigger] s[k] == (if k < i { old_held[k] } else { old_held[k + 1] }) by {}
                    assert forall|x: u64| #[trigger] s.to_set().contains(x) == old_held.to_set().remove(id).contains(x) by {
                        if s.contains(x) {
                            let k = choose|k: int| 0 <= k < s.len() && s[k] == x;
                            if k < i {
                                assert(old_held[k] == x);
                            } else {
                                assert(old_held[k + 1] == x);
                                assert(k + 1 != i);
                            }
                            assert(old_held.contains(x));
                        }
                        if old_held.contains(x) && x != id {
                            let k = choose|k: int| 0 <= k < old_held.len() && old_held[k] == x;
                            if k < i {
                                assert(s[k] == x);
                            } else {
                                assert(k != i);
                                assert(s[k - 1] == x);
                            }
                            assert(s.contains(x));
                        }
                    }
                    assert(self@.held =~= old_held.to_set().remove(id));
                    assert(old_held.contains(id));
                    assert(old_held.to_set().contains(id));
                    assert(self@ == release_spec(pre, id));
                }
                return true;
            }
            i = i + 1;
        }
        proof {
            assert(!old_held.to_set().contains(id)) by {
                if old_held.contains(id) {
                    let k = choose|k: int| 0 <= k < old_held.len() && old_held[k] == id;
                    assert(old_held[k] != id);
                }
            }
            assert(self@.held =~= old_held.to_set().remove(id));
        }
        false
    }

    /// Stops granting permits; held permits stay valid and can be released.
    pub fn shutdown(&mut self)
        requires
            old(self).wf(),
        ensures
            final(self).wf(),
            final(self)@ == (AdmissionView { shut_down: true, ..old(self)@ }),
    {
        self.shut_down = true;
    }
}

/// A fresh controller's state.
pub open spec fn fresh(capacity: nat) -> AdmissionView {
    AdmissionView { capacity, held: Set::empty(), next_id: 0, shut_down: false }
}

/// The state after `n` granted acquires from `v`.
pub open spec fn grant_n(v: AdmissionView, n: nat) -> AdmissionView
    decreases n,
{
    if n == 0 {
        v
    } else {
        grant_spec(grant_n(v, (n - 1) as nat))
    }
}

proof fn lemma_grant_n_held(capacity: nat, n: nat)
    requires
        n <= u64::MAX,
    ensures
        grant_n(fresh(capacity), n).held.finite(),
        grant_n(fresh(capacity), n).held.len() == n,
        grant_n(fresh(capacity), n).next_id == n,
        grant_n(fresh(capacity), n).capacity == capacity,
        !grant_n(fresh(capacity), n).shut_down,
        forall|x: u64| #[trigger] grant_n(fresh(capacity), n).held.contains(x) ==> x < n,
    decreases n,
{
    if n > 0 {
        lemma_grant_n_held(capacity, (n - 1) as nat);
    }
}

/// With capacity `capacity`, the first `capacity` acquires on a fresh
/// controller are all granted, and the one after them is not.
pub proof fn lemma_admits_up_to_capacity(capacity: nat, n: nat)
    requires
        capacity <= u64::MAX,
        n <= capacity,
    ensures
        n < capacity ==> grants(grant_n(fresh(capacity), n)),
        n == capacity ==> !grants(grant_n(fresh(capacity), n)),
{
    lemma_grant_n_held(capacity, n);
}

/// Releasing a held permit frees a slot: the next acquire is granted while
/// the controller runs.
pub proof fn lemma_release_frees_slot(v: AdmissionView, id: u64)
    requires
        v.held.finite(),
        v.held.len() <= v.capacity,
        v.held.contains(id),
        !v.shut_down,
    ensures
        grants(release_spec(v, id)),
        release_spec(v, id).held.len() == v.held.len() - 1,
{
}

} // verus!
