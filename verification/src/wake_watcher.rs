//! The registry of suspended stream readers: whoever finds nothing to read
//! leaves a waker here, and every publication wakes all of them.

use std::task::Waker;
use vstd::prelude::*;

verus! {

/// A handle that resumes a suspended task. Nothing inside it is visible
/// here.
#[verifier::external_type_specification]
#[verifier::external_body]
pub struct ExWaker(Waker);

/// `Waker::wake_by_ref` resumes the task behind the waker and leaves the
/// waker usable. It returns nothing, so nothing is stated of it.
#[verifier::external_body]
fn wake_by_ref(waker: &Waker) {
    waker.wake_by_ref()
}

/// The wakers of the readers that are waiting for the next publication, in
/// the order in which they registered.
pub struct WakeWatcher {
    wakers: Vec<Waker>,
}

impl View for WakeWatcher {
    type V = Seq<Waker>;

    closed spec fn view(&self) -> Seq<Waker> {
        self.wakers@
    }
}

impl WakeWatcher {
    /// A registry with nobody waiting.
    pub fn new() -> (watcher: Self)
        ensures
            watcher@ == Seq::<Waker>::empty(),
    {
        WakeWatcher { wakers: Vec::new() }
    }

    /// The number of readers that are waiting.
    pub fn len(&self) -> (count: usize)
        ensures
            count == self@.len(),
    {
        self.wakers.len()
    }

    /// Wakes every registered reader once, in the order of registration,
    /// and forgets them all. Returns how many were woken.
    pub fn wake(&mut self) -> (woken: usize)
        ensures
            woken == old(self)@.len(),
            final(self)@ == Seq::<Waker>::empty(),
    {
        let mut woken: usize = 0;
        while woken < self.wakers.len()
            invariant
                woken <= self.wakers.len(),
                self.wakers@ == old(self).wakers@,
            decreases self.wakers.len() - woken,
        {
            wake_by_ref(&self.wakers[woken]);
            woken += 1;
        }
        self.wakers.clear();
        woken
    }

    /// Registers a reader: it is woken by the next call of
    /// [`WakeWatcher::wake`].
    pub fn add_waker(&mut self, waker: Waker)
        ensures
            final(self)@ == old(self)@.push(waker),
    {
        self.wakers.push(waker);
    }
}

} // verus!
