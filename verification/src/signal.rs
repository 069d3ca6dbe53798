//! The screen invalidation signal: a mailbox with one slot that says which
//! part of the screen needs redrawing.
//!
//! Posting never waits and never fails: a request that has not been taken yet
//! is overwritten. Requests are snapshots of what should be on screen now, not
//! a log of events, so only the latest one matters.

use vstd::prelude::*;
use embassy_sync::blocking_mutex::raw::NoopRawMutex;
use embassy_sync::signal::Signal;
use crate::state::Screen;

verus! {

/// The mailbox between the tasks that ask for a redraw and the one task that
/// redraws.
#[verifier::external_body]
pub struct ScreenSignal {
    slot: Signal<NoopRawMutex, Screen>,
}

/// What the mailbox holds: nothing, or the one request that was posted last.
pub uninterp spec fn pending(signal: ScreenSignal) -> Seq<Screen>;

/// The slot after a post: the new request, whatever was there.
pub open spec fn after_post(slot: Seq<Screen>, request: Screen) -> Seq<Screen> {
    seq![request]
}

/// What a take hands out, and the slot it leaves behind, which is empty.
pub open spec fn after_take(slot: Seq<Screen>) -> (Option<Screen>, Seq<Screen>) {
    if slot.len() > 0 {
        (Some(slot[0]), Seq::empty())
    } else {
        (None, Seq::empty())
    }
}

/// The slot after a run of posts with no take in between.
pub open spec fn after_posts(slot: Seq<Screen>, requests: Seq<Screen>) -> Seq<Screen>
    decreases requests.len(),
{
    if requests.len() == 0 {
        slot
    } else {
        after_post(after_posts(slot, requests.drop_last()), requests.last())
    }
}

/// `Signal::new`: a new signal holds no value.
#[verifier::external_body]
fn slot_new() -> (signal: ScreenSignal)
    ensures
        pending(signal) == Seq::<Screen>::empty(),
{
    ScreenSignal { slot: Signal::new() }
}

/// `Signal::signal`: stores the value in place of whatever the signal held.
#[verifier::external_body]
fn slot_signal(signal: &mut ScreenSignal, request: Screen)
    ensures
        pending(*final(signal)) == after_post(pending(*old(signal)), request),
{
    signal.slot.signal(request)
}

/// `Signal::try_take`: hands out the value the signal holds, if it holds one,
/// and leaves the signal without a value.
#[verifier::external_body]
fn slot_try_take(signal: &mut ScreenSignal) -> (taken: Option<Screen>)
    ensures
        (taken, pending(*final(signal))) == after_take(pending(*old(signal))),
{
    signal.slot.try_take()
}

/// `Signal::signaled`: whether the signal holds a value; the value stays.
#[verifier::external_body]
fn slot_signaled(signal: &ScreenSignal) -> (full: bool)
    ensures
        full == (pending(*signal).len() > 0),
{
    signal.slot.signaled()
}

impl ScreenSignal {
    /// The request that waits in the mailbox, if there is one.
    pub open spec fn request(&self) -> Option<Screen> {
        after_take(pending(*self)).0
    }

    /// An empty mailbox.
    pub fn new() -> (signal: ScreenSignal)
        ensures
            signal.request() is None,
            pending(signal) == Seq::<Screen>::empty(),
    {
        slot_new()
    }

    /// Posts a request. It replaces a request that has not been taken yet.
    pub fn post(&mut self, request: Screen)
        ensures
            final(self).request() == Some(request),
            pending(*final(self)) == after_post(pending(*old(self)), request),
    {
        slot_signal(self, request);
    }

    /// Takes the pending request out of the mailbox, if there is one.
    pub fn take(&mut self) -> (taken: Option<Screen>)
        ensures
            taken == old(self).request(),
            final(self).request() is None,
            pending(*final(self)) == after_take(pending(*old(self))).1,
    {
        slot_try_take(self)
    }

    /// Whether a request is pending. The request stays in the mailbox.
    pub fn is_posted(&self) -> (posted: bool)
        ensures
            posted == (self.request() is Some),
    {
        slot_signaled(self)
    }

    /// Posts every request of `requests`, in order.
    pub fn post_all(&mut self, requests: &[Screen])
        ensures
            pending(*final(self)) == after_posts(pending(*old(self)), requests@),
            requests@.len() > 0 ==> final(self).request() == Some(requests@.last()),
    {
        let mut done: usize = 0;
        while done < requests.len()
            invariant
                done <= requests@.len(),
                pending(*self) == after_posts(pending(*old(self)), requests@.take(done as int)),
            decreases requests@.len() - done,
        {
            proof {
                assert(requests@.take(done + 1).drop_last() =~= requests@.take(done as int));
            }
            self.post(requests[done]);
            done = done + 1;
        }
        assert(requests@.take(done as int) =~= requests@);
    }
}

/// The latest post wins: after any number of posts with no take in between,
/// one take returns the request that was posted last, and a second take
/// returns nothing. No request posted earlier is ever seen.
pub proof fn lemma_latest_post_wins(slot: Seq<Screen>, requests: Seq<Screen>)
    requires
        requests.len() > 0,
    ensures
        after_take(after_posts(slot, requests)).0 == Some(requests.last()),
        after_take(after_take(after_posts(slot, requests)).1).0 is None,
{
}

} // verus!
