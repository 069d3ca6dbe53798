//! The power domain arbiter: one lock for the rail that the panel, the clock
//! chip and the radio share. The rail cannot feed two of them at once.

use vstd::prelude::*;

verus! {

/// Who may hold the rail.
#[derive(Clone, Copy, PartialEq, Eq, Structural, Debug)]
pub enum Client {
    /// The display refresh controller.
    Display,
    /// The peripheral sync orchestrator.
    Sync,
    /// A read or write of the clock chip.
    Clock,
}

/// What a client does to the rail.
#[derive(Clone, Copy, PartialEq, Eq, Structural, Debug)]
pub enum RailEvent {
    /// The client tries to take the rail.
    Acquire(Client),
    /// The client gives its guard back.
    Release(Client),
}

/// Who holds the rail after an event. An attempt on a rail that is held
/// changes nothing, not even when the holder itself makes it; neither does a
/// release by a client that does not hold the rail.
pub open spec fn holder_after(holder: Option<Client>, event: RailEvent) -> Option<Client> {
    match event {
        RailEvent::Acquire(client) => if holder is None {
            Some(client)
        } else {
            holder
        },
        RailEvent::Release(client) => if holder == Some(client) {
            None
        } else {
            holder
        },
    }
}

/// Who holds the rail after a run of events on a free rail.
pub open spec fn holder_through(events: Seq<RailEvent>) -> Option<Client>
    decreases events.len(),
{
    if events.len() == 0 {
        None
    } else {
        holder_after(holder_through(events.drop_last()), events.last())
    }
}

/// Whether `client` has a guard in hand after a run of events on a free rail:
/// it got one by its last attempt that found the rail free, and has not given
/// it back since.
pub open spec fn has_guard(events: Seq<RailEvent>, client: Client) -> bool
    decreases events.len(),
{
    if events.len() == 0 {
        false
    } else {
        let before = events.drop_last();
        match events.last() {
            RailEvent::Acquire(who) => (who == client && holder_through(before) is None)
                || has_guard(before, client),
            RailEvent::Release(who) => who != client && has_guard(before, client),
        }
    }
}

/// The token of exclusive access to the rail. There is no way to make one but
/// to take the rail, and giving the rail back consumes it.
#[derive(Debug)]
pub struct PowerGuard {
    owner: Client,
}

impl PowerGuard {
    /// The client that took the rail.
    pub closed spec fn owner(&self) -> Client {
        self.owner
    }

    /// The client that took the rail.
    pub fn held_by(&self) -> (client: Client)
        ensures
            client == self.owner(),
    {
        self.owner
    }
}

/// The lock on the rail.
#[derive(Debug)]
pub struct Arbiter {
    pub holder: Option<Client>,
}

impl Arbiter {
    /// A free rail.
    pub fn new() -> (arbiter: Arbiter)
        ensures
            arbiter.holder is None,
    {
        Arbiter { holder: None }
    }

    /// Whether the rail is free.
    pub fn is_free(&self) -> (free: bool)
        ensures
            free == (self.holder is None),
    {
        self.holder.is_none()
    }

    /// Tries to take the rail for `client`. A free rail is taken and a guard
    /// handed out; a rail that is held stays as it is and gives no guard.
    pub fn try_acquire(&mut self, client: Client) -> (guard: Option<PowerGuard>)
        ensures
            final(self).holder == holder_after(old(self).holder, RailEvent::Acquire(client)),
            guard is Some <==> old(self).holder is None,
            guard matches Some(token) ==> token.owner() == client,
    {
        if self.holder.is_none() {
            self.holder = Some(client);
            Some(PowerGuard { owner: client })
        } else {
            None
        }
    }

    /// Gives the rail back. The guard is used up.
    pub fn release(&mut self, guard: PowerGuard)
        ensures
            final(self).holder == holder_after(
                old(self).holder,
                RailEvent::Release(guard.owner()),
            ),
    {
        let client = guard.owner;
        match self.holder {
            Some(holder) => {
                if holder == client {
                    self.holder = None;
                }
            },
            None => {},
        }
    }
}

/// Two guards are never held at once. After any run of attempts and releases
/// by any clients, in any order, the client that has a guard in hand is the
/// one that the rail is held by, so no two clients have one.
pub proof fn lemma_one_guard_at_a_time(events: Seq<RailEvent>)
    ensures
        forall|client: Client| #[trigger]
            has_guard(events, client) <==> holder_through(events) == Some(client),
        forall|one: Client, other: Client|
            has_guard(events, one) && has_guard(events, other) ==> one == other,
    decreases events.len(),
{
    if events.len() > 0 {
        let before = events.drop_last();
        lemma_one_guard_at_a_time(before);
        assert forall|client: Client| #[trigger]
            has_guard(events, client) <==> holder_through(events) == Some(client) by {
            assert(has_guard(before, client) <==> holder_through(before) == Some(client));
        }
    }
}

/// Taking the rail twice without giving it back cannot succeed: the holder's
/// own second attempt leaves the rail as it is.
pub proof fn lemma_no_reentrant_acquire(events: Seq<RailEvent>, client: Client)
    requires
        has_guard(events, client),
    ensures
        holder_through(events.push(RailEvent::Acquire(client))) == holder_through(events),
{
    lemma_one_guard_at_a_time(events);
    assert(events.push(RailEvent::Acquire(client)).drop_last() =~= events);
}

} // verus!
