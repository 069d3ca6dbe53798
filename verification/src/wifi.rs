//! The peripheral sync orchestrator: one cycle of joining the wireless
//! network, fetching time and weather, and leaving again.
//!
//! The cycle is a state machine. The firmware reports what happened as a
//! [`SyncEvent`] and performs the [`SyncAction`]s it gets back, in order.

use vstd::prelude::*;
use crate::config::Config;
use crate::state::Screen;

verus! {

/// Where a sync cycle stands.
#[derive(Clone, Copy, PartialEq, Eq, Structural, Debug)]
pub enum SyncPhase {
    /// No cycle is running.
    Idle,
    /// Waiting for the power rail.
    Acquiring,
    /// Attempt number `attempt` to join is under way.
    Joining { attempt: u32 },
    /// Attempt number `attempt` failed; waiting before the next one.
    Backoff { attempt: u32 },
    /// Joined; waiting for the link and an address.
    Configuring,
    /// The time request and the weather request are under way, side by side.
    Fetching,
    /// Leaving the network.
    Leaving,
}

/// What the firmware reports to the cycle.
#[derive(Clone, Copy, PartialEq, Eq, Structural, Debug)]
pub enum SyncEvent {
    /// A button, an alarm or the hourly timer asks for a sync.
    Trigger,
    /// The power rail is ours.
    RailAcquired,
    /// The network was joined.
    Joined,
    /// The attempt to join failed.
    JoinFailed,
    /// The wait between two attempts is over.
    DelayElapsed,
    /// The link is up and an address is configured.
    AddressReady,
    /// Both requests have ended; each flag says whether its request succeeded.
    Fetched { time: bool, weather: bool },
    /// The network was left.
    Left,
}

/// What the cycle asks the firmware to do.
#[derive(Clone, Copy, PartialEq, Eq, Structural, Debug)]
pub enum SyncAction {
    /// Take the power rail, then report `RailAcquired`.
    AcquireRail,
    /// Try to join, then report `Joined` or `JoinFailed`.
    Join,
    /// Wait this many seconds, then report `DelayElapsed`.
    Wait(u64),
    /// Wait for link and address, then report `AddressReady`.
    AwaitAddress,
    /// Run the time request and the weather request side by side, then report
    /// `Fetched`.
    Fetch,
    /// Leave the network, then report `Left`.
    Leave,
    /// Give the power rail back.
    ReleaseRail,
    /// Post a redraw request.
    Post(Screen),
}

/// The limits of a cycle and what it announces at its end.
#[derive(Clone, Copy, PartialEq, Eq, Structural, Debug)]
pub struct SyncPolicy {
    /// How many attempts to join are made before the cycle is given up.
    pub join_attempts: u32,
    /// Seconds between two attempts.
    pub join_retry_secs: u64,
    /// The redraw request posted once the rail is free again, if any.
    pub announce: Option<Screen>,
}

impl SyncPolicy {
    /// The policy while the badge is resident on external power: at the end of
    /// each cycle the header is redrawn.
    pub fn resident(config: &Config) -> (policy: SyncPolicy)
        ensures
            policy == (SyncPolicy {
                join_attempts: config.join_attempts,
                join_retry_secs: config.join_retry_secs,
                announce: Some(Screen::TopBar),
            }),
    {
        SyncPolicy {
            join_attempts: config.join_attempts,
            join_retry_secs: config.join_retry_secs,
            announce: Some(Screen::TopBar),
        }
    }

    /// The policy for the one cycle of a pass on battery: the pass requests
    /// its redraw itself.
    pub fn one_shot(config: &Config) -> (policy: SyncPolicy)
        ensures
            policy == (SyncPolicy {
                join_attempts: config.join_attempts,
                join_retry_secs: config.join_retry_secs,
                announce: None,
            }),
    {
        SyncPolicy {
            join_attempts: config.join_attempts,
            join_retry_secs: config.join_retry_secs,
            announce: None,
        }
    }
}

/// How a cycle ends: the rail is given back, then the redraw is requested.
pub open spec fn closing_actions(policy: SyncPolicy) -> Seq<SyncAction> {
    match policy.announce {
        Some(request) => seq![SyncAction::ReleaseRail, SyncAction::Post(request)],
        None => seq![SyncAction::ReleaseRail],
    }
}

/// The phase after `event`, and what the firmware is to do. An event that
/// does not belong to the phase changes nothing and asks for nothing.
pub open spec fn sync_step(policy: SyncPolicy, phase: SyncPhase, event: SyncEvent) -> (
    SyncPhase,
    Seq<SyncAction>,
) {
    match (phase, event) {
        (SyncPhase::Idle, SyncEvent::Trigger) => (SyncPhase::Acquiring, seq![SyncAction::AcquireRail]),
        (SyncPhase::Acquiring, SyncEvent::RailAcquired) => if policy.join_attempts > 0 {
            (SyncPhase::Joining { attempt: 1 }, seq![SyncAction::Join])
        } else {
            (SyncPhase::Idle, closing_actions(policy))
        },
        (SyncPhase::Joining { attempt }, SyncEvent::Joined) => (
            SyncPhase::Configuring,
            seq![SyncAction::AwaitAddress],
        ),
        (SyncPhase::Joining { attempt }, SyncEvent::JoinFailed) => (
            SyncPhase::Backoff { attempt },
            seq![SyncAction::Wait(policy.join_retry_secs)],
        ),
        (SyncPhase::Backoff { attempt }, SyncEvent::DelayElapsed) => if attempt
            < policy.join_attempts {
            (SyncPhase::Joining { attempt: (attempt + 1) as u32 }, seq![SyncAction::Join])
        } else {
            (SyncPhase::Idle, closing_actions(policy))
        },
        (SyncPhase::Configuring, SyncEvent::AddressReady) => (
            SyncPhase::Fetching,
            seq![SyncAction::Fetch],
        ),
        (SyncPhase::Fetching, SyncEvent::Fetched { .. }) => (
            SyncPhase::Leaving,
            seq![SyncAction::Leave],
        ),
        (SyncPhase::Leaving, SyncEvent::Left) => (SyncPhase::Idle, closing_actions(policy)),
        _ => (phase, Seq::empty()),
    }
}

/// One sync cycle after another.
#[derive(Clone, Copy, PartialEq, Eq, Structural, Debug)]
pub struct SyncCycle {
    pub policy: SyncPolicy,
    pub phase: SyncPhase,
}

impl SyncCycle {
    /// In a running cycle the attempt counter is within the policy's limit.
    pub open spec fn wf(&self) -> bool {
        match self.phase {
            SyncPhase::Joining { attempt } => 1 <= attempt <= self.policy.join_attempts,
            SyncPhase::Backoff { attempt } => 1 <= attempt <= self.policy.join_attempts,
            _ => true,
        }
    }

    /// An orchestrator at rest.
    pub fn new(policy: SyncPolicy) -> (cycle: SyncCycle)
        ensures
            cycle == (SyncCycle { policy, phase: SyncPhase::Idle }),
            cycle.wf(),
    {
        SyncCycle { policy, phase: SyncPhase::Idle }
    }

    fn closing(&self) -> (actions: Vec<SyncAction>)
        ensures
            actions@ == closing_actions(self.policy),
    {
        let mut actions: Vec<SyncAction> = Vec::new();
        actions.push(SyncAction::ReleaseRail);
        if let Some(request) = self.policy.announce {
            actions.push(SyncAction::Post(request));
        }
        assert(actions@ =~= closing_actions(self.policy));
        actions
    }

    /// Takes one event and says what to do next.
    pub fn on_event(&mut self, event: SyncEvent) -> (actions: Vec<SyncAction>)
        requires
            old(self).wf(),
        ensures
            final(self).wf(),
            final(self).policy == old(self).policy,
            final(self).phase == sync_step(old(self).policy, old(self).phase, event).0,
            actions@ == sync_step(old(self).policy, old(self).phase, event).1,
    {
        let mut actions: Vec<SyncAction> = Vec::new();
        match (self.phase, event) {
            (SyncPhase::Idle, SyncEvent::Trigger) => {
                self.phase = SyncPhase::Acquiring;
                actions.push(SyncAction::AcquireRail);
            },
            (SyncPhase::Acquiring, SyncEvent::RailAcquired) => {
                if self.policy.join_attempts > 0 {
                    self.phase = SyncPhase::Joining { attempt: 1 };
                    actions.push(SyncAction::Join);
                } else {
                    self.phase = SyncPhase::Idle;
                    actions = self.closing();
                }
            },
            (SyncPhase::Joining { attempt }, SyncEvent::Joined) => {
                self.phase = SyncPhase::Configuring;
                actions.push(SyncAction::AwaitAddress);
            },
            (SyncPhase::Joining { attempt }, SyncEvent::JoinFailed) => {
                self.phase = SyncPhase::Backoff { attempt };
                actions.push(SyncAction::Wait(self.policy.join_retry_secs));
            },
            (SyncPhase::Backoff { attempt }, SyncEvent::DelayElapsed) => {
                if attempt < self.policy.join_attempts {
                    self.phase = SyncPhase::Joining { attempt: attempt + 1 };
                    actions.push(SyncAction::Join);
                } else {
                    self.phase = SyncPhase::Idle;
                    actions = self.closing();
                }
            },
            (SyncPhase::Configuring, SyncEvent::AddressReady) => {
                self.phase = SyncPhase::Fetching;
                actions.push(SyncAction::Fetch);
            },
            (SyncPhase::Fetching, SyncEvent::Fetched { .. }) => {
                self.phase = SyncPhase::Leaving;
                actions.push(SyncAction::Leave);
            },
            (SyncPhase::Leaving, SyncEvent::Left) => {
                self.phase = SyncPhase::Idle;
                actions = self.closing();
            },
            _ => {},
        }
        assert(actions@ =~= sync_step(old(self).policy, old(self).phase, event).1);
        actions
    }
}

/// Whether the rail is held in a phase.
pub open spec fn holds_rail(phase: SyncPhase) -> bool {
    phase != SyncPhase::Idle && phase != SyncPhase::Acquiring
}

/// Whether the network is joined in a phase.
pub open spec fn is_joined(phase: SyncPhase) -> bool {
    phase == SyncPhase::Configuring || phase == SyncPhase::Fetching || phase == SyncPhase::Leaving
}

/// The phase after all of `events`, and everything the firmware was asked to
/// do on the way.
pub open spec fn sync_run(policy: SyncPolicy, phase: SyncPhase, events: Seq<SyncEvent>) -> (
    SyncPhase,
    Seq<SyncAction>,
)
    decreases events.len(),
{
    if events.len() == 0 {
        (phase, Seq::empty())
    } else {
        let before = sync_run(policy, phase, events.drop_last());
        let last = sync_step(policy, before.0, events.last());
        (last.0, before.1 + last.1)
    }
}

/// How often `wanted` occurs in `actions`.
pub open spec fn count_of(actions: Seq<SyncAction>, wanted: SyncAction) -> nat
    decreases actions.len(),
{
    if actions.len() == 0 {
        0
    } else {
        count_of(actions.drop_last(), wanted) + (if actions.last() == wanted {
            1nat
        } else {
            0nat
        })
    }
}

/// Counting over two runs of actions is counting over each.
pub proof fn lemma_count_of_concat(first: Seq<SyncAction>, second: Seq<SyncAction>, wanted: SyncAction)
    ensures
        count_of(first + second, wanted) == count_of(first, wanted) + count_of(second, wanted),
    decreases second.len(),
{
    if second.len() == 0 {
        assert(first + second =~= first);
    } else {
        assert((first + second).drop_last() =~= first + second.drop_last());
        lemma_count_of_concat(first, second.drop_last(), wanted);
    }
}

/// The rail is taken only from rest, and never while it is held or already
/// asked for; it is given back exactly on the step that ends a cycle; and it is
/// given back before the redraw is requested.
pub proof fn lemma_sync_rail_discipline(policy: SyncPolicy, phase: SyncPhase, event: SyncEvent)
    ensures
        ({
            let (next, actions) = sync_step(policy, phase, event);
            &&& actions.contains(SyncAction::AcquireRail) <==> phase == SyncPhase::Idle && event
                == SyncEvent::Trigger
            &&& actions.contains(SyncAction::ReleaseRail) <==> phase != SyncPhase::Idle && next
                == SyncPhase::Idle
            &&& actions.contains(SyncAction::ReleaseRail) ==> actions[0] == SyncAction::ReleaseRail
            &&& forall|i: int|
                0 <= i < actions.len() && (#[trigger] actions[i]) is Post ==> i == 1 && actions[0]
                    == SyncAction::ReleaseRail
            &&& holds_rail(next) ==> holds_rail(phase) || event == SyncEvent::RailAcquired
        }),
{
    let (next, actions) = sync_step(policy, phase, event);
    if actions.len() > 0 {
        assert(actions[0] == actions[0]);
    }
    if phase != SyncPhase::Idle && next == SyncPhase::Idle {
        assert(actions[0] == SyncAction::ReleaseRail);
    }
}

/// Once the network is joined it is left before the rail is given back,
/// whatever became of the two requests.
pub proof fn lemma_sync_always_leaves(policy: SyncPolicy, phase: SyncPhase, event: SyncEvent)
    requires
        is_joined(phase),
    ensures
        ({
            let (next, actions) = sync_step(policy, phase, event);
            &&& next == SyncPhase::Idle ==> phase == SyncPhase::Leaving && event == SyncEvent::Left
            &&& is_joined(next) || next == SyncPhase::Idle
            &&& phase == SyncPhase::Fetching && event is Fetched ==> next == SyncPhase::Leaving
                && actions == seq![SyncAction::Leave]
        }),
{
}

/// The attempts that a phase may still make in its cycle.
pub open spec fn attempts_left(policy: SyncPolicy, phase: SyncPhase) -> int {
    match phase {
        SyncPhase::Acquiring => policy.join_attempts as int,
        SyncPhase::Joining { attempt } => policy.join_attempts - attempt,
        SyncPhase::Backoff { attempt } => policy.join_attempts - attempt,
        _ => 0,
    }
}

/// Joining is retried a bounded number of times: over any run of events from
/// rest, the attempts to join number at most `join_attempts` for each time the
/// rail was taken.
pub proof fn lemma_join_attempts_are_bounded(policy: SyncPolicy, events: Seq<SyncEvent>)
    ensures
        ({
            let (reached, actions) = sync_run(policy, SyncPhase::Idle, events);
            &&& (SyncCycle { policy, phase: reached }).wf()
            &&& count_of(actions, SyncAction::Join) + attempts_left(policy, reached)
                <= policy.join_attempts * count_of(actions, SyncAction::AcquireRail)
        }),
    decreases events.len(),
{
    if events.len() == 0 {
    } else {
        lemma_join_attempts_are_bounded(policy, events.drop_last());
        let before = sync_run(policy, SyncPhase::Idle, events.drop_last());
        let last = sync_step(policy, before.0, events.last());
        lemma_count_of_concat(before.1, last.1, SyncAction::Join);
        lemma_count_of_concat(before.1, last.1, SyncAction::AcquireRail);
        lemma_step_counts(policy, before.0, events.last());
        let taken = count_of(before.1, SyncAction::AcquireRail) as int;
        let limit = policy.join_attempts as int;
        assert(limit * (taken + 1) == limit * taken + limit) by (nonlinear_arith);
        assert(limit * (taken + 0) == limit * taken);
    }
}

/// What one step adds to the counts of joins and of rail requests.
proof fn lemma_step_counts(policy: SyncPolicy, phase: SyncPhase, event: SyncEvent)
    requires
        (SyncCycle { policy, phase }).wf(),
    ensures
        ({
            let (next, actions) = sync_step(policy, phase, event);
            let joins = count_of(actions, SyncAction::Join) as int;
            let taken = count_of(actions, SyncAction::AcquireRail) as int;
            &&& (SyncCycle { policy, phase: next }).wf()
            &&& taken == (if phase == SyncPhase::Idle && event == SyncEvent::Trigger {
                1int
            } else {
                0int
            })
            &&& joins + attempts_left(policy, next) <= attempts_left(policy, phase) + (if taken
                == 1 {
                policy.join_attempts as int
            } else {
                0int
            })
        }),
{
    let (next, actions) = sync_step(policy, phase, event);
    reveal_with_fuel(count_of, 3);
    if actions.len() == 1 {
        assert(actions.drop_last() =~= Seq::<SyncAction>::empty());
    } else if actions.len() == 2 {
        assert(actions.drop_last().drop_last() =~= Seq::<SyncAction>::empty());
    }
}

} // verus!
