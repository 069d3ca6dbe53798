//! The sleep/wake scheduler: why the badge woke up, what one pass on battery
//! does, and in which order the badge goes back to sleep.

use vstd::prelude::*;
use crate::clock::DateTime;
use crate::config::Config;
use crate::image::{rotated, shift, steps_of, ImageIndex, Shift};
use crate::state::{Button, CurrentWeather, PersistedState, Screen};

verus! {

/// The wake lines, sampled once at boot.
#[derive(Clone, Copy, PartialEq, Eq, Structural, Debug)]
pub struct WakeInputs {
    pub up: bool,
    pub down: bool,
    pub a: bool,
    pub b: bool,
    pub c: bool,
    pub rtc_alarm: bool,
}

/// Why the badge has power.
#[derive(Clone, Copy, PartialEq, Eq, Structural, Debug)]
pub enum WakeReason {
    /// A button is held down.
    Button(Button),
    /// The clock chip raised its alarm.
    Alarm,
    /// Neither: the badge runs on external power.
    ExternalPower,
}

/// The reason that the sampled lines give. Where several lines are high the
/// first in the order Up, Down, A, B, C, alarm decides.
pub open spec fn wake_reason_of(inputs: WakeInputs) -> WakeReason {
    if inputs.up {
        WakeReason::Button(Button::Up)
    } else if inputs.down {
        WakeReason::Button(Button::Down)
    } else if inputs.a {
        WakeReason::Button(Button::A)
    } else if inputs.b {
        WakeReason::Button(Button::B)
    } else if inputs.c {
        WakeReason::Button(Button::C)
    } else if inputs.rtc_alarm {
        WakeReason::Alarm
    } else {
        WakeReason::ExternalPower
    }
}

/// Classifies the wake-up from the lines sampled at boot.
pub fn classify_wake(inputs: WakeInputs) -> (reason: WakeReason)
    ensures
        reason == wake_reason_of(inputs),
{
    if inputs.up {
        WakeReason::Button(Button::Up)
    } else if inputs.down {
        WakeReason::Button(Button::Down)
    } else if inputs.a {
        WakeReason::Button(Button::A)
    } else if inputs.b {
        WakeReason::Button(Button::B)
    } else if inputs.c {
        WakeReason::Button(Button::C)
    } else if inputs.rtc_alarm {
        WakeReason::Alarm
    } else {
        WakeReason::ExternalPower
    }
}

/// What this boot is to do.
#[derive(Clone, Copy, PartialEq, Eq, Structural, Debug)]
pub struct BootPlan {
    /// Stay resident and never sleep.
    pub external_power: bool,
    /// Sync time and weather over the network.
    pub sync_wifi: bool,
    /// The redraw to request.
    pub refresh: Screen,
    /// Where to move the image selection.
    pub image_dir: Shift,
}

/// The plan for a wake-up. `now` is the time of the clock chip, where it could
/// be read; it matters for an alarm only, which syncs and redraws in full on
/// the hour and refreshes the header otherwise.
pub open spec fn boot_plan_of(reason: WakeReason, now: Option<DateTime>) -> BootPlan {
    match reason {
        WakeReason::Button(Button::Up) => BootPlan {
            external_power: false,
            sync_wifi: false,
            refresh: Screen::Image,
            image_dir: Shift::Prev,
        },
        WakeReason::Button(Button::Down) => BootPlan {
            external_power: false,
            sync_wifi: false,
            refresh: Screen::Image,
            image_dir: Shift::Next,
        },
        WakeReason::Button(Button::A) => BootPlan {
            external_power: false,
            sync_wifi: true,
            refresh: Screen::TopBar,
            image_dir: Shift::Stay,
        },
        WakeReason::Button(Button::B) => BootPlan {
            external_power: false,
            sync_wifi: false,
            refresh: Screen::Full,
            image_dir: Shift::Stay,
        },
        WakeReason::Button(Button::C) => BootPlan {
            external_power: false,
            sync_wifi: false,
            refresh: Screen::TopBar,
            image_dir: Shift::Stay,
        },
        WakeReason::Alarm => {
            let on_the_hour = now is Some && now->0.minute == 0;
            BootPlan {
                external_power: false,
                sync_wifi: on_the_hour,
                refresh: if on_the_hour {
                    Screen::Full
                } else {
                    Screen::TopBar
                },
                image_dir: Shift::Stay,
            }
        },
        WakeReason::ExternalPower => BootPlan {
            external_power: true,
            sync_wifi: true,
            refresh: Screen::Full,
            image_dir: Shift::Stay,
        },
    }
}

/// Decides what this boot is to do.
pub fn boot_plan(reason: WakeReason, now: Option<DateTime>) -> (plan: BootPlan)
    ensures
        plan == boot_plan_of(reason, now),
{
    let mut plan = BootPlan {
        external_power: false,
        sync_wifi: false,
        refresh: Screen::TopBar,
        image_dir: Shift::Stay,
    };
    match reason {
        WakeReason::Button(Button::Up) => {
            plan.image_dir = Shift::Prev;
            plan.refresh = Screen::Image;
        },
        WakeReason::Button(Button::Down) => {
            plan.image_dir = Shift::Next;
            plan.refresh = Screen::Image;
        },
        WakeReason::Button(Button::A) => {
            plan.sync_wifi = true;
            plan.refresh = Screen::TopBar;
        },
        WakeReason::Button(Button::B) => {
            plan.refresh = Screen::Full;
        },
        WakeReason::Button(Button::C) => {
            plan.refresh = Screen::TopBar;
        },
        WakeReason::Alarm => {
            match now {
                Some(moment) => {
                    if moment.minute == 0 {
                        plan.sync_wifi = true;
                        plan.refresh = Screen::Full;
                    }
                },
                None => {},
            }
        },
        WakeReason::ExternalPower => {
            plan.external_power = true;
            plan.sync_wifi = true;
            plan.refresh = Screen::Full;
        },
    }
    plan
}

/// The selection after a boot: the stored position, or the first image when
/// none was stored, clamped to the images there are and then moved as the
/// wake-up button says.
pub open spec fn restored_position(count: int, stored: Option<u8>, dir: Shift) -> int {
    let start = match stored {
        Some(position) => if position < count {
            position as int
        } else {
            count - 1
        },
        None => 0,
    };
    rotated(start, count, steps_of(dir))
}

/// Brings the image selection back after a power cycle and applies the move
/// of the wake-up button. Returns the byte to store for the next boot.
pub fn restore_image(index: &mut ImageIndex, stored: Option<u8>, dir: Shift) -> (keep: u8)
    requires
        old(index).wf(),
    ensures
        final(index).wf(),
        final(index).count == old(index).count,
        final(index).current == restored_position(old(index).count as int, stored, dir),
        keep == final(index).current % 256,
{
    let position: usize = match stored {
        Some(byte) => byte as usize,
        None => 0,
    };
    crate::image::set(index, position);
    shift(index, dir);
    (index.current % 256) as u8
}

/// When the clock chip is to raise its next alarm: at this second, and in this
/// minute of the hour where one is given.
#[derive(Clone, Copy, PartialEq, Eq, Structural, Debug)]
pub struct AlarmSetting {
    pub second: u8,
    pub minute: Option<u8>,
}

/// The next alarm after `now` for wake-ups every `interval` minutes: the start
/// of the next minute of the hour that is a multiple of `interval`. With an
/// interval of 0 or 1, or an unknown time, it is the start of the next minute.
pub open spec fn next_alarm_of(now: Option<DateTime>, interval: u8) -> AlarmSetting {
    if interval <= 1 || now is None {
        AlarmSetting { second: 0, minute: None }
    } else {
        AlarmSetting {
            second: 0,
            minute: Some((((now->0.minute / interval + 1) * interval) % 60) as u8),
        }
    }
}

/// Computes the next alarm.
pub fn next_alarm(now: Option<DateTime>, interval: u8) -> (alarm: AlarmSetting)
    ensures
        alarm == next_alarm_of(now, interval),
        alarm.second == 0,
        alarm.minute matches Some(minute) ==> minute < 60,
{
    match now {
        Some(moment) => {
            if interval <= 1 {
                AlarmSetting { second: 0, minute: None }
            } else {
                let rounds: u32 = (moment.minute / interval) as u32 + 1;
                assert(rounds * (interval as u32) <= 256 * 255) by (nonlinear_arith)
                    requires
                        rounds <= 256,
                        interval <= 255,
                ;
                let minute: u32 = (rounds * (interval as u32)) % 60;
                AlarmSetting { second: 0, minute: Some(minute as u8) }
            }
        },
        None => AlarmSetting { second: 0, minute: None },
    }
}

/// One step of a boot.
#[derive(Clone, Copy, PartialEq, Eq, Structural, Debug)]
pub enum BootStep {
    /// Drive the power latch high, so that the badge stays on.
    HoldPower,
    /// Read the persisted state back from flash.
    LoadState,
    /// Ask the clock chip whether its oscillator had stopped.
    CheckClockTrust,
    /// Bring the shared clock up to date from the clock chip.
    ReadClock,
    /// Switch the alarms of the clock chip off and clear the alarm flag.
    ClearAlarm,
    /// Bring the image selection back and move it in this direction.
    RestoreImage(Shift),
    /// Start the listeners and the periodic tasks of resident mode.
    StartResidentTasks,
    /// Start the display refresh controller.
    StartDisplay,
    /// Wait until the power rail is free.
    AwaitRail,
    /// Run one sync cycle.
    SyncOnce,
    /// Run sync cycles for as long as the badge has power.
    SyncForever,
    /// Post a redraw request.
    Post(Screen),
    /// Wait this many seconds.
    WaitSecs(u64),
    /// Wait this many milliseconds.
    WaitMillis(u64),
    /// Write the persisted state.
    Persist,
    /// Tell the clock chip when to raise the alarm.
    SetAlarm(AlarmSetting),
    /// Switch the alarm on.
    EnableAlarm,
    /// Let the alarm drive the wake line.
    EnableAlarmInterrupt,
    /// Drive the power latch low: the badge loses power.
    CutPower,
}

/// What every boot starts with, up to the point where the time is known.
pub open spec fn boot_prologue(reason: WakeReason) -> Seq<BootStep> {
    seq![
        BootStep::HoldPower,
        BootStep::LoadState,
        BootStep::CheckClockTrust,
        BootStep::ReadClock,
    ] + (if reason == WakeReason::Alarm {
        seq![BootStep::ClearAlarm]
    } else {
        Seq::empty()
    })
}

/// The steps of a boot before its plan can be made.
pub fn boot_start(reason: WakeReason) -> (steps: Vec<BootStep>)
    ensures
        steps@ == boot_prologue(reason),
{
    let mut steps: Vec<BootStep> = Vec::new();
    steps.push(BootStep::HoldPower);
    steps.push(BootStep::LoadState);
    steps.push(BootStep::CheckClockTrust);
    steps.push(BootStep::ReadClock);
    match reason {
        WakeReason::Alarm => {
            steps.push(BootStep::ClearAlarm);
        },
        _ => {},
    }
    assert(steps@ =~= boot_prologue(reason));
    steps
}

/// What a boot does once its plan is made. On external power the badge stays
/// resident. On battery it makes one pass: an optional sync, one redraw, time
/// for the panel to finish, and the state written down.
pub open spec fn pass_steps(plan: BootPlan, config: Config) -> Seq<BootStep> {
    if plan.external_power {
        seq![
            BootStep::RestoreImage(plan.image_dir),
            BootStep::StartResidentTasks,
            BootStep::Post(Screen::Full),
            BootStep::StartDisplay,
            BootStep::AwaitRail,
            BootStep::SyncForever,
        ]
    } else {
        seq![
            BootStep::RestoreImage(plan.image_dir),
            BootStep::StartDisplay,
            BootStep::AwaitRail,
        ] + (if plan.sync_wifi {
            seq![BootStep::SyncOnce]
        } else {
            Seq::empty()
        }) + seq![
            BootStep::Post(plan.refresh),
            BootStep::WaitSecs(config.settle_secs),
            BootStep::Persist,
        ]
    }
}

/// The steps of a boot that follow from its plan.
pub fn boot_pass(plan: BootPlan, config: Config) -> (steps: Vec<BootStep>)
    ensures
        steps@ == pass_steps(plan, config),
{
    let mut steps: Vec<BootStep> = Vec::new();
    steps.push(BootStep::RestoreImage(plan.image_dir));
    if plan.external_power {
        steps.push(BootStep::StartResidentTasks);
        steps.push(BootStep::Post(Screen::Full));
    }
    steps.push(BootStep::StartDisplay);
    steps.push(BootStep::AwaitRail);
    if plan.external_power {
        steps.push(BootStep::SyncForever);
    } else {
        if plan.sync_wifi {
            steps.push(BootStep::SyncOnce);
        }
        steps.push(BootStep::Post(plan.refresh));
        steps.push(BootStep::WaitSecs(config.settle_secs));
        steps.push(BootStep::Persist);
    }
    assert(steps@ =~= pass_steps(plan, config));
    steps
}

/// Milliseconds to the end of the running second.
pub open spec fn rest_of_second(millisecond: u16) -> int {
    if millisecond < 1000 {
        1000 - millisecond
    } else {
        0
    }
}

/// How the badge goes to sleep: the refresh loop is ended, the alarm is set
/// and switched on, and only then, a second later, the power is cut. At the
/// very start of a minute the rest of that second is waited out first, so that
/// the alarm is not set for the second that is running.
pub open spec fn sleep_steps(config: Config, now: Option<DateTime>, millisecond: u16) -> Seq<
    BootStep,
> {
    seq![BootStep::Post(Screen::Shutdown)] + (if now is Some && now->0.second == 0 {
        seq![BootStep::WaitMillis(rest_of_second(millisecond) as u64)]
    } else {
        Seq::empty()
    }) + seq![
        BootStep::SetAlarm(next_alarm_of(now, config.alarm_interval_minutes)),
        BootStep::EnableAlarm,
        BootStep::EnableAlarmInterrupt,
        BootStep::WaitSecs(1),
        BootStep::CutPower,
    ]
}

/// The steps that send the badge to sleep. `now` is the time of the clock
/// chip, where it could be read, and `millisecond` the fraction of its second.
pub fn nighty_night(config: Config, now: Option<DateTime>, millisecond: u16) -> (steps: Vec<
    BootStep,
>)
    ensures
        steps@ == sleep_steps(config, now, millisecond),
{
    let mut steps: Vec<BootStep> = Vec::new();
    steps.push(BootStep::Post(Screen::Shutdown));
    if let Some(moment) = now {
        if moment.second == 0 {
            let rest: u64 = if millisecond < 1000 {
                (1000 - millisecond) as u64
            } else {
                0
            };
            steps.push(BootStep::WaitMillis(rest));
        }
    }
    steps.push(BootStep::SetAlarm(next_alarm(now, config.alarm_interval_minutes)));
    steps.push(BootStep::EnableAlarm);
    steps.push(BootStep::EnableAlarmInterrupt);
    steps.push(BootStep::WaitSecs(1));
    steps.push(BootStep::CutPower);
    assert(steps@ =~= sleep_steps(config, now, millisecond));
    steps
}

/// Whether a step asks for a redraw of the screen.
pub open spec fn is_redraw(step: BootStep) -> bool {
    step is Post && step->Post_0 != Screen::Shutdown
}

/// Everything a boot on battery does after its plan is made: the pass, then
/// the way to sleep. `now` and `millisecond` are what the clock chip shows
/// when the pass is over.
pub open spec fn battery_steps(
    plan: BootPlan,
    config: Config,
    now: Option<DateTime>,
    millisecond: u16,
) -> Seq<BootStep> {
    pass_steps(plan, config) + sleep_steps(config, now, millisecond)
}

/// A boot on battery redraws once and sleeps in the right order.
///
/// Whatever woke the badge, short of external power: exactly one step asks
/// for a redraw; the state is written down after it; the alarm is set and
/// switched on after the state is written down; and the power is cut last of
/// all, and nowhere before. Without a reason to sync there is no sync.
pub proof fn lemma_battery_pass_order(
    reason: WakeReason,
    clock: Option<DateTime>,
    config: Config,
    now: Option<DateTime>,
    millisecond: u16,
)
    requires
        reason != WakeReason::ExternalPower,
    ensures
        ({
            let plan = boot_plan_of(reason, clock);
            let steps = battery_steps(plan, config, now, millisecond);
            let redraw = if plan.sync_wifi {
                4int
            } else {
                3int
            };
            let persist = redraw + 2;
            let alarm = steps.len() - 5;
            &&& !plan.external_power
            &&& persist < alarm
            &&& steps[redraw] == BootStep::Post(plan.refresh)
            &&& forall|i: int| 0 <= i < steps.len() && is_redraw(#[trigger] steps[i]) ==> i == redraw
            &&& is_redraw(steps[redraw])
            &&& steps[persist] == BootStep::Persist
            &&& steps[alarm] == BootStep::SetAlarm(
                next_alarm_of(now, config.alarm_interval_minutes),
            )
            &&& steps[alarm + 1] == BootStep::EnableAlarm
            &&& steps[alarm + 2] == BootStep::EnableAlarmInterrupt
            &&& steps[alarm + 4] == BootStep::CutPower
            &&& alarm + 4 == steps.len() - 1
            &&& forall|i: int| 0 <= i < steps.len() - 1 ==> #[trigger] steps[i] != BootStep::CutPower
            &&& forall|i: int|
                0 <= i < steps.len() ==> #[trigger] steps[i] != BootStep::SyncForever && (
                !plan.sync_wifi ==> steps[i] != BootStep::SyncOnce)
        }),
{
}

/// On external power the badge never cuts its own power.
pub proof fn lemma_resident_never_sleeps(clock: Option<DateTime>, config: Config)
    ensures
        ({
            let steps = pass_steps(boot_plan_of(WakeReason::ExternalPower, clock), config);
            &&& steps.last() == BootStep::SyncForever
            &&& forall|i: int| 0 <= i < steps.len() ==> #[trigger] steps[i] != BootStep::CutPower
        }),
{
}

/// The state to write down: the selected image as the byte that
/// `restore_image` reads back, the count of networks seen, and the last weather
/// report.
pub fn persisted_state(
    index: &ImageIndex,
    networks_seen: u32,
    weather: Option<CurrentWeather>,
) -> (state: PersistedState)
    ensures
        state == (PersistedState {
            image: (index.current % 256) as u8,
            networks_seen,
            weather,
        }),
{
    PersistedState { image: (index.current % 256) as u8, networks_seen, weather }
}

} // verus!
