use badge_core::clock::DateTime;
use badge_core::display::{
    follow, update_screen, Color, Controller, DisplayOp, Phase, Point, Rect, Wake, Waveform,
    HEIGHT, TOP_BAR_HEIGHT, WIDTH,
};
use badge_core::state::{CurrentWeather, Screen};

const TOP_BAR: Rect = Rect { x: 0, y: 0, width: 296, height: 24 };
const TIME_BOX: Rect = Rect { x: 192, y: 0, width: 104, height: 24 };
const IMAGE_AREA: Rect = Rect { x: 0, y: 24, width: 296, height: 104 };

fn moment() -> DateTime {
    DateTime { year: 2026, month: 3, day: 1, hour: 13, minute: 5, second: 9 }
}

fn report() -> CurrentWeather {
    CurrentWeather { temperature: 125, weathercode: 3 }
}

fn inside(area: &Rect, x: i32, y: i32) -> bool {
    let (x, y) = (x as i64, y as i64);
    area.x as i64 <= x
        && x < area.x as i64 + area.width as i64
        && area.y as i64 <= y
        && y < area.y as i64 + area.height as i64
}

fn within(inner: &Rect, outer: &Rect) -> bool {
    outer.x <= inner.x
        && outer.y <= inner.y
        && inner.x as i64 + inner.width as i64 <= outer.x as i64 + outer.width as i64
        && inner.y as i64 + inner.height as i64 <= outer.y as i64 + outer.height as i64
}

#[test]
fn panel_size_is_the_drivers() {
    assert_eq!(WIDTH, uc8151::WIDTH);
    assert_eq!(HEIGHT, uc8151::HEIGHT);
    assert_eq!(TOP_BAR_HEIGHT, 24);
}

#[test]
fn full_request_redraws_everything() {
    let ops = update_screen(Screen::Full, Some(moment()), Some(report()), 2);
    assert_eq!(
        ops,
        vec![
            DisplayOp::Acquire,
            DisplayOp::Enable,
            DisplayOp::Setup(Waveform::Medium),
            DisplayOp::Fill { area: TOP_BAR, fill: Color::On, stroke: Some(Color::Off) },
            DisplayOp::Weather { at: Point { x: 8, y: 16 }, weather: report() },
            DisplayOp::Clock { at: Point { x: 198, y: 16 }, time: moment() },
            DisplayOp::Fill { area: IMAGE_AREA, fill: Color::On, stroke: None },
            DisplayOp::Bitmap { at: Point { x: 0, y: 24 }, image: 2 },
            DisplayOp::Update,
            DisplayOp::Disable,
            DisplayOp::Release,
        ]
    );
}

#[test]
fn full_request_without_time_or_weather() {
    let ops = update_screen(Screen::Full, None, None, 0);
    assert_eq!(
        ops,
        vec![
            DisplayOp::Acquire,
            DisplayOp::Enable,
            DisplayOp::Setup(Waveform::Medium),
            DisplayOp::Fill { area: TOP_BAR, fill: Color::On, stroke: Some(Color::Off) },
            DisplayOp::Fill { area: IMAGE_AREA, fill: Color::On, stroke: None },
            DisplayOp::Bitmap { at: Point { x: 0, y: 24 }, image: 0 },
            DisplayOp::Update,
            DisplayOp::Disable,
            DisplayOp::Release,
        ]
    );
}

#[test]
fn top_bar_request_redraws_the_header_only() {
    let ops = update_screen(Screen::TopBar, Some(moment()), Some(report()), 1);
    assert_eq!(
        ops,
        vec![
            DisplayOp::Acquire,
            DisplayOp::Enable,
            DisplayOp::Setup(Waveform::Fast),
            DisplayOp::Fill { area: TOP_BAR, fill: Color::On, stroke: Some(Color::Off) },
            DisplayOp::Weather { at: Point { x: 8, y: 16 }, weather: report() },
            DisplayOp::Clock { at: Point { x: 198, y: 16 }, time: moment() },
            DisplayOp::PartialUpdate(TOP_BAR),
            DisplayOp::Disable,
            DisplayOp::Release,
        ]
    );
}

#[test]
fn time_request_redraws_the_clock_only() {
    let ops = update_screen(Screen::Time, Some(moment()), Some(report()), 1);
    assert_eq!(
        ops,
        vec![
            DisplayOp::Acquire,
            DisplayOp::Enable,
            DisplayOp::Setup(Waveform::Fast),
            DisplayOp::Fill {
                area: Rect { x: 192, y: 1, width: 88, height: 22 },
                fill: Color::On,
                stroke: None
            },
            DisplayOp::Clock { at: Point { x: 198, y: 16 }, time: moment() },
            DisplayOp::PartialUpdate(TIME_BOX),
            DisplayOp::Disable,
            DisplayOp::Release,
        ]
    );
}

#[test]
fn time_request_without_time_draws_nothing() {
    let ops = update_screen(Screen::Time, None, Some(report()), 1);
    assert_eq!(
        ops,
        vec![
            DisplayOp::Acquire,
            DisplayOp::Enable,
            DisplayOp::Setup(Waveform::Fast),
            DisplayOp::Disable,
            DisplayOp::Release,
        ]
    );
}

#[test]
fn image_request_redraws_the_image_only() {
    let ops = update_screen(Screen::Image, Some(moment()), Some(report()), 1);
    assert_eq!(
        ops,
        vec![
            DisplayOp::Acquire,
            DisplayOp::Enable,
            DisplayOp::Setup(Waveform::Fast),
            DisplayOp::Fill { area: IMAGE_AREA, fill: Color::On, stroke: None },
            DisplayOp::Bitmap { at: Point { x: 0, y: 24 }, image: 1 },
            DisplayOp::PartialUpdate(IMAGE_AREA),
            DisplayOp::Disable,
            DisplayOp::Release,
        ]
    );
}

#[test]
fn image_redraw_is_repeatable() {
    let first = update_screen(Screen::Image, Some(moment()), Some(report()), 2);
    let later = DateTime { hour: 23, minute: 59, ..moment() };
    let second = update_screen(Screen::Image, Some(later), None, 2);
    assert_eq!(first, second);
    let other = update_screen(Screen::Image, Some(moment()), Some(report()), 1);
    assert_ne!(first, other);
}

#[test]
fn partial_requests_stay_inside_their_widget() {
    let cases = [(Screen::TopBar, TOP_BAR), (Screen::Time, TIME_BOX), (Screen::Image, IMAGE_AREA)];
    for (request, area) in cases {
        for clock in [None, Some(moment())] {
            for weather in [None, Some(report())] {
                let ops = update_screen(request, clock, weather, 1);
                for op in &ops {
                    match op {
                        DisplayOp::Fill { area: filled, .. } => assert!(within(filled, &area)),
                        DisplayOp::Weather { at, .. }
                        | DisplayOp::Clock { at, .. }
                        | DisplayOp::Bitmap { at, .. } => assert!(inside(&area, at.x, at.y)),
                        DisplayOp::PartialUpdate(committed) => assert_eq!(*committed, area),
                        DisplayOp::Update => panic!("a partial request commits the whole frame"),
                        _ => {}
                    }
                }
            }
        }
    }
}

#[test]
fn full_request_covers_the_panel() {
    for x in 0..WIDTH as i32 {
        for y in 0..HEIGHT as i32 {
            assert!(inside(&TOP_BAR, x, y) || inside(&IMAGE_AREA, x, y));
            assert!(!(inside(&TOP_BAR, x, y) && inside(&IMAGE_AREA, x, y)));
        }
    }
    let ops = update_screen(Screen::Full, None, None, 0);
    assert_eq!(ops.iter().filter(|op| **op == DisplayOp::Update).count(), 1);
    assert!(!ops.iter().any(|op| matches!(op, DisplayOp::PartialUpdate(_))));
}

#[test]
fn shutdown_request_draws_nothing_in_a_cycle() {
    let ops = update_screen(Screen::Shutdown, Some(moment()), Some(report()), 0);
    assert_eq!(
        ops,
        vec![
            DisplayOp::Acquire,
            DisplayOp::Enable,
            DisplayOp::Setup(Waveform::Fast),
            DisplayOp::Disable,
            DisplayOp::Release,
        ]
    );
}

#[test]
fn every_cycle_returns_to_idle() {
    for request in [Screen::Time, Screen::TopBar, Screen::Image, Screen::Full, Screen::Shutdown] {
        for clock in [None, Some(moment())] {
            for weather in [None, Some(report())] {
                let ops = update_screen(request, clock, weather, 0);
                assert_eq!(follow(Phase::Idle, &ops), Some(Phase::Idle));
                let mut phase = Phase::Idle;
                for (done, op) in ops.iter().enumerate() {
                    phase = phase.after(op).unwrap();
                    if done + 1 < ops.len() {
                        assert_ne!(phase, Phase::Idle);
                        assert_ne!(phase, Phase::Terminated);
                    }
                }
            }
        }
    }
}

#[test]
fn steps_out_of_place_are_refused() {
    assert_eq!(Phase::Idle.after(&DisplayOp::Enable), None);
    assert_eq!(Phase::Idle.after(&DisplayOp::Update), None);
    assert_eq!(Phase::Awake.after(&DisplayOp::Acquire), None);
    assert_eq!(Phase::Drawing.after(&DisplayOp::Release), None);
    assert_eq!(Phase::Committing.after(&DisplayOp::Update), None);
    assert_eq!(Phase::Terminated.after(&DisplayOp::Acquire), None);
    assert_eq!(Phase::Terminated.after(&DisplayOp::DeepSleep), Some(Phase::Terminated));
    assert_eq!(follow(Phase::Idle, &vec![DisplayOp::Acquire, DisplayOp::Update]), None);
    assert_eq!(
        follow(Phase::Idle, &vec![DisplayOp::Update, DisplayOp::Acquire, DisplayOp::Enable]),
        None
    );
    assert_eq!(follow(Phase::Drawing, &vec![]), Some(Phase::Drawing));
}

#[test]
fn controller_redraws_on_request_and_on_timeout() {
    let mut controller = Controller::new();
    assert!(!controller.is_terminated());
    let ops = controller.on_wake(Wake::Request(Screen::Image), None, None, 1);
    assert_eq!(ops, update_screen(Screen::Image, None, None, 1));
    let ops = controller.on_wake(Wake::IdleTimeout, Some(moment()), Some(report()), 1);
    assert_eq!(ops, update_screen(Screen::Full, Some(moment()), Some(report()), 1));
    assert!(!controller.is_terminated());
}

#[test]
fn controller_terminates_on_shutdown() {
    let mut controller = Controller::new();
    let ops = controller.on_wake(Wake::Request(Screen::Shutdown), Some(moment()), None, 0);
    assert_eq!(ops, vec![DisplayOp::Off, DisplayOp::DeepSleep]);
    assert_eq!(follow(Phase::Idle, &ops), Some(Phase::Terminated));
    assert!(controller.is_terminated());
    assert_eq!(controller.on_wake(Wake::Request(Screen::Full), None, None, 0), vec![]);
    assert_eq!(controller.on_wake(Wake::IdleTimeout, None, None, 0), vec![]);
    assert_eq!(controller.on_wake(Wake::Request(Screen::Shutdown), None, None, 0), vec![]);
    assert!(controller.is_terminated());
}

#[test]
fn partial_commits_become_driver_regions() {
    for request in [Screen::Time, Screen::TopBar, Screen::Image] {
        let ops = update_screen(request, Some(moment()), Some(report()), 0);
        let mut commits = 0;
        for op in &ops {
            match op {
                DisplayOp::PartialUpdate(_) => {
                    commits += 1;
                    assert!(op.update_region().is_some());
                }
                _ => assert!(op.update_region().is_none()),
            }
        }
        assert_eq!(commits, 1);
    }
}

#[test]
fn driver_refuses_unaligned_and_negative_regions() {
    let region = |x, y, width, height| {
        DisplayOp::PartialUpdate(Rect { x, y, width, height }).update_region().is_some()
    };
    assert!(region(0, 0, 296, 128));
    assert!(region(5, 8, 3, 16));
    assert!(!region(0, 1, 88, 22));
    assert!(!region(0, 4, 10, 8));
    assert!(!region(0, 8, 10, 12));
    assert!(!region(-1, 0, 10, 8));
    assert!(!region(0, -8, 10, 8));
}
