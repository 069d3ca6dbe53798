use badge_core::buttons::{handle_press, ButtonPhase, ButtonWait, Listener, PressAction};
use badge_core::image::ImageIndex;
use badge_core::state::{Button, Screen};

#[test]
fn press_is_reported_after_the_line_settled_high() {
    let mut listener = Listener::new(Button::B, 50);
    assert_eq!(listener.wait(), ButtonWait::ForHigh);
    assert_eq!(listener.resume(true), None);
    assert_eq!(listener.wait(), ButtonWait::ForMillis(50));
    assert_eq!(listener.resume(true), Some(Button::B));
    assert_eq!(listener.wait(), ButtonWait::ForLow);
    assert_eq!(listener.resume(false), None);
    assert_eq!(listener.wait(), ButtonWait::ForHigh);
    assert_eq!(listener.phase, ButtonPhase::Released);
}

#[test]
fn bounce_is_not_a_press() {
    let mut listener = Listener::new(Button::A, 50);
    assert_eq!(listener.resume(true), None);
    assert_eq!(listener.resume(false), None);
    assert_eq!(listener.wait(), ButtonWait::ForLow);
    assert_eq!(listener.resume(false), None);
    assert_eq!(listener.wait(), ButtonWait::ForHigh);
}

#[test]
fn held_button_is_one_press() {
    let mut listener = Listener::new(Button::C, 20);
    let mut presses = 0;
    for round in 0..10 {
        for wait in 0..3 {
            if listener.resume(true).is_some() {
                presses += 1;
                assert_eq!(wait, 1);
            }
        }
        assert_eq!(presses, round + 1);
        assert_eq!(listener.phase, ButtonPhase::Released);
    }
}

#[test]
fn each_listener_reports_its_own_button() {
    for button in [Button::A, Button::B, Button::C, Button::Up, Button::Down] {
        let mut listener = Listener::new(button, 50);
        listener.resume(true);
        assert_eq!(listener.resume(true), Some(button));
    }
}

#[test]
fn button_a_triggers_a_sync() {
    let mut index = ImageIndex::new(3).unwrap();
    assert_eq!(handle_press(Button::A, &mut index), vec![PressAction::TriggerSync]);
    assert_eq!(index.current, 0);
}

#[test]
fn button_b_forces_a_full_redraw() {
    let mut index = ImageIndex::new(3).unwrap();
    assert_eq!(
        handle_press(Button::B, &mut index),
        vec![PressAction::Blink(1), PressAction::Post(Screen::Full)]
    );
    assert_eq!(index.current, 0);
}

#[test]
fn button_c_rotates_the_image() {
    let mut index = ImageIndex::new(3).unwrap();
    for expected in [1, 2, 0, 1] {
        assert_eq!(
            handle_press(Button::C, &mut index),
            vec![PressAction::Blink(1), PressAction::Post(Screen::Image)]
        );
        assert_eq!(index.current, expected);
        assert_eq!(index.count, 3);
    }
}

#[test]
fn up_and_down_do_nothing_while_resident() {
    let mut index = ImageIndex::new(3).unwrap();
    assert_eq!(handle_press(Button::Up, &mut index), vec![]);
    assert_eq!(handle_press(Button::Down, &mut index), vec![]);
    assert_eq!(index, ImageIndex { current: 0, count: 3 });
}
