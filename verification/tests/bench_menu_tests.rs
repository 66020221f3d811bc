use dc_motor_speed_control::bench_menu::{BenchMenuState, BenchReadout, GainAction, PiParam, SpeedSubMode, TopMode};
use dc_motor_speed_control::keypad::{Key, KeyEvent};
use dc_motor_speed_control::sh1106::Sh1106;

fn press(k: Key) -> KeyEvent {
    KeyEvent::Pressed(k)
}

#[test]
fn bench_setpoint_steps_by_ten() {
    let mut s = BenchMenuState::new();
    assert_eq!(s.setpoint, 100);
    assert_eq!(s.handle_event(press(Key::K1)), GainAction::Nothing);
    assert_eq!(s.setpoint, 110);
    s.handle_event(press(Key::K2));
    s.handle_event(press(Key::K2));
    assert_eq!(s.setpoint, 90);
    s.handle_event(KeyEvent::Released(Key::K2));
    assert_eq!(s.setpoint, 90);
}

#[test]
fn bench_step_mode_holds_speed() {
    let mut s = BenchMenuState::new();
    for _ in 0..5 {
        s.update_motor();
    }
    let held = s.actual;
    s.handle_event(press(Key::K4));
    assert_eq!(s.speed_sub, SpeedSubMode::Step);
    assert_eq!(s.step_hold_speed, held);
    s.handle_event(press(Key::K1));
    s.update_motor();
    assert_eq!(s.actual, held);
    s.handle_event(press(Key::K3));
    assert_eq!(s.speed_sub, SpeedSubMode::Following);
}

#[test]
fn bench_motor_follows_setpoint() {
    let mut s = BenchMenuState::new();
    s.update_motor();
    assert_eq!(s.actual, 10);
    s.update_motor();
    assert_eq!(s.actual, 19);
    let mut prev = s.actual;
    for _ in 0..98 {
        s.update_motor();
        // never overshoots, always gets closer until it arrives
        assert!(s.actual <= 100);
        assert!(s.actual > prev || s.actual == 100);
        prev = s.actual;
    }
    assert_eq!(s.actual, 100);
    // within 10 rpm the motor still moves 1 rpm per update
    s.setpoint = 105;
    s.update_motor();
    assert_eq!(s.actual, 101);
    s.setpoint = 102;
    s.update_motor();
    assert_eq!(s.actual, 102);
    s.setpoint = -48;
    s.update_motor();
    assert_eq!(s.actual, 87);
    s.setpoint = 84;
    s.update_motor();
    assert_eq!(s.actual, 86);
}

#[test]
fn bench_tuning_keys() {
    let mut s = BenchMenuState::new();
    s.handle_event(press(Key::K3));
    assert_eq!(s.top_mode, TopMode::Pi);
    assert_eq!(s.handle_event(press(Key::K1)), GainAction::Raise(PiParam::P));
    s.handle_event(press(Key::K4));
    assert_eq!(s.handle_event(press(Key::K2)), GainAction::Lower(PiParam::I));
    s.handle_event(press(Key::K4));
    assert_eq!(s.pi_sel, PiParam::P);
    let before = s.actual;
    s.update_motor();
    assert_eq!(s.actual, before);
    s.handle_event(press(Key::K3));
    assert_eq!((s.top_mode, s.speed_sub), (TopMode::Speed, SpeedSubMode::Following));
}

#[test]
fn bench_render_partial_refresh() {
    let font6: Vec<[u8; 6]> = (0..96u8).map(|g| [g; 6]).collect();
    let font16: Vec<[u8; 16]> = (0..96u8).map(|g| [g; 16]).collect();
    let r = BenchReadout {
        setpoint_line: String::from("SP: 100rpm"),
        actual_line: String::from("AC:   0rpm"),
        hold_line: String::from("HOLD:   0rpm"),
        p_text: String::from("1.0"),
        i_text: String::from("0.5"),
        p_changed: false,
        i_changed: false,
    };
    let mut s = BenchMenuState::new();
    let mut oled = Sh1106::new();
    s.render(&mut oled, &r, &font6, &font16);
    assert!(oled.take_frames().len() > 32);
    s.render(&mut oled, &r, &font6, &font16);
    assert!(oled.take_frames().is_empty());
    s.update_motor();
    s.render(&mut oled, &r, &font6, &font16);
    let mut e = Sh1106::new();
    e.clear_cols(3, 0, 70);
    e.draw_string_6x8(3, 0, "AC:   0rpm", &font6);
    assert_eq!(oled.take_frames(), e.take_frames());
}

#[test]
fn bench_raise_then_lower_restores_setpoint() {
    let mut s = BenchMenuState::new();
    s.setpoint = i32::MAX - 10;
    s.handle_event(press(Key::K1));
    assert_eq!(s.setpoint, i32::MAX);
    s.handle_event(press(Key::K2));
    assert_eq!(s.setpoint, i32::MAX - 10);
}
