use dc_motor_speed_control::keypad::{Key, KeyEvent};
use dc_motor_speed_control::menu::{MenuAction, MenuState, PidParam, Readout, SpeedSubMode, TopMode};
use dc_motor_speed_control::sh1106::Sh1106;

fn press(k: Key) -> KeyEvent {
    KeyEvent::Pressed(k)
}

fn font6() -> Vec<[u8; 6]> {
    (0..96u8).map(|g| [g; 6]).collect()
}

fn font16() -> Vec<[u8; 16]> {
    (0..96u8).map(|g| [g; 16]).collect()
}

fn readout() -> Readout {
    Readout {
        setpoint_line: String::from("SP:  100rpm"),
        actual_line: String::from("AC:  0.0rpm"),
        pwm_line: String::from("PWM:  0.0%"),
        hold_line: String::from("HOLD:  0.0rpm"),
        warning: String::new(),
        p_text: String::from("0.50"),
        i_text: String::from("0.40"),
        d_text: String::from("0.00"),
        setpoint_changed: false,
        actual_changed: false,
        pwm_changed: false,
        hold_changed: false,
        warning_changed: false,
        p_changed: false,
        i_changed: false,
        d_changed: false,
    }
}

/// The transfers that draw `s` with the 6x8 test font at `page`, column 0.
fn line(page: u8, s: &str) -> Vec<Vec<u8>> {
    let mut d = Sh1106::new();
    d.draw_string_6x8(page, 0, s, &font6());
    d.take_frames()
}

#[test]
fn initial_menu() {
    let m = MenuState::new();
    assert_eq!(m.top_mode, TopMode::Speed);
    assert_eq!(m.speed_sub, SpeedSubMode::Following);
    assert_eq!(m.pid_sel, PidParam::P);
    assert!(m.first_draw);
}

#[test]
fn speed_menu_keys() {
    let mut m = MenuState::new();
    assert_eq!(m.handle_event(press(Key::K1)), MenuAction::RaiseSetpoint);
    assert_eq!(m.handle_event(press(Key::K2)), MenuAction::LowerSetpoint);
    assert_eq!(m.handle_event(KeyEvent::Released(Key::K1)), MenuAction::Nothing);
    assert_eq!(m.handle_event(press(Key::K4)), MenuAction::HoldActualSpeed);
    assert_eq!(m.speed_sub, SpeedSubMode::Step);
    assert_eq!(m.handle_event(press(Key::K4)), MenuAction::Nothing);
    assert_eq!(m.speed_sub, SpeedSubMode::Step);
    assert_eq!(m.handle_event(press(Key::K3)), MenuAction::Nothing);
    assert_eq!((m.top_mode, m.speed_sub), (TopMode::Speed, SpeedSubMode::Following));
    assert_eq!(m.handle_event(press(Key::K3)), MenuAction::Nothing);
    assert_eq!(m.top_mode, TopMode::Pi);
}

#[test]
fn tuning_menu_keys() {
    let mut m = MenuState::new();
    m.handle_event(press(Key::K3));
    assert_eq!(m.handle_event(press(Key::K1)), MenuAction::RaiseGain(PidParam::P));
    m.handle_event(press(Key::K4));
    assert_eq!(m.pid_sel, PidParam::I);
    assert_eq!(m.handle_event(press(Key::K2)), MenuAction::LowerGain(PidParam::I));
    m.handle_event(press(Key::K4));
    assert_eq!(m.pid_sel, PidParam::D);
    m.handle_event(press(Key::K4));
    assert_eq!(m.pid_sel, PidParam::P);
    m.handle_event(press(Key::K3));
    assert_eq!((m.top_mode, m.speed_sub), (TopMode::Speed, SpeedSubMode::Following));
}

#[test]
fn first_render_clears_and_draws_speed_menu() {
    let mut m = MenuState::new();
    let mut oled = Sh1106::new();
    m.render(&mut oled, &readout(), &font6(), &font16());
    let f = oled.take_frames();
    let mut clear = Sh1106::new();
    clear.clear();
    let clear = clear.take_frames();
    assert_eq!(f[..32].to_vec(), clear);
    let mut title = Sh1106::new();
    title.draw_string_8x16(0, 0, "SPEED-FOLLOW", &font16());
    let title = title.take_frames();
    let mut expected = clear.clone();
    expected.extend(title);
    expected.extend(line(2, "SP:  100rpm"));
    expected.extend(line(3, "AC:  0.0rpm"));
    expected.extend(line(4, "PWM:  0.0%"));
    expected.extend(line(7, "S1+ S2- S3 OK S4 STEP"));
    assert_eq!(f, expected);
    assert!(!m.first_draw);
}

#[test]
fn unchanged_render_draws_nothing() {
    let mut m = MenuState::new();
    let mut oled = Sh1106::new();
    m.render(&mut oled, &readout(), &font6(), &font16());
    oled.take_frames();
    m.render(&mut oled, &readout(), &font6(), &font16());
    assert!(oled.take_frames().is_empty());
}

#[test]
fn changed_value_redraws_its_line_only() {
    let mut m = MenuState::new();
    let mut oled = Sh1106::new();
    m.render(&mut oled, &readout(), &font6(), &font16());
    oled.take_frames();
    let mut r = readout();
    r.actual_line = String::from("AC: 12.5rpm");
    r.actual_changed = true;
    m.render(&mut oled, &r, &font6(), &font16());
    let mut expected = Sh1106::new();
    expected.clear_cols(3, 0, 70);
    let mut expected = expected.take_frames();
    expected.extend(line(3, "AC: 12.5rpm"));
    assert_eq!(oled.take_frames(), expected);
}

#[test]
fn tuning_menu_marks_selected_gain() {
    let mut m = MenuState::new();
    let mut oled = Sh1106::new();
    m.render(&mut oled, &readout(), &font6(), &font16());
    oled.take_frames();
    m.handle_event(press(Key::K3));
    m.render(&mut oled, &readout(), &font6(), &font16());
    let f = oled.take_frames();
    let mut title = Sh1106::new();
    title.draw_string_8x16(0, 0, "PID TUNE", &font16());
    let title = title.take_frames();
    let mut expected = f[..32].to_vec();
    expected.extend(title);
    expected.extend(line(2, ">P:0.50"));
    expected.extend(line(3, " I:0.40"));
    expected.extend(line(4, " D:0.00"));
    expected.extend(line(6, "S1+ S2- S3 SPD S4 SEL"));
    assert_eq!(f, expected);
    // moving the selection redraws all three gain lines
    m.handle_event(press(Key::K4));
    m.render(&mut oled, &readout(), &font6(), &font16());
    let mut expected = Vec::new();
    for (page, text) in [(2u8, " P:0.50"), (3, ">I:0.40"), (4, " D:0.00")] {
        let mut c = Sh1106::new();
        c.clear_cols(page, 0, 50);
        expected.extend(c.take_frames());
        expected.extend(line(page, text));
    }
    assert_eq!(oled.take_frames(), expected);
}

#[test]
fn warning_and_hold_lines() {
    let mut m = MenuState::new();
    let mut oled = Sh1106::new();
    m.render(&mut oled, &readout(), &font6(), &font16());
    oled.take_frames();
    m.handle_event(press(Key::K4));
    let mut r = readout();
    r.warning = String::from("STALL");
    r.warning_changed = true;
    m.render(&mut oled, &r, &font6(), &font16());
    let f = oled.take_frames();
    let mut e = Sh1106::new();
    e.clear_cols(0, 0, 100);
    e.clear_cols(1, 0, 100);
    e.draw_string_8x16(0, 0, "SPEED-STEP", &font16());
    e.clear_cols(5, 0, 128);
    let mut expected = e.take_frames();
    expected.extend(line(5, "STALL"));
    let mut h = Sh1106::new();
    h.clear_cols(6, 0, 80);
    expected.extend(h.take_frames());
    expected.extend(line(6, "HOLD:  0.0rpm"));
    assert_eq!(f, expected);
}

#[test]
fn mode_change_clears_display_first() {
    let mut m = MenuState::new();
    let mut oled = Sh1106::new();
    m.render(&mut oled, &readout(), &font6(), &font16());
    oled.take_frames();
    // leaving and re-entering the menu between two drawings changes nothing
    m.handle_event(press(Key::K3));
    m.handle_event(press(Key::K3));
    assert_eq!(m.top_mode, TopMode::Speed);
    m.render(&mut oled, &readout(), &font6(), &font16());
    assert!(oled.take_frames().is_empty());
    // a drawn change of top mode clears the display first
    m.handle_event(press(Key::K3));
    assert_eq!(m.top_mode, TopMode::Pi);
    m.render(&mut oled, &readout(), &font6(), &font16());
    let mut clear = Sh1106::new();
    clear.clear();
    let f = oled.take_frames();
    assert_eq!(f[..32].to_vec(), clear.take_frames());
}

#[test]
fn release_events_change_nothing() {
    let mut m = MenuState::new();
    for k in [Key::K1, Key::K2, Key::K3, Key::K4] {
        assert_eq!(m.handle_event(KeyEvent::Released(k)), MenuAction::Nothing);
    }
    assert_eq!((m.top_mode, m.speed_sub, m.pid_sel), (TopMode::Speed, SpeedSubMode::Following, PidParam::P));
}
