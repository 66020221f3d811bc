use dc_motor_speed_control::keypad::{Key, KeyEvent, Keypad};

fn events(k: &mut Keypad, raw: [bool; 4]) -> Vec<KeyEvent> {
    k.scan(raw).as_slice().to_vec()
}

#[test]
fn key_from_index_maps_columns() {
    assert_eq!(Key::from_index(0), Some(Key::K1));
    assert_eq!(Key::from_index(1), Some(Key::K2));
    assert_eq!(Key::from_index(2), Some(Key::K3));
    assert_eq!(Key::from_index(3), Some(Key::K4));
    assert_eq!(Key::from_index(4), None);
    assert_eq!(Key::from_index(usize::MAX), None);
}

#[test]
fn key_names() {
    assert_eq!(Key::K1.name(), "KEY1");
    assert_eq!(Key::K2.name(), "KEY2");
    assert_eq!(Key::K3.name(), "KEY3");
    assert_eq!(Key::K4.name(), "KEY4");
}

#[test]
fn press_is_reported_on_third_reading() {
    let mut k = Keypad::new();
    assert!(events(&mut k, [true, false, false, false]).is_empty());
    assert!(events(&mut k, [true, false, false, false]).is_empty());
    assert_eq!(events(&mut k, [true, false, false, false]), vec![KeyEvent::Pressed(Key::K1)]);
    assert!(events(&mut k, [true, false, false, false]).is_empty());
}

#[test]
fn release_is_reported_on_third_reading() {
    let mut k = Keypad::new();
    for _ in 0..3 {
        let _ = events(&mut k, [false, false, true, false]);
    }
    assert!(events(&mut k, [false, false, false, false]).is_empty());
    assert!(events(&mut k, [false, false, false, false]).is_empty());
    assert_eq!(events(&mut k, [false, false, false, false]), vec![KeyEvent::Released(Key::K3)]);
}

#[test]
fn bounce_is_ignored() {
    let mut k = Keypad::new();
    assert!(events(&mut k, [false, true, false, false]).is_empty());
    assert!(events(&mut k, [false, true, false, false]).is_empty());
    assert!(events(&mut k, [false, false, false, false]).is_empty());
    assert!(events(&mut k, [false, true, false, false]).is_empty());
    assert!(events(&mut k, [false, true, false, false]).is_empty());
    assert_eq!(events(&mut k, [false, true, false, false]), vec![KeyEvent::Pressed(Key::K2)]);
}

#[test]
fn events_come_in_key_order() {
    let mut k = Keypad::new();
    let _ = events(&mut k, [true, false, false, true]);
    let _ = events(&mut k, [true, false, false, true]);
    assert_eq!(
        events(&mut k, [true, false, false, true]),
        vec![KeyEvent::Pressed(Key::K1), KeyEvent::Pressed(Key::K4)]
    );
    let _ = events(&mut k, [false, true, true, false]);
    let _ = events(&mut k, [false, true, true, false]);
    assert_eq!(
        events(&mut k, [false, true, true, false]),
        vec![
            KeyEvent::Released(Key::K1),
            KeyEvent::Pressed(Key::K2),
            KeyEvent::Pressed(Key::K3),
            KeyEvent::Released(Key::K4)
        ]
    );
}

#[test]
fn events_of_a_key_alternate_over_many_scans() {
    let mut k = Keypad::new();
    let pattern = [
        true, true, false, true, true, true, true, false, false, true, false, false, false, true, true, true,
        false, false, false,
    ];
    let mut seen = Vec::new();
    for level in pattern {
        for ev in events(&mut k, [false, level, false, false]) {
            seen.push(ev);
        }
    }
    assert_eq!(
        seen,
        vec![
            KeyEvent::Pressed(Key::K2),
            KeyEvent::Released(Key::K2),
            KeyEvent::Pressed(Key::K2),
            KeyEvent::Released(Key::K2)
        ]
    );
}

#[test]
fn pulse_of_two_scans_is_never_reported() {
    let mut k = Keypad::new();
    for _ in 0..5 {
        assert!(events(&mut k, [false, false, false, true]).len() <= 1);
    }
    // now K4 is held; a two-scan release is ignored
    assert!(events(&mut k, [false, false, false, false]).is_empty());
    assert!(events(&mut k, [false, false, false, false]).is_empty());
    assert!(events(&mut k, [false, false, false, true]).is_empty());
    assert!(events(&mut k, [false, false, false, true]).is_empty());
}
