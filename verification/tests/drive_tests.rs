use dc_motor_speed_control::drive::{bridge_compare, encoder_deltas, forward_compare, BridgeCompare};

#[test]
fn bridge_compare_directions() {
    assert_eq!(bridge_compare(70, 3600), BridgeCompare { ch3: 2520, ch4: 0 });
    assert_eq!(bridge_compare(-25, 3600), BridgeCompare { ch3: 0, ch4: 900 });
    assert_eq!(bridge_compare(0, 3600), BridgeCompare { ch3: 0, ch4: 0 });
    assert_eq!(bridge_compare(100, 3599), BridgeCompare { ch3: 3599, ch4: 0 });
    assert_eq!(bridge_compare(33, 100), BridgeCompare { ch3: 33, ch4: 0 });
    assert_eq!(bridge_compare(1, 99), BridgeCompare { ch3: 0, ch4: 0 });
}

#[test]
fn bridge_compare_saturates() {
    assert_eq!(bridge_compare(i32::MAX, u32::MAX), BridgeCompare { ch3: u32::MAX / 100, ch4: 0 });
    assert_eq!(bridge_compare(i32::MIN, 2), BridgeCompare { ch3: 0, ch4: u32::MAX / 100 });
}

#[test]
fn forward_compare_ignores_reverse() {
    assert_eq!(forward_compare(40, 1000), BridgeCompare { ch3: 400, ch4: 0 });
    assert_eq!(forward_compare(-40, 1000), BridgeCompare { ch3: 0, ch4: 0 });
    assert_eq!(forward_compare(0, 1000), BridgeCompare { ch3: 0, ch4: 0 });
}

#[test]
fn encoder_deltas_wrap() {
    assert_eq!(encoder_deltas(120, 2000, 100, 1000), (20, 1000));
    assert_eq!(encoder_deltas(5, 10, 65530, 5), (11, 5));
    assert_eq!(encoder_deltas(65530, 10, 5, 5), (-11, 5));
    assert_eq!(encoder_deltas(32768, 0, 0, 0), (-32768, 0));
    assert_eq!(encoder_deltas(32767, 0, 0, 0), (32767, 0));
    assert_eq!(encoder_deltas(0, 3, 0, u64::MAX - 1), (0, 5));
}
