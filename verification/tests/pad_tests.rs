//! Pad behavior: merged sources and trigger edges.

use galangua_core::framework::VKey;
use galangua_core::pad::{get_key_bit, Pad, PAD_A, PAD_D, PAD_L, PAD_R, PAD_U};

#[test]
fn test_trigger() {
    let mut pad = Pad::new();
    pad.on_key(VKey::Space, true);
    pad.update();

    assert_eq!(true, pad.is_pressed(PAD_A));
    assert_eq!(true, pad.is_trigger(PAD_A));

    pad.update();
    assert_eq!(true, pad.is_pressed(PAD_A));
    assert_eq!(false, pad.is_trigger(PAD_A));
}

#[test]
fn key_release_clears_bit() {
    let mut pad = Pad::new();
    pad.on_key(VKey::Left, true);
    pad.update();
    assert!(pad.is_pressed(PAD_L));
    pad.on_key(VKey::Left, false);
    pad.update();
    assert!(!pad.is_pressed(PAD_L));
}

#[test]
fn joystick_axis_directions() {
    let mut pad = Pad::new();
    pad.on_joystick_axis(0, -1);
    pad.update();
    assert!(pad.is_pressed(PAD_L));
    assert!(!pad.is_pressed(PAD_R));
    pad.on_joystick_axis(0, 1);
    pad.update();
    assert!(pad.is_pressed(PAD_R));
    assert!(!pad.is_pressed(PAD_L));
    pad.on_joystick_axis(1, -1);
    pad.update();
    assert!(pad.is_pressed(PAD_U));
    pad.on_joystick_axis(1, 1);
    pad.update();
    assert!(pad.is_pressed(PAD_D));
    assert!(!pad.is_pressed(PAD_U));
    pad.on_joystick_axis(0, 0);
    pad.update();
    assert!(!pad.is_pressed(PAD_L) && !pad.is_pressed(PAD_R));
}

#[test]
fn joystick_button_fires() {
    let mut pad = Pad::new();
    pad.on_joystick_button(0, true);
    pad.update();
    assert!(pad.is_trigger(PAD_A));
    pad.on_joystick_button(0, false);
    pad.update();
    assert!(!pad.is_pressed(PAD_A));
}

#[test]
fn key_bits_map() {
    assert_eq!(get_key_bit(VKey::Left), PAD_L);
    assert_eq!(get_key_bit(VKey::Right), PAD_R);
    assert_eq!(get_key_bit(VKey::Up), PAD_U);
    assert_eq!(get_key_bit(VKey::Down), PAD_D);
    assert_eq!(get_key_bit(VKey::Space), PAD_A);
    assert_eq!(get_key_bit(VKey::Other), 0);
}
