//! Input state, the frame clock, error classification, resources, and
//! the packed vertex data types.

use render_gl::data::u2_u10_u10_u10_rev_float;
use render_gl::debug::{check_error, GlErrorKind};
use render_gl::input::{
    fetch_motion, get_key, get_key_with_cooldown, handle_sdl_input, CooldownMap, InputEvent,
    KeyMap, Mouse,
};
use render_gl::resources::{cstring_bytes, resource_name_to_path, Error, Resources};
use render_gl::time::{get_delta, get_now, update, Clock};

/// Mouse motion accumulates and is consumed by one fetch.
#[test]
fn mouse_motion_accumulates_and_resets() {
    let mut mouse = Mouse::new();
    mouse.store_motion(3, -2);
    mouse.store_motion(1, 5);
    assert_eq!(fetch_motion(&mut mouse), (4, 3));
    assert_eq!(fetch_motion(&mut mouse), (0, 0));
}

/// Events drive the key map; motion events invert the vertical axis.
#[test]
fn events_drive_the_input_state() {
    let mut mouse = Mouse::new();
    let mut keys = KeyMap::new();
    assert!(!get_key(&keys, 27));
    handle_sdl_input(&mut mouse, &mut keys, &InputEvent::KeyDown { keycode: Some(27) });
    assert!(get_key(&keys, 27));
    handle_sdl_input(&mut mouse, &mut keys, &InputEvent::KeyUp { keycode: Some(27) });
    assert!(!get_key(&keys, 27));
    handle_sdl_input(&mut mouse, &mut keys, &InputEvent::KeyDown { keycode: None });
    assert!(!get_key(&keys, 27));
    handle_sdl_input(
        &mut mouse,
        &mut keys,
        &InputEvent::MouseMotion { xrel: 7, yrel: 4 },
    );
    handle_sdl_input(&mut mouse, &mut keys, &InputEvent::Other);
    assert_eq!(fetch_motion(&mut mouse), (7, -4));
}

/// A pressed key fires once, then again only after the cooldown passed.
#[test]
fn cooldown_limits_repeats() {
    let mut keys = KeyMap::new();
    let mut cooldowns = CooldownMap::new();
    keys.set_key(32, true);
    // First press fires and starts the clock at 1000.
    assert!(get_key_with_cooldown(&keys, &mut cooldowns, 32, 500, 1000));
    // Within the cooldown window nothing fires.
    assert!(!get_key_with_cooldown(&keys, &mut cooldowns, 32, 500, 1400));
    assert!(!get_key_with_cooldown(&keys, &mut cooldowns, 32, 500, 1500));
    // Beyond it the key fires again.
    assert!(get_key_with_cooldown(&keys, &mut cooldowns, 32, 500, 1501));
    // A key that is not pressed never fires.
    keys.set_key(32, false);
    assert!(!get_key_with_cooldown(&keys, &mut cooldowns, 32, 500, 9999));
}

/// The clock keeps the last update time and the last delta.
#[test]
fn clock_tracks_deltas() {
    let mut clock = Clock::new();
    update(&mut clock, 1_000);
    assert_eq!(get_now(&clock), 1_000);
    assert_eq!(get_delta(&clock), 1_000);
    update(&mut clock, 1_016);
    assert_eq!(get_now(&clock), 1_016);
    assert_eq!(get_delta(&clock), 16);
    // Time running backwards yields a zero delta, not a panic.
    update(&mut clock, 1_000);
    assert_eq!(get_delta(&clock), 0);
}

/// A zero error code is no error; each known code classifies to its
/// kind; an unknown nonzero code is still reported.
#[test]
fn error_codes_classify() {
    assert!(check_error(0).is_ok());
    assert_eq!(check_error(0x0500).unwrap_err().kind, GlErrorKind::InvalidEnum);
    assert_eq!(check_error(0x0501).unwrap_err().kind, GlErrorKind::InvalidValue);
    assert_eq!(check_error(0x0502).unwrap_err().kind, GlErrorKind::InvalidOperation);
    assert_eq!(check_error(0x0503).unwrap_err().kind, GlErrorKind::StackOverflow);
    assert_eq!(check_error(0x0504).unwrap_err().kind, GlErrorKind::StackUnderflow);
    assert_eq!(check_error(0x0505).unwrap_err().kind, GlErrorKind::OutOfMemory);
    assert_eq!(
        check_error(0x0506).unwrap_err().kind,
        GlErrorKind::InvalidFramebufferOperation
    );
    let unknown = check_error(0x9999).unwrap_err();
    assert_eq!(unknown.kind, GlErrorKind::Unknown);
    assert_eq!(unknown.code, 0x9999);
    assert_eq!(unknown.message(), "an unknown driver error code was reported");
    assert_eq!(
        check_error(0x0505).unwrap_err().message(),
        "the driver ran out of memory"
    );
}

/// Resource names resolve under the root path.
#[test]
fn resource_paths_resolve_under_the_root() {
    let res = Resources::from_root("assets".to_string());
    assert_eq!(res.get_root_path(), "assets");
    assert_eq!(
        resource_name_to_path(res.get_root_path(), "shaders/scene.vert"),
        "assets/shaders/scene.vert"
    );
}

/// Loaded text with a zero byte cannot form a C string; clean text
/// passes through unchanged.
#[test]
fn cstring_bytes_rejects_nul() {
    assert_eq!(
        cstring_bytes(b"void main() {}".to_vec()).unwrap(),
        b"void main() {}".to_vec()
    );
    match cstring_bytes(vec![118, 0, 105]) {
        Err(e @ Error::FileContainsNil) => {
            assert_eq!(e.message(), "the resource contains a zero byte");
        }
        _ => panic!("a zero byte must be rejected"),
    }
    assert_eq!(
        Error::IO("permission denied".to_string()).message(),
        "failed to read the resource: permission denied"
    );
    assert!(cstring_bytes(Vec::new()).is_ok());
}

/// Packing and unpacking the 2+10+10+10 word round-trips each channel,
/// and setters leave the other channels alone.
#[test]
fn packed_quad_round_trips() {
    let v = u2_u10_u10_u10_rev_float::pack(1023, 512, 7, 3);
    assert_eq!(v.x_bits(), 1023);
    assert_eq!(v.y_bits(), 512);
    assert_eq!(v.z_bits(), 7);
    assert_eq!(v.w_bits(), 3);

    let mut v = u2_u10_u10_u10_rev_float::from_raw(0);
    v.set_x_bits(5);
    v.set_y_bits(6);
    v.set_z_bits(7);
    v.set_w_bits(2);
    assert_eq!((v.x_bits(), v.y_bits(), v.z_bits(), v.w_bits()), (5, 6, 7, 2));
    v.set_xyz_bits(100, 200, 300);
    assert_eq!(
        (v.x_bits(), v.y_bits(), v.z_bits(), v.w_bits()),
        (100, 200, 300, 2)
    );
    // The packed word is exactly the four channels in their lanes.
    let w = u2_u10_u10_u10_rev_float::pack(1, 2, 3, 1);
    assert_eq!(w.raw_value(), 1 | (2 << 10) | (3 << 20) | (1 << 30));
    let back = u2_u10_u10_u10_rev_float::from_raw(w.raw_value());
    assert_eq!(back.raw_value(), w.raw_value());
}
