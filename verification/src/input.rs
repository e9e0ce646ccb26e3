//! Input state: mouse motion, key states, and key cooldowns.
//!
//! Instead of process-wide lazily initialized maps, the input state is a
//! set of explicit context objects passed down from the event loop.  The
//! windowing layer decodes its events into plain [`InputEvent`] values;
//! applying them to the state is done here.

use std::collections::HashMap;
use vstd::prelude::*;

verus! {

broadcast use vstd::std_specs::hash::group_hash_axioms;

/// A signed 32-bit sum, wrapped back into range, for accumulated values
/// that may overflow.
pub open spec fn wrap_i32(v: int) -> int {
    if v > i32::MAX {
        v - 0x1_0000_0000
    } else if v < i32::MIN {
        v + 0x1_0000_0000
    } else {
        v
    }
}

/// Wraps a sum of two 32-bit values back into 32-bit range.
fn wrapped(v: i64) -> (r: i32)
    requires
        -0x1_0000_0000 <= v <= 0x1_0000_0000,
    ensures
        r == wrap_i32(v as int),
{
    if v > i32::MAX as i64 {
        (v - 0x1_0000_0000) as i32
    } else if v < i32::MIN as i64 {
        (v + 0x1_0000_0000) as i32
    } else {
        v as i32
    }
}

/// Accumulated mouse motion since it was last fetched.
#[derive(Clone, Copy, Debug, PartialEq, Eq, Structural)]
pub struct Mouse {
    dx: i32,
    dy: i32,
}

impl Mouse {
    /// The accumulated horizontal motion.
    pub closed spec fn spec_dx(self) -> i32 {
        self.dx
    }

    /// The accumulated vertical motion.
    pub closed spec fn spec_dy(self) -> i32 {
        self.dy
    }

    /// A mouse with no pending motion.
    pub fn new() -> (m: Mouse)
        ensures
            m.spec_dx() == 0,
            m.spec_dy() == 0,
    {
        Mouse { dx: 0, dy: 0 }
    }

    /// Adds one motion event to the pending deltas, wrapping on
    /// overflow.
    pub fn store_motion(&mut self, x: i32, y: i32)
        ensures
            final(self).spec_dx() == wrap_i32(old(self).spec_dx() + x),
            final(self).spec_dy() == wrap_i32(old(self).spec_dy() + y),
    {
        self.dx = wrapped(self.dx as i64 + x as i64);
        self.dy = wrapped(self.dy as i64 + y as i64);
    }
}

/// Returns the pending motion deltas and resets them to zero.
pub fn fetch_motion(mouse: &mut Mouse) -> (r: (i32, i32))
    ensures
        r == (old(mouse).spec_dx(), old(mouse).spec_dy()),
        final(mouse).spec_dx() == 0,
        final(mouse).spec_dy() == 0,
{
    let r = (mouse.dx, mouse.dy);
    mouse.dx = 0;
    mouse.dy = 0;
    r
}

/// The pressed state of each key, by key code.
pub struct KeyMap {
    inner: HashMap<i32, bool>,
}

impl View for KeyMap {
    type V = Map<i32, bool>;

    closed spec fn view(&self) -> Map<i32, bool> {
        self.inner@
    }
}

impl KeyMap {
    /// A key map with no key recorded.
    pub fn new() -> (m: KeyMap)
        ensures
            m@ == Map::<i32, bool>::empty(),
    {
        KeyMap { inner: HashMap::new() }
    }

    /// Records a key as pressed or released.
    pub fn set_key(&mut self, keycode: i32, pressed: bool)
        ensures
            final(self)@ == old(self)@.insert(keycode, pressed),
    {
        self.inner.insert(keycode, pressed);
    }
}

/// Whether a key is currently pressed; a key never seen is not pressed.
pub fn get_key(keys: &KeyMap, keycode: i32) -> (r: bool)
    ensures
        r == (keys@.contains_key(keycode) && keys@[keycode]),
{
    match keys.inner.get(&keycode) {
        Some(v) => *v,
        None => false,
    }
}

/// When each key last passed its cooldown check, by key code, in the
/// clock's microseconds.
pub struct CooldownMap {
    inner: HashMap<i32, u64>,
}

impl View for CooldownMap {
    type V = Map<i32, u64>;

    closed spec fn view(&self) -> Map<i32, u64> {
        self.inner@
    }
}

impl CooldownMap {
    /// A cooldown map with no key recorded.
    pub fn new() -> (m: CooldownMap)
        ensures
            m@ == Map::<i32, u64>::empty(),
    {
        CooldownMap { inner: HashMap::new() }
    }
}

/// Whether a pressed key fires, at most once per cooldown interval.  A
/// key that is not pressed never fires and leaves the cooldowns alone.
/// A pressed key fires on its first check, and afterwards exactly when
/// more than `cooltime` has passed since it last fired; firing records
/// `now` as the time it last fired.
pub fn get_key_with_cooldown(
    keys: &KeyMap,
    cooldowns: &mut CooldownMap,
    keycode: i32,
    cooltime: u64,
    now: u64,
) -> (r: bool)
    ensures
        !(keys@.contains_key(keycode) && keys@[keycode]) ==> r == false && final(cooldowns)@ == old(
            cooldowns,
        )@,
        (keys@.contains_key(keycode) && keys@[keycode] && !old(cooldowns)@.contains_key(keycode))
            ==> r == true && final(cooldowns)@ == old(cooldowns)@.insert(keycode, now),
        (keys@.contains_key(keycode) && keys@[keycode] && old(cooldowns)@.contains_key(keycode))
            ==> {
            let last = old(cooldowns)@[keycode];
            if now >= last && now - last > cooltime {
                r == true && final(cooldowns)@ == old(cooldowns)@.insert(keycode, now)
            } else {
                r == false && final(cooldowns)@ == old(cooldowns)@
            }
        },
{
    if !get_key(keys, keycode) {
        return false;
    }
    let entry = cooldowns.inner.get(&keycode);
    match entry {
        None => {
            cooldowns.inner.insert(keycode, now);
            true
        },
        Some(last) => {
            let last = *last;
            if now >= last && now - last > cooltime {
                cooldowns.inner.insert(keycode, now);
                true
            } else {
                false
            }
        },
    }
}

/// One input event, decoded to plain values by the windowing layer.
#[derive(Clone, Copy, Debug, PartialEq, Eq, Structural)]
pub enum InputEvent {
    /// Relative mouse motion since the last motion event.
    MouseMotion { xrel: i32, yrel: i32 },
    /// A key went down, if the event carried a key code.
    KeyDown { keycode: Option<i32> },
    /// A key went up, if the event carried a key code.
    KeyUp { keycode: Option<i32> },
    /// Anything else; ignored.
    Other,
}

/// Applies one decoded event to the input state.  Mouse motion
/// accumulates with the vertical axis inverted; key events record the
/// key's new state; events without a key code, and other events, change
/// nothing.
pub fn handle_sdl_input(mouse: &mut Mouse, keys: &mut KeyMap, event: &InputEvent)
    ensures
        match *event {
            InputEvent::MouseMotion { xrel, yrel } => final(mouse).spec_dx() == wrap_i32(
                old(mouse).spec_dx() + xrel,
            ) && final(mouse).spec_dy() == wrap_i32(old(mouse).spec_dy() - yrel) && final(keys)@
                == old(keys)@,
            InputEvent::KeyDown { keycode } => *final(mouse) == *old(mouse) && final(keys)@
                == match keycode {
                Some(k) => old(keys)@.insert(k, true),
                None => old(keys)@,
            },
            InputEvent::KeyUp { keycode } => *final(mouse) == *old(mouse) && final(keys)@
                == match keycode {
                Some(k) => old(keys)@.insert(k, false),
                None => old(keys)@,
            },
            InputEvent::Other => *final(mouse) == *old(mouse) && final(keys)@ == old(keys)@,
        },
{
    match event {
        InputEvent::MouseMotion { xrel, yrel } => {
            mouse.dx = wrapped(mouse.dx as i64 + *xrel as i64);
            mouse.dy = wrapped(mouse.dy as i64 - *yrel as i64);
        },
        InputEvent::KeyDown { keycode } => {
            match keycode {
                Some(k) => {
                    keys.set_key(*k, true);
                },
                None => {},
            }
        },
        InputEvent::KeyUp { keycode } => {
            match keycode {
                Some(k) => {
                    keys.set_key(*k, false);
                },
                None => {},
            }
        },
        InputEvent::Other => {},
    }
}

} // verus!
