use vstd::prelude::*;
use crate::effects::{PostProcessingEffects, next_effect, previous_effect};

verus! {

/// Keyboard scan code of the escape key, which closes the viewer.
pub const KEY_ESCAPE: u32 = 1;
/// Scan code of the key that moves forward.
pub const KEY_W: u32 = 17;
/// Scan code of the key that moves left.
pub const KEY_A: u32 = 30;
/// Scan code of the key that moves backward.
pub const KEY_S: u32 = 31;
/// Scan code of the key that moves right.
pub const KEY_D: u32 = 32;
/// Scan code of the key that brightens the directional light.
pub const KEY_T: u32 = 20;
/// Scan code of the key that dims the directional light.
pub const KEY_Y: u32 = 21;
/// Scan code of the key that selects the previous post-processing effect.
pub const KEY_Z: u32 = 44;
/// Scan code of the key that selects the next post-processing effect.
pub const KEY_X: u32 = 45;
/// Scan code of the key that switches the flashlight on or off.
pub const KEY_L: u32 = 38;

/// What the viewer must do after a key event, beyond the new input state.
#[derive(Clone, Copy, Debug, PartialEq, Eq, Structural)]
pub enum KeyAction {
    /// Nothing more.
    Nothing,
    /// Close the window and stop.
    Exit,
    /// Build the post-processing program of the newly selected effect.
    RebuildPostProcessing,
    /// Set the flashlight's colours for its new state.
    SwitchFlashlight,
    /// The key has no meaning; the viewer reports its scan code.
    Unknown(u32),
}

/// The input state of the viewer: the movement keys held down, the
/// directional light's brightness in steps of one hundredth, whether the
/// flashlight is on, and the selected post-processing effect.
#[derive(Clone, Copy, Debug)]
pub struct Controls {
    /// Forward, left, backward and right, in that order.
    pub pressed_keys: [bool; 4],
    pub light_steps: u32,
    pub flashlight: bool,
    pub effect: PostProcessingEffects,
}

/// `keys` with place `i` set to `v`.
pub open spec fn with_key(keys: [bool; 4], i: int, v: bool) -> [bool; 4] {
    [
        if i == 0 { v } else { keys[0] },
        if i == 1 { v } else { keys[1] },
        if i == 2 { v } else { keys[2] },
        if i == 3 { v } else { keys[3] },
    ]
}

/// The movement key that a scan code stands for, if any.
pub open spec fn movement_key(code: u32) -> Option<int> {
    if code == KEY_W {
        Some(0)
    } else if code == KEY_A {
        Some(1)
    } else if code == KEY_S {
        Some(2)
    } else if code == KEY_D {
        Some(3)
    } else {
        None
    }
}

/// The input state and action after the key with scan code `code` was
/// pressed (`pressed`) or released.
pub open spec fn after_key(c: Controls, code: u32, pressed: bool) -> (Controls, KeyAction) {
    if code == KEY_ESCAPE {
        (c, KeyAction::Exit)
    } else if movement_key(code).is_some() {
        (Controls { pressed_keys: with_key(c.pressed_keys, movement_key(code).unwrap(), pressed), ..c }, KeyAction::Nothing)
    } else if code == KEY_T {
        (Controls { light_steps: if c.light_steps == u32::MAX { c.light_steps } else { (c.light_steps + 1) as u32 }, ..c }, KeyAction::Nothing)
    } else if code == KEY_Y {
        (Controls { light_steps: if c.light_steps > 0 { (c.light_steps - 1) as u32 } else { 0 }, ..c }, KeyAction::Nothing)
    } else if code == KEY_Z || code == KEY_X || code == KEY_L {
        if pressed {
            (c, KeyAction::Nothing)
        } else if code == KEY_Z {
            (Controls { effect: previous_effect(c.effect), ..c }, KeyAction::RebuildPostProcessing)
        } else if code == KEY_X {
            (Controls { effect: next_effect(c.effect), ..c }, KeyAction::RebuildPostProcessing)
        } else {
            (Controls { flashlight: !c.flashlight, ..c }, KeyAction::SwitchFlashlight)
        }
    } else {
        (c, KeyAction::Unknown(code))
    }
}

impl Controls {
    /// The state when the viewer starts: no key held, the light one step
    /// bright, the flashlight on, no post-processing.
    pub fn new() -> (r: Controls)
        ensures
            r.pressed_keys == [false, false, false, false],
            r.light_steps == 1,
            r.flashlight,
            r.effect == PostProcessingEffects::NoPostProcessing,
    {
        Controls {
            pressed_keys: [false, false, false, false],
            light_steps: 1,
            flashlight: true,
            effect: PostProcessingEffects::NoPostProcessing,
        }
    }

    /// Applies the key event with scan code `code`, pressed or released,
    /// and says what else the viewer must do.
    pub fn handle_key(&mut self, code: u32, pressed: bool) -> (r: KeyAction)
        ensures
            (*final(self), r) == after_key(*old(self), code, pressed),
    {
        let keys = self.pressed_keys;
        if code == KEY_ESCAPE {
            KeyAction::Exit
        } else if code == KEY_W {
            self.pressed_keys = [pressed, keys[1], keys[2], keys[3]];
            KeyAction::Nothing
        } else if code == KEY_A {
            self.pressed_keys = [keys[0], pressed, keys[2], keys[3]];
            KeyAction::Nothing
        } else if code == KEY_S {
            self.pressed_keys = [keys[0], keys[1], pressed, keys[3]];
            KeyAction::Nothing
        } else if code == KEY_D {
            self.pressed_keys = [keys[0], keys[1], keys[2], pressed];
            KeyAction::Nothing
        } else if code == KEY_T {
            if self.light_steps < u32::MAX {
                self.light_steps = self.light_steps + 1;
            }
            KeyAction::Nothing
        } else if code == KEY_Y {
            if self.light_steps > 0 {
                self.light_steps = self.light_steps - 1;
            }
            KeyAction::Nothing
        } else if code == KEY_Z || code == KEY_X || code == KEY_L {
            if pressed {
                KeyAction::Nothing
            } else if code == KEY_Z {
                self.effect = self.effect.previous();
                KeyAction::RebuildPostProcessing
            } else if code == KEY_X {
                self.effect = self.effect.next();
                KeyAction::RebuildPostProcessing
            } else {
                self.flashlight = !self.flashlight;
                KeyAction::SwitchFlashlight
            }
        } else {
            KeyAction::Unknown(code)
        }
    }
}

/// Whether the cursor is inside the window, and whether it was put back at
/// the window's centre since it last came in.
#[derive(Clone, Copy, Debug, PartialEq, Eq, Structural)]
pub struct MouseState {
    pub in_window: bool,
    pub centered: bool,
}

impl MouseState {
    /// The state before the cursor has entered the window.
    pub fn new() -> (r: MouseState)
        ensures
            !r.in_window,
            !r.centered,
    {
        MouseState { in_window: false, centered: false }
    }

    /// The cursor came into the window.
    pub fn cursor_entered(&mut self)
        ensures
            final(self).in_window,
            final(self).centered == old(self).centered,
    {
        self.in_window = true;
    }

    /// The cursor left the window; it is no longer known to be centred.
    pub fn cursor_left(&mut self)
        ensures
            !final(self).in_window,
            !final(self).centered,
    {
        self.in_window = false;
        self.centered = false;
    }

    /// The cursor moved; the viewer puts it back at the centre. Says whether
    /// the movement turns the camera: only when the cursor was in the window
    /// and had already been centred, so that a jump into the window does not.
    pub fn cursor_moved(&mut self) -> (r: bool)
        ensures
            r == (old(self).in_window && old(self).centered),
            final(self).in_window == old(self).in_window,
            final(self).centered,
    {
        let counts = self.in_window && self.centered;
        self.centered = true;
        counts
    }
}

} // verus!
