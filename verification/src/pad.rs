//! The input pad: merges keyboard and joystick state into held and
//! newly-triggered button bits.

use vstd::prelude::*;
use crate::framework::VKey;

verus! {

/// Left direction bit.
pub const PAD_L: u32 = 1;

/// Right direction bit.
pub const PAD_R: u32 = 2;

/// Up direction bit.
pub const PAD_U: u32 = 4;

/// Down direction bit.
pub const PAD_D: u32 = 8;

/// Fire button bit.
pub const PAD_A: u32 = 16;

/// The pad state.  `pad` holds the buttons currently down, `trg` those
/// that went down this tick.
pub struct Pad {
    /// Buttons currently down (keyboard or joystick).
    pub pad: u32,
    /// Buttons that went down this tick.
    pub trg: u32,
    /// Buttons down last tick.
    pub last_pad: u32,
    /// Keyboard contribution.
    pub key: u32,
    /// Joystick contribution.
    pub joy: u32,
}

impl Pad {
    /// Builds a released pad.
    pub fn new() -> (r: Pad)
        ensures
            r.pad == 0 && r.trg == 0 && r.last_pad == 0 && r.key == 0 && r.joy == 0,
    {
        Pad { pad: 0, trg: 0, last_pad: 0, key: 0, joy: 0 }
    }

    /// One tick: merges the sources and derives the trigger bits (down
    /// now but not last tick).
    pub fn update(&mut self)
        ensures
            final(self).pad == (old(self).key | old(self).joy),
            final(self).trg == (final(self).pad & !old(self).last_pad),
            final(self).last_pad == final(self).pad,
            final(self).key == old(self).key,
            final(self).joy == old(self).joy,
    {
        self.pad = self.key | self.joy;
        self.trg = self.pad & !self.last_pad;
        self.last_pad = self.pad;
    }

    /// True when every bit of `btn` is held down.
    pub fn is_pressed(&self, btn: u32) -> (r: bool)
        ensures
            r == ((self.pad & btn) == btn),
    {
        (self.pad & btn) == btn
    }

    /// True when every bit of `btn` went down this tick.
    pub fn is_trigger(&self, btn: u32) -> (r: bool)
        ensures
            r == ((self.trg & btn) == btn),
    {
        (self.trg & btn) == btn
    }

    /// Applies a key press or release.
    pub fn on_key(&mut self, keycode: VKey, down: bool)
        ensures
            down ==> *final(self) == (Pad {
                key: old(self).key | spec_key_bit(keycode),
                ..*old(self)
            }),
            !down ==> *final(self) == (Pad {
                key: old(self).key & !spec_key_bit(keycode),
                ..*old(self)
            }),
    {
        let bit = get_key_bit(keycode);
        if down {
            self.key = self.key | bit;
        } else {
            self.key = self.key & !bit;
        }
    }

    /// Applies a joystick axis move: axis 0 is left-right, axis 1
    /// up-down; the sign picks the direction, zero releases both.
    pub fn on_joystick_axis(&mut self, axis_index: u8, dir: i8)
        ensures
            axis_index == 0 ==> *final(self) == (Pad {
                joy: (old(self).joy & !(PAD_L | PAD_R)) | (if dir < 0 {
                    PAD_L
                } else if dir > 0 {
                    PAD_R
                } else {
                    0
                }),
                ..*old(self)
            }),
            axis_index == 1 ==> *final(self) == (Pad {
                joy: (old(self).joy & !(PAD_U | PAD_D)) | (if dir < 0 {
                    PAD_U
                } else if dir > 0 {
                    PAD_D
                } else {
                    0
                }),
                ..*old(self)
            }),
            axis_index >= 2 ==> *final(self) == *old(self),
    {
        if axis_index == 0 {
            let lr: u32 = if dir < 0 {
                PAD_L
            } else if dir > 0 {
                PAD_R
            } else {
                0
            };
            self.joy = (self.joy & !(PAD_L | PAD_R)) | lr;
        } else if axis_index == 1 {
            let ud: u32 = if dir < 0 {
                PAD_U
            } else if dir > 0 {
                PAD_D
            } else {
                0
            };
            self.joy = (self.joy & !(PAD_U | PAD_D)) | ud;
        }
    }

    /// Applies a joystick button press or release (any button fires).
    pub fn on_joystick_button(&mut self, button_index: u8, down: bool)
        ensures
            down ==> *final(self) == (Pad { joy: old(self).joy | PAD_A, ..*old(self) }),
            !down ==> *final(self) == (Pad { joy: old(self).joy & !PAD_A, ..*old(self) }),
    {
        if down {
            self.joy = self.joy | PAD_A;
        } else {
            self.joy = self.joy & !PAD_A;
        }
    }
}

/// The pad bit a key stands for.
pub open spec fn spec_key_bit(key: VKey) -> u32 {
    match key {
        VKey::Left => PAD_L,
        VKey::Right => PAD_R,
        VKey::Up => PAD_U,
        VKey::Down => PAD_D,
        VKey::Space => PAD_A,
        VKey::Other => 0,
    }
}

/// Maps a key to its pad bit.
pub fn get_key_bit(key: VKey) -> (r: u32)
    ensures
        r == spec_key_bit(key),
{
    match key {
        VKey::Left => PAD_L,
        VKey::Right => PAD_R,
        VKey::Up => PAD_U,
        VKey::Down => PAD_D,
        VKey::Space => PAD_A,
        VKey::Other => 0,
    }
}

} // verus!
