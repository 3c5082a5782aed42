//! The keyboard shortcuts that the remote sends to Zoom.

use vstd::prelude::*;

verus! {

/// The Command and Shift modifier flags of a keyboard event.
pub const COMMAND_SHIFT: u64 = 0x0010_0000 | 0x0002_0000;

/// Virtual key code of the A key.
pub const KEY_A: u16 = 0;

/// Virtual key code of the S key.
pub const KEY_S: u16 = 1;

/// Virtual key code of the V key.
pub const KEY_V: u16 = 9;

/// Virtual key code of the Return key.
pub const KEY_RETURN: u16 = 36;

/// Virtual key code of the Escape key.
pub const KEY_ESCAPE: u16 = 53;

/// A key pressed and released with the given modifier flags.
#[derive(Clone, Copy, Debug, PartialEq, Eq, Structural)]
pub struct KeyStroke {
    pub key_code: u16,
    pub flags: u64,
}

/// Command+Shift+S: starts or stops screen sharing.
pub fn send_command_shift_s() -> (key: KeyStroke)
    ensures
        key == (KeyStroke { key_code: KEY_S, flags: COMMAND_SHIFT }),
{
    KeyStroke { key_code: KEY_S, flags: COMMAND_SHIFT }
}

/// Return, without modifiers: confirms the default button of a dialog.
pub fn send_return() -> (key: KeyStroke)
    ensures
        key == (KeyStroke { key_code: KEY_RETURN, flags: 0 }),
{
    KeyStroke { key_code: KEY_RETURN, flags: 0 }
}

/// Escape, without modifiers: closes an open menu.
pub fn send_escape() -> (key: KeyStroke)
    ensures
        key == (KeyStroke { key_code: KEY_ESCAPE, flags: 0 }),
{
    KeyStroke { key_code: KEY_ESCAPE, flags: 0 }
}

/// Command+Shift+A: toggles the microphone.
pub fn send_command_shift_a() -> (key: KeyStroke)
    ensures
        key == (KeyStroke { key_code: KEY_A, flags: COMMAND_SHIFT }),
{
    KeyStroke { key_code: KEY_A, flags: COMMAND_SHIFT }
}

/// Command+Shift+V: toggles the camera video.
pub fn send_command_shift_v() -> (key: KeyStroke)
    ensures
        key == (KeyStroke { key_code: KEY_V, flags: COMMAND_SHIFT }),
{
    KeyStroke { key_code: KEY_V, flags: COMMAND_SHIFT }
}

} // verus!
