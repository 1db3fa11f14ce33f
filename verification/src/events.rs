//! The Windows daemon's message loop: which messages it acts on. The
//! profile-toggle hotkey arrives as `WM_HOTKEY` on the loop's thread; HID
//! arrival and removal arrive as `WM_DEVICECHANGE` at its message-only
//! window.

use vstd::prelude::*;
use crate::hotkey::MOD_NOREPEAT;

verus! {

pub const WM_DEVICECHANGE: u32 = 0x0219;

pub const WM_HOTKEY: u32 = 0x0312;

pub const DBT_DEVICEARRIVAL: u32 = 0x8000;

pub const DBT_DEVICEREMOVECOMPLETE: u32 = 0x8004;

/// The id the toggle hotkey is registered under.
pub const HOTKEY_ID: i32 = 1;

/// `GUID_DEVINTERFACE_HID`, `4D1E55B2-F16F-11CF-88CB-001111000030`: the
/// device-interface class the device notifications are filtered to.
pub const HID_CLASS_DATA1: u32 = 0x4D1E55B2;

pub const HID_CLASS_DATA2: u16 = 0xF16F;

pub const HID_CLASS_DATA3: u16 = 0x11CF;

pub const HID_CLASS_DATA4: [u8; 8] = [0x88, 0xCB, 0x00, 0x11, 0x11, 0x00, 0x00, 0x30];

/// What the message loop does with a message it took off the queue.
#[derive(Debug, Clone, Copy, PartialEq, Eq, Structural)]
pub enum LoopAction {
    /// The toggle hotkey was pressed.
    Toggle,
    /// Anything else goes to the window procedure.
    Dispatch,
}

pub open spec fn spec_loop_action(message: u32, wparam: usize) -> LoopAction {
    if message == WM_HOTKEY && wparam as i32 == HOTKEY_ID {
        LoopAction::Toggle
    } else {
        LoopAction::Dispatch
    }
}

pub fn loop_action(message: u32, wparam: usize) -> (a: LoopAction)
    ensures
        a == spec_loop_action(message, wparam),
{
    if message == WM_HOTKEY && wparam as i32 == HOTKEY_ID {
        LoopAction::Toggle
    } else {
        LoopAction::Dispatch
    }
}

/// Whether a `WM_DEVICECHANGE` event calls for looking for the keyboard
/// again: a device arrived or was removed.
pub fn rechecks_on(event: u32) -> (r: bool)
    ensures
        r == (event == DBT_DEVICEARRIVAL || event == DBT_DEVICEREMOVECOMPLETE),
{
    event == DBT_DEVICEARRIVAL || event == DBT_DEVICEREMOVECOMPLETE
}

/// The modifiers the hotkey is registered with: the parsed ones plus
/// `MOD_NOREPEAT`, so that holding the key switches once rather than at the
/// key-repeat rate.
pub fn registration_modifiers(modifiers: u32) -> (r: u32)
    ensures
        r == modifiers | MOD_NOREPEAT,
{
    modifiers | MOD_NOREPEAT
}

} // verus!
