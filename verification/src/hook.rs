//! Decisions of the low-level keyboard hook: which hook messages are key
//! events, what event each one reports, and which keys are kept from the
//! rest of the system while this program's window is in front.

use vstd::prelude::*;

verus! {

/// A key event as the hook reports it to the display.
#[derive(Debug, Clone, Copy)]
pub struct HookKeyEvent {
    /// Hardware scan code.
    pub scan_code: u32,
    /// Windows virtual-key code.
    pub vk_code: u32,
    /// `true` when the key went down, `false` when it went up.
    pub is_pressed: bool,
    /// Whether the key is an extended key (right Ctrl, right Alt, arrows, Ins/Del, ...).
    pub is_extended: bool,
}

/// Message: a key went down.
pub const WM_KEYDOWN: u32 = 0x0100;
/// Message: a key went up.
pub const WM_KEYUP: u32 = 0x0101;
/// Message: a key went down while Alt was held (or F10).
pub const WM_SYSKEYDOWN: u32 = 0x0104;
/// Message: a key went up while Alt was held (or F10).
pub const WM_SYSKEYUP: u32 = 0x0105;
/// Virtual-key code of F4.
pub const VK_F4: u32 = 0x73;
/// Hook flag: the key is an extended key.
pub const LLKHF_EXTENDED: u32 = 0x01;
/// Hook flag: Alt is held.
pub const LLKHF_ALTDOWN: u32 = 0x20;

/// The message reports a key going down.
pub open spec fn is_press_message(msg: u32) -> bool {
    msg == WM_KEYDOWN || msg == WM_SYSKEYDOWN
}

/// The message reports a key going up.
pub open spec fn is_release_message(msg: u32) -> bool {
    msg == WM_KEYUP || msg == WM_SYSKEYUP
}

/// The key event that a hook call reports, if it reports one: only calls with
/// a non-negative hook code and a key-down or key-up message do.
pub open spec fn spec_hook_key_event(
    n_code: i32,
    msg: u32,
    scan_code: u32,
    vk_code: u32,
    flags: u32,
) -> Option<HookKeyEvent> {
    if n_code >= 0 && (is_press_message(msg) || is_release_message(msg)) {
        Some(
            HookKeyEvent {
                scan_code,
                vk_code,
                is_pressed: is_press_message(msg),
                is_extended: flags & LLKHF_EXTENDED != 0,
            },
        )
    } else {
        None
    }
}

/// The key is F4 pressed together with Alt.
pub open spec fn spec_is_alt_f4(vk_code: u32, flags: u32) -> bool {
    vk_code == VK_F4 && flags & LLKHF_ALTDOWN != 0
}

/// Whether a hook call is Alt+F4, which must always pass so that the window can be closed.
pub fn is_alt_f4(vk_code: u32, flags: u32) -> (b: bool)
    ensures
        b == spec_is_alt_f4(vk_code, flags),
        b == (vk_code == 0x73 && flags & 0x20 != 0),
        b ==> vk_code == 0x73,
{
    vk_code == VK_F4 && (flags & LLKHF_ALTDOWN) != 0
}

/// The key event that a hook call reports, from the hook code, the message and
/// the fields of the hook's keyboard record.
pub fn hook_key_event(n_code: i32, msg: u32, scan_code: u32, vk_code: u32, flags: u32) -> (event:
    Option<HookKeyEvent>)
    ensures
        event == spec_hook_key_event(n_code, msg, scan_code, vk_code, flags),
        event is Some <==> n_code >= 0 && (msg == 0x0100 || msg == 0x0101 || msg == 0x0104 || msg
            == 0x0105),
        event matches Some(e) ==> {
            &&& e.scan_code == scan_code
            &&& e.vk_code == vk_code
            &&& e.is_pressed == (msg == 0x0100 || msg == 0x0104)
            &&& e.is_extended == (flags & 0x01 != 0)
        },
{
    if n_code >= 0 {
        let is_pressed = msg == WM_KEYDOWN || msg == WM_SYSKEYDOWN;
        let is_released = msg == WM_KEYUP || msg == WM_SYSKEYUP;
        if is_pressed || is_released {
            let is_extended = (flags & LLKHF_EXTENDED) != 0;
            return Some(HookKeyEvent { scan_code, vk_code, is_pressed, is_extended });
        }
    }
    None
}

/// Whether the hook keeps a reported key from the rest of the system: it does
/// while this program's window is in front, except for Alt+F4.
pub fn should_block_key(our_window_foreground: bool, vk_code: u32, flags: u32) -> (block: bool)
    ensures
        block == (our_window_foreground && !spec_is_alt_f4(vk_code, flags)),
        block == (our_window_foreground && !(vk_code == 0x73 && flags & 0x20 != 0)),
        our_window_foreground && vk_code != 0x73 ==> block,
        !our_window_foreground ==> !block,
        spec_is_alt_f4(vk_code, flags) ==> !block,
{
    our_window_foreground && !is_alt_f4(vk_code, flags)
}

/// Only F4 with Alt held is Alt+F4: any other key, with or without Alt, is
/// not, and F4 is only with the Alt flag (`0x20`) set.
pub proof fn lemma_alt_f4_is_only_alt_f4(vk_code: u32, flags: u32)
    ensures
        spec_is_alt_f4(vk_code, flags) <==> (vk_code == 0x73 && flags & 0x20 != 0),
        vk_code != 0x73 ==> !spec_is_alt_f4(vk_code, flags),
{
}

/// A hook call reports an event exactly for a non-negative hook code and one
/// of the four key messages (`0x0100` key down, `0x0101` key up, `0x0104`
/// system key down, `0x0105` system key up); the event carries the call's
/// scan code and virtual-key code unchanged, is a press exactly for the two
/// key-down messages, and is extended exactly when flag bit `0x01` is set.
pub proof fn lemma_hook_event_fields(n_code: i32, msg: u32, scan_code: u32, vk_code: u32, flags: u32)
    ensures
        spec_hook_key_event(n_code, msg, scan_code, vk_code, flags) is Some <==> n_code >= 0 && (msg
            == 0x0100 || msg == 0x0101 || msg == 0x0104 || msg == 0x0105),
        spec_hook_key_event(n_code, msg, scan_code, vk_code, flags) matches Some(e) ==> {
            &&& e.scan_code == scan_code
            &&& e.vk_code == vk_code
            &&& e.is_pressed == (msg == 0x0100 || msg == 0x0104)
            &&& e.is_extended == (flags & 0x01 != 0)
        },
{
}

} // verus!
