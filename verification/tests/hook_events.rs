use kbdp::hook::{
    hook_key_event, is_alt_f4, should_block_key, LLKHF_ALTDOWN, LLKHF_EXTENDED, VK_F4,
    WM_KEYDOWN, WM_KEYUP, WM_SYSKEYDOWN, WM_SYSKEYUP,
};

#[test]
fn key_down_is_a_press() {
    let e = hook_key_event(0, WM_KEYDOWN, 0x1E, 0x41, 0).unwrap();
    assert_eq!(e.scan_code, 0x1E);
    assert_eq!(e.vk_code, 0x41);
    assert!(e.is_pressed);
    assert!(!e.is_extended);
}

#[test]
fn sys_key_up_is_a_release() {
    let e = hook_key_event(0, WM_SYSKEYUP, 0x38, 0xA4, LLKHF_ALTDOWN).unwrap();
    assert!(!e.is_pressed);
    assert!(!e.is_extended);
    let e = hook_key_event(3, WM_KEYUP, 0x1D, 0xA3, LLKHF_EXTENDED).unwrap();
    assert!(!e.is_pressed);
    assert!(e.is_extended);
    let e = hook_key_event(0, WM_SYSKEYDOWN, 0x3E, VK_F4, LLKHF_ALTDOWN).unwrap();
    assert!(e.is_pressed);
}

#[test]
fn other_messages_and_negative_codes_report_nothing() {
    assert!(hook_key_event(-1, WM_KEYDOWN, 0x1E, 0x41, 0).is_none());
    assert!(hook_key_event(0, 0x0200, 0x1E, 0x41, 0).is_none());
    assert!(hook_key_event(0, 0x0102, 0x1E, 0x41, 0).is_none());
}

#[test]
fn alt_f4_is_recognised() {
    assert!(is_alt_f4(VK_F4, LLKHF_ALTDOWN));
    assert!(is_alt_f4(VK_F4, LLKHF_ALTDOWN | LLKHF_EXTENDED));
    assert!(!is_alt_f4(VK_F4, 0));
    assert!(!is_alt_f4(0x74, LLKHF_ALTDOWN));
}

#[test]
fn keys_are_blocked_only_in_front_and_never_alt_f4() {
    assert!(should_block_key(true, 0x5B, LLKHF_EXTENDED));
    assert!(should_block_key(true, VK_F4, 0));
    assert!(!should_block_key(true, VK_F4, LLKHF_ALTDOWN));
    assert!(!should_block_key(false, 0x5B, LLKHF_EXTENDED));
    assert!(!should_block_key(false, VK_F4, LLKHF_ALTDOWN));
}

#[test]
fn hook_messages_drive_key_states() {
    let mut view = kbdp::KeyboardView::new();
    let down = hook_key_event(0, WM_KEYDOWN, 0x4B, 0x25, LLKHF_EXTENDED).unwrap();
    view.poll_events(&vec![down]);
    assert_eq!(view.state_of(0x14B), kbdp::KeyState::Pressed);
    assert_eq!(view.state_of(0x4B), kbdp::KeyState::Idle);
    let up = hook_key_event(0, WM_KEYUP, 0x4B, 0x25, LLKHF_EXTENDED).unwrap();
    view.poll_events(&vec![up]);
    assert_eq!(view.state_of(0x14B), kbdp::KeyState::Released);
}
