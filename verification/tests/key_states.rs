use kbdp::theme::{
    key_bg_idle, key_bg_pressed, key_bg_released, key_colors, key_fg_idle, key_fg_pressed,
    key_fg_released, window_bg,
};
use kbdp::{HookKeyEvent, KeyState, KeyboardView};

fn ev(scan_code: u32, vk_code: u32, is_pressed: bool, is_extended: bool) -> HookKeyEvent {
    HookKeyEvent { scan_code, vk_code, is_pressed, is_extended }
}

#[test]
fn fresh_view_is_idle() {
    let view = KeyboardView::new();
    assert_eq!(view.state_of(0x1E), KeyState::Idle);
    assert_eq!(view.state_of(0xE11D), KeyState::Idle);
}

#[test]
fn press_then_release() {
    let mut view = KeyboardView::new();
    view.poll_events(&vec![ev(0x1E, 0x41, true, false)]);
    assert_eq!(view.state_of(0x1E), KeyState::Pressed);
    view.poll_events(&vec![ev(0x1E, 0x41, false, false)]);
    assert_eq!(view.state_of(0x1E), KeyState::Released);
    assert_eq!(view.state_of(0x1F), KeyState::Idle);
}

#[test]
fn latest_event_of_a_batch_wins() {
    let mut view = KeyboardView::new();
    view.poll_events(&vec![
        ev(0x1D, 0xA3, true, true),
        ev(0x1E, 0x41, true, false),
        ev(0x1D, 0xA3, false, true),
    ]);
    assert_eq!(view.state_of(0x11D), KeyState::Released);
    assert_eq!(view.state_of(0x1E), KeyState::Pressed);
    assert_eq!(view.state_of(0x1D), KeyState::Idle);
}

#[test]
fn batches_compose() {
    let a = vec![ev(0x2A, 0xA0, true, false), ev(0x45, 0x13, true, false)];
    let b = vec![ev(0x2A, 0xA0, false, false), ev(0x36, 0xA1, true, true)];
    let mut split = KeyboardView::new();
    split.poll_events(&a);
    split.poll_events(&b);
    let mut whole = KeyboardView::new();
    let mut ab = a.clone();
    ab.extend(b.iter().copied());
    whole.poll_events(&ab);
    for id in [0x2A, 0xE11D, 0x36, 0x136, 0x45] {
        assert_eq!(split.state_of(id), whole.state_of(id));
    }
    assert_eq!(whole.state_of(0x2A), KeyState::Released);
    assert_eq!(whole.state_of(0xE11D), KeyState::Pressed);
    assert_eq!(whole.state_of(0x36), KeyState::Pressed);
    assert_eq!(whole.state_of(0x136), KeyState::Idle);
}

#[test]
fn empty_batch_changes_nothing() {
    let mut view = KeyboardView::new();
    view.poll_events(&vec![ev(0x39, 0x20, true, false)]);
    view.poll_events(&vec![]);
    assert_eq!(view.state_of(0x39), KeyState::Pressed);
}

#[test]
fn theme_colors() {
    assert_eq!(key_bg_idle(), 0x0E1F2C);
    assert_eq!(key_fg_idle(), 0x55C3B7);
    assert_eq!(key_bg_pressed(), 0xFF9900);
    assert_eq!(key_fg_pressed(), 0x1A1A1A);
    assert_eq!(key_bg_released(), 0xC8D7E3);
    assert_eq!(key_fg_released(), 0x1A1A1A);
    assert_eq!(window_bg(), 0x0A1520);
    assert_eq!(key_colors(KeyState::Idle), (0x0E1F2C, 0x55C3B7));
    assert_eq!(key_colors(KeyState::Pressed), (0xFF9900, 0x1A1A1A));
    assert_eq!(key_colors(KeyState::Released), (0xC8D7E3, 0x1A1A1A));
}
