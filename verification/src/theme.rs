//! The colour theme, as `0xRRGGBB` values.

use vstd::prelude::*;

use crate::layout::KeyState;

verus! {

/// Key that was never pressed: dark blue-grey background.
pub fn key_bg_idle() -> (color: u32)
    ensures
        color == 0x0E1F2C,
{
    0x0E1F2C
}

/// Key that was never pressed: cyan text.
pub fn key_fg_idle() -> (color: u32)
    ensures
        color == 0x55C3B7,
{
    0x55C3B7
}

/// Key held down: orange background.
pub fn key_bg_pressed() -> (color: u32)
    ensures
        color == 0xFF9900,
{
    0xFF9900
}

/// Key held down: dark text.
pub fn key_fg_pressed() -> (color: u32)
    ensures
        color == 0x1A1A1A,
{
    0x1A1A1A
}

/// Key released after a press: light blue-grey background.
pub fn key_bg_released() -> (color: u32)
    ensures
        color == 0xC8D7E3,
{
    0xC8D7E3
}

/// Key released after a press: dark text.
pub fn key_fg_released() -> (color: u32)
    ensures
        color == 0x1A1A1A,
{
    0x1A1A1A
}

/// Background of the whole window.
pub fn window_bg() -> (color: u32)
    ensures
        color == 0x0A1520,
{
    0x0A1520
}

/// Background and text colour of a key in the given state.
pub open spec fn spec_key_colors(state: KeyState) -> (u32, u32) {
    match state {
        KeyState::Idle => (0x0E1F2C, 0x55C3B7),
        KeyState::Pressed => (0xFF9900, 0x1A1A1A),
        KeyState::Released => (0xC8D7E3, 0x1A1A1A),
    }
}

/// Background and text colour, in that order, that a key in the given state is drawn in.
pub fn key_colors(state: KeyState) -> (colors: (u32, u32))
    ensures
        colors == spec_key_colors(state),
        state == KeyState::Idle ==> colors.0 == 0x0E1F2C && colors.1 == 0x55C3B7,
        state == KeyState::Pressed ==> colors.0 == 0xFF9900 && colors.1 == 0x1A1A1A,
        state == KeyState::Released ==> colors.0 == 0xC8D7E3 && colors.1 == 0x1A1A1A,
{
    match state {
        KeyState::Idle => (key_bg_idle(), key_fg_idle()),
        KeyState::Pressed => (key_bg_pressed(), key_fg_pressed()),
        KeyState::Released => (key_bg_released(), key_fg_released()),
    }
}

} // verus!
