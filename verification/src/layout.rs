//! Layout of the standard US 104-key keyboard: every key with its identifier,
//! labels and size, and the rule that maps a hook event to a key identifier.
//!
//! Sizes are counted in quarters of a standard key (`4` is one standard key,
//! written `1u` below), which is the finest step any key of the layout uses.

use vstd::prelude::*;

verus! {

/// What the display shows for one key.
#[derive(Debug, Clone, Copy, PartialEq, Eq, Structural)]
pub enum KeyState {
    /// Never pressed.
    Idle,
    /// Held down right now.
    Pressed,
    /// Released (it has been pressed at some point).
    Released,
}

/// Virtual-key code of Pause/Break.
pub const VK_PAUSE: u32 = 0x13;
/// Virtual-key code of NumLock.
pub const VK_NUMLOCK: u32 = 0x90;
/// Scan code shared by NumLock and Pause.
pub const SCAN_NUMLOCK: u32 = 0x45;
/// Scan code of the right Shift key.
pub const SCAN_RIGHT_SHIFT: u32 = 0x36;
/// Offset added to the scan code of an extended key.
pub const EXTENDED_OFFSET: u32 = 0x100;
/// Identifier of the Pause/Break key, which has a scan-code sequence of its own.
pub const PAUSE_KEY_ID: u32 = 0xE11D;
/// Identifiers from this value up mark spacers, which are laid out but not drawn.
pub const FIRST_SPACER_ID: u32 = 0xFFFE;

/// The identifier of the key that a hook event with these codes belongs to:
/// Pause by its virtual-key code, NumLock by scan code and virtual-key code,
/// right Shift by its scan code alone (some drivers mark it extended), any
/// other extended key by its scan code plus `0x100`, any other key by its
/// scan code.
pub open spec fn key_id(scan_code: u32, vk_code: u32, is_extended: bool) -> int {
    if vk_code == VK_PAUSE {
        PAUSE_KEY_ID as int
    } else if scan_code == SCAN_NUMLOCK && vk_code == VK_NUMLOCK {
        SCAN_NUMLOCK as int
    } else if scan_code == SCAN_RIGHT_SHIFT {
        SCAN_RIGHT_SHIFT as int
    } else if is_extended {
        scan_code + EXTENDED_OFFSET
    } else {
        scan_code as int
    }
}

/// Computes the identifier of the key that a hook event belongs to.
pub fn make_key_id(scan_code: u32, vk_code: u32, is_extended: bool) -> (id: u32)
    requires
        key_id(scan_code, vk_code, is_extended) <= u32::MAX,
    ensures
        id == key_id(scan_code, vk_code, is_extended),
        vk_code == 0x13 ==> id == 0xE11D,
        vk_code != 0x13 && scan_code == 0x45 && vk_code == 0x90 ==> id == 0x45,
        vk_code != 0x13 && scan_code == 0x36 ==> id == 0x36,
        vk_code != 0x13 && !(scan_code == 0x45 && vk_code == 0x90) && scan_code != 0x36
            ==> id == (if is_extended {
            scan_code + 0x100
        } else {
            scan_code as int
        }),
{
    if vk_code == VK_PAUSE {
        return PAUSE_KEY_ID;
    }
    if scan_code == SCAN_NUMLOCK && vk_code == VK_NUMLOCK {
        return SCAN_NUMLOCK;
    }
    if scan_code == SCAN_RIGHT_SHIFT {
        return SCAN_RIGHT_SHIFT;
    }
    if is_extended {
        scan_code + EXTENDED_OFFSET
    } else {
        scan_code
    }
}

/// Whether the identifier of the key that a hook event with these codes
/// belongs to fits in a `u32`, so that [`make_key_id`] can compute it: it
/// does not only for an extended key whose scan code is within `0x100` of
/// `u32::MAX` (and that is neither Pause, NumLock nor right Shift).
pub fn key_id_fits(scan_code: u32, vk_code: u32, is_extended: bool) -> (fits: bool)
    ensures
        fits == (key_id(scan_code, vk_code, is_extended) <= u32::MAX),
{
    vk_code == VK_PAUSE || (scan_code == SCAN_NUMLOCK && vk_code == VK_NUMLOCK) || scan_code
        == SCAN_RIGHT_SHIFT || !is_extended || scan_code <= u32::MAX - EXTENDED_OFFSET
}

/// One key of the layout.
#[derive(Debug, Clone)]
pub struct KeyDef {
    /// The identifier that hook events are matched against (see [`key_id`]).
    pub id: u32,
    /// The main label.
    pub label: &'static str,
    /// A second, smaller label (the unshifted character, or the navigation
    /// function of a keypad key); `None` for none.
    pub sub_label: Option<&'static str>,
    /// Width, in quarters of a standard key.
    pub width_quarters: u32,
    /// Height, in quarters of a standard key (most keys are `4`, one row).
    pub height_quarters: u32,
}

impl KeyDef {
    /// A key one row tall, without a sub-label.
    pub open spec fn spec_key(id: u32, label: &'static str, width_quarters: u32) -> KeyDef {
        KeyDef { id, label, sub_label: None, width_quarters, height_quarters: 4 }
    }

    /// A key of the given height, without a sub-label.
    pub open spec fn spec_key_h(
        id: u32,
        label: &'static str,
        width_quarters: u32,
        height_quarters: u32,
    ) -> KeyDef {
        KeyDef { id, label, sub_label: None, width_quarters, height_quarters }
    }

    /// A key one row tall, with a sub-label.
    pub open spec fn spec_key_sub(
        id: u32,
        label: &'static str,
        sub: &'static str,
        width_quarters: u32,
    ) -> KeyDef {
        KeyDef { id, label, sub_label: Some(sub), width_quarters, height_quarters: 4 }
    }

    fn key(id: u32, label: &'static str, width_quarters: u32) -> (k: KeyDef)
        ensures
            k == KeyDef::spec_key(id, label, width_quarters),
    {
        KeyDef { id, label, sub_label: None, width_quarters, height_quarters: 4 }
    }

    fn key_h(id: u32, label: &'static str, width_quarters: u32, height_quarters: u32) -> (k: KeyDef)
        ensures
            k == KeyDef::spec_key_h(id, label, width_quarters, height_quarters),
    {
        KeyDef { id, label, sub_label: None, width_quarters, height_quarters }
    }

    fn key_sub(id: u32, label: &'static str, sub: &'static str, width_quarters: u32) -> (k: KeyDef)
        ensures
            k == KeyDef::spec_key_sub(id, label, sub, width_quarters),
    {
        KeyDef { id, label, sub_label: Some(sub), width_quarters, height_quarters: 4 }
    }

    /// Whether the entry is a spacer, which takes room in its row but is not drawn.
    pub fn is_spacer(&self) -> (b: bool)
        ensures
            b == (self.id >= FIRST_SPACER_ID),
    {
        self.id >= FIRST_SPACER_ID
    }
}

/// A spacer half a key wide.
pub open spec fn spec_spacer_half() -> KeyDef {
    KeyDef { id: 0xFFFF, label: "", sub_label: None, width_quarters: 2, height_quarters: 4 }
}

/// A spacer a quarter of a key wide.
pub open spec fn spec_spacer_quarter() -> KeyDef {
    KeyDef { id: 0xFFFE, label: "", sub_label: None, width_quarters: 1, height_quarters: 4 }
}

/// A spacer half a key wide.
pub fn spacer_half() -> (k: KeyDef)
    ensures
        k == spec_spacer_half(),
{
    KeyDef { id: 0xFFFF, label: "", sub_label: None, width_quarters: 2, height_quarters: 4 }
}

/// A spacer a quarter of a key wide.
pub fn spacer_quarter() -> (k: KeyDef)
    ensures
        k == spec_spacer_quarter(),
{
    KeyDef { id: 0xFFFE, label: "", sub_label: None, width_quarters: 1, height_quarters: 4 }
}

/// Main block, row 0: Esc and F1-F12, with gaps between the groups.
pub open spec fn spec_row_func() -> Seq<KeyDef> {
    seq![
        KeyDef::spec_key(0x01, "Esc", 4),
        spec_spacer_half(),
        spec_spacer_half(),
        KeyDef::spec_key(0x3B, "F1", 4),
        KeyDef::spec_key(0x3C, "F2", 4),
        KeyDef::spec_key(0x3D, "F3", 4),
        KeyDef::spec_key(0x3E, "F4", 4),
        spec_spacer_quarter(),
        spec_spacer_quarter(),
        KeyDef::spec_key(0x3F, "F5", 4),
        KeyDef::spec_key(0x40, "F6", 4),
        KeyDef::spec_key(0x41, "F7", 4),
        KeyDef::spec_key(0x42, "F8", 4),
        spec_spacer_quarter(),
        spec_spacer_quarter(),
        KeyDef::spec_key(0x43, "F9", 4),
        KeyDef::spec_key(0x44, "F10", 4),
        KeyDef::spec_key(0x57, "F11", 4),
        KeyDef::spec_key(0x58, "F12", 4),
    ]
}

/// Main block, row 0: Esc and F1-F12, with gaps between the groups.
pub fn row_func() -> (keys: Vec<KeyDef>)
    ensures
        keys@ == spec_row_func(),
{
    let keys = vec![
        KeyDef::key(0x01, "Esc", 4),
        spacer_half(),
        spacer_half(),
        KeyDef::key(0x3B, "F1", 4),
        KeyDef::key(0x3C, "F2", 4),
        KeyDef::key(0x3D, "F3", 4),
        KeyDef::key(0x3E, "F4", 4),
        spacer_quarter(),
        spacer_quarter(),
        KeyDef::key(0x3F, "F5", 4),
        KeyDef::key(0x40, "F6", 4),
        KeyDef::key(0x41, "F7", 4),
        KeyDef::key(0x42, "F8", 4),
        spacer_quarter(),
        spacer_quarter(),
        KeyDef::key(0x43, "F9", 4),
        KeyDef::key(0x44, "F10", 4),
        KeyDef::key(0x57, "F11", 4),
        KeyDef::key(0x58, "F12", 4),
    ];
    assert(keys@ =~= spec_row_func());
    keys
}

/// Main block, row 1: the number row (label: the shifted character, sub-label: the plain one).
pub open spec fn spec_row_num() -> Seq<KeyDef> {
    seq![
        KeyDef::spec_key_sub(0x29, "~", "`", 4),
        KeyDef::spec_key_sub(0x02, "!", "1", 4),
        KeyDef::spec_key_sub(0x03, "@", "2", 4),
        KeyDef::spec_key_sub(0x04, "#", "3", 4),
        KeyDef::spec_key_sub(0x05, "$", "4", 4),
        KeyDef::spec_key_sub(0x06, "%", "5", 4),
        KeyDef::spec_key_sub(0x07, "^", "6", 4),
        KeyDef::spec_key_sub(0x08, "&", "7", 4),
        KeyDef::spec_key_sub(0x09, "*", "8", 4),
        KeyDef::spec_key_sub(0x0A, "(", "9", 4),
        KeyDef::spec_key_sub(0x0B, ")", "0", 4),
        KeyDef::spec_key_sub(0x0C, "_", "-", 4),
        KeyDef::spec_key_sub(0x0D, "+", "=", 4),
        KeyDef::spec_key(0x0E, "Backspace", 8),
    ]
}

/// Main block, row 1: the number row (label: the shifted character, sub-label: the plain one).
pub fn row_num() -> (keys: Vec<KeyDef>)
    ensures
        keys@ == spec_row_num(),
{
    let keys = vec![
        KeyDef::key_sub(0x29, "~", "`", 4),
        KeyDef::key_sub(0x02, "!", "1", 4),
        KeyDef::key_sub(0x03, "@", "2", 4),
        KeyDef::key_sub(0x04, "#", "3", 4),
        KeyDef::key_sub(0x05, "$", "4", 4),
        KeyDef::key_sub(0x06, "%", "5", 4),
        KeyDef::key_sub(0x07, "^", "6", 4),
        KeyDef::key_sub(0x08, "&", "7", 4),
        KeyDef::key_sub(0x09, "*", "8", 4),
        KeyDef::key_sub(0x0A, "(", "9", 4),
        KeyDef::key_sub(0x0B, ")", "0", 4),
        KeyDef::key_sub(0x0C, "_", "-", 4),
        KeyDef::key_sub(0x0D, "+", "=", 4),
        KeyDef::key(0x0E, "Backspace", 8),
    ];
    assert(keys@ =~= spec_row_num());
    keys
}

/// Main block, row 2: the Tab row.
pub open spec fn spec_row_tab() -> Seq<KeyDef> {
    seq![
        KeyDef::spec_key(0x0F, "Tab", 6),
        KeyDef::spec_key(0x10, "Q", 4),
        KeyDef::spec_key(0x11, "W", 4),
        KeyDef::spec_key(0x12, "E", 4),
        KeyDef::spec_key(0x13, "R", 4),
        KeyDef::spec_key(0x14, "T", 4),
        KeyDef::spec_key(0x15, "Y", 4),
        KeyDef::spec_key(0x16, "U", 4),
        KeyDef::spec_key(0x17, "I", 4),
        KeyDef::spec_key(0x18, "O", 4),
        KeyDef::spec_key(0x19, "P", 4),
        KeyDef::spec_key_sub(0x1A, "{", "[", 4),
        KeyDef::spec_key_sub(0x1B, "}", "]", 4),
        KeyDef::spec_key_sub(0x2B, "|", "\\", 6),
    ]
}

/// Main block, row 2: the Tab row.
pub fn row_tab() -> (keys: Vec<KeyDef>)
    ensures
        keys@ == spec_row_tab(),
{
    let keys = vec![
        KeyDef::key(0x0F, "Tab", 6),
        KeyDef::key(0x10, "Q", 4),
        KeyDef::key(0x11, "W", 4),
        KeyDef::key(0x12, "E", 4),
        KeyDef::key(0x13, "R", 4),
        KeyDef::key(0x14, "T", 4),
        KeyDef::key(0x15, "Y", 4),
        KeyDef::key(0x16, "U", 4),
        KeyDef::key(0x17, "I", 4),
        KeyDef::key(0x18, "O", 4),
        KeyDef::key(0x19, "P", 4),
        KeyDef::key_sub(0x1A, "{", "[", 4),
        KeyDef::key_sub(0x1B, "}", "]", 4),
        KeyDef::key_sub(0x2B, "|", "\\", 6),
    ];
    assert(keys@ =~= spec_row_tab());
    keys
}

/// Main block, row 3: the CapsLock row.
pub open spec fn spec_row_caps() -> Seq<KeyDef> {
    seq![
        KeyDef::spec_key(0x3A, "Caps", 7),
        KeyDef::spec_key(0x1E, "A", 4),
        KeyDef::spec_key(0x1F, "S", 4),
        KeyDef::spec_key(0x20, "D", 4),
        KeyDef::spec_key(0x21, "F", 4),
        KeyDef::spec_key(0x22, "G", 4),
        KeyDef::spec_key(0x23, "H", 4),
        KeyDef::spec_key(0x24, "J", 4),
        KeyDef::spec_key(0x25, "K", 4),
        KeyDef::spec_key(0x26, "L", 4),
        KeyDef::spec_key_sub(0x27, ":", ";", 4),
        KeyDef::spec_key_sub(0x28, "\"", "'", 4),
        KeyDef::spec_key(0x1C, "Enter", 9),
    ]
}

/// Main block, row 3: the CapsLock row.
pub fn row_caps() -> (keys: Vec<KeyDef>)
    ensures
        keys@ == spec_row_caps(),
{
    let keys = vec![
        KeyDef::key(0x3A, "Caps", 7),
        KeyDef::key(0x1E, "A", 4),
        KeyDef::key(0x1F, "S", 4),
        KeyDef::key(0x20, "D", 4),
        KeyDef::key(0x21, "F", 4),
        KeyDef::key(0x22, "G", 4),
        KeyDef::key(0x23, "H", 4),
        KeyDef::key(0x24, "J", 4),
        KeyDef::key(0x25, "K", 4),
        KeyDef::key(0x26, "L", 4),
        KeyDef::key_sub(0x27, ":", ";", 4),
        KeyDef::key_sub(0x28, "\"", "'", 4),
        KeyDef::key(0x1C, "Enter", 9),
    ];
    assert(keys@ =~= spec_row_caps());
    keys
}

/// Main block, row 4: the Shift row.
pub open spec fn spec_row_shift() -> Seq<KeyDef> {
    seq![
        KeyDef::spec_key(0x2A, "L Shift", 9),
        KeyDef::spec_key(0x2C, "Z", 4),
        KeyDef::spec_key(0x2D, "X", 4),
        KeyDef::spec_key(0x2E, "C", 4),
        KeyDef::spec_key(0x2F, "V", 4),
        KeyDef::spec_key(0x30, "B", 4),
        KeyDef::spec_key(0x31, "N", 4),
        KeyDef::spec_key(0x32, "M", 4),
        KeyDef::spec_key_sub(0x33, "<", ",", 4),
        KeyDef::spec_key_sub(0x34, ">", ".", 4),
        KeyDef::spec_key_sub(0x35, "?", "/", 4),
        KeyDef::spec_key(0x36, "R Shift", 11),
    ]
}

/// Main block, row 4: the Shift row.
pub fn row_shift() -> (keys: Vec<KeyDef>)
    ensures
        keys@ == spec_row_shift(),
{
    let keys = vec![
        KeyDef::key(0x2A, "L Shift", 9),
        KeyDef::key(0x2C, "Z", 4),
        KeyDef::key(0x2D, "X", 4),
        KeyDef::key(0x2E, "C", 4),
        KeyDef::key(0x2F, "V", 4),
        KeyDef::key(0x30, "B", 4),
        KeyDef::key(0x31, "N", 4),
        KeyDef::key(0x32, "M", 4),
        KeyDef::key_sub(0x33, "<", ",", 4),
        KeyDef::key_sub(0x34, ">", ".", 4),
        KeyDef::key_sub(0x35, "?", "/", 4),
        KeyDef::key(0x36, "R Shift", 11),
    ];
    assert(keys@ =~= spec_row_shift());
    keys
}

/// Main block, row 5: the Ctrl row (Win, right Alt, Menu and right Ctrl are extended keys).
pub open spec fn spec_row_ctrl() -> Seq<KeyDef> {
    seq![
        KeyDef::spec_key(0x1D, "L Ctrl", 5),
        KeyDef::spec_key(0x15B, "L Win", 5),
        KeyDef::spec_key(0x38, "L Alt", 5),
        KeyDef::spec_key(0x39, "Space", 25),
        KeyDef::spec_key(0x138, "R Alt", 5),
        KeyDef::spec_key(0x15C, "R Win", 5),
        KeyDef::spec_key(0x15D, "Menu", 5),
        KeyDef::spec_key(0x11D, "R Ctrl", 5),
    ]
}

/// Main block, row 5: the Ctrl row (Win, right Alt, Menu and right Ctrl are extended keys).
pub fn row_ctrl() -> (keys: Vec<KeyDef>)
    ensures
        keys@ == spec_row_ctrl(),
{
    let keys = vec![
        KeyDef::key(0x1D, "L Ctrl", 5),
        KeyDef::key(0x15B, "L Win", 5),
        KeyDef::key(0x38, "L Alt", 5),
        KeyDef::key(0x39, "Space", 25),
        KeyDef::key(0x138, "R Alt", 5),
        KeyDef::key(0x15C, "R Win", 5),
        KeyDef::key(0x15D, "Menu", 5),
        KeyDef::key(0x11D, "R Ctrl", 5),
    ];
    assert(keys@ =~= spec_row_ctrl());
    keys
}

/// Navigation block, row 0: PrtSc, ScrLk, Pause.
pub open spec fn spec_nav_row0() -> Seq<KeyDef> {
    seq![
        KeyDef::spec_key(0x137, "PrtSc", 4),
        KeyDef::spec_key(0x46, "ScrLk", 4),
        KeyDef::spec_key(0xE11D, "Pause", 4),
    ]
}

/// Navigation block, row 0: PrtSc, ScrLk, Pause.
pub fn nav_row0() -> (keys: Vec<KeyDef>)
    ensures
        keys@ == spec_nav_row0(),
{
    let keys = vec![
        KeyDef::key(0x137, "PrtSc", 4),
        KeyDef::key(0x46, "ScrLk", 4),
        KeyDef::key(0xE11D, "Pause", 4),
    ];
    assert(keys@ =~= spec_nav_row0());
    keys
}

/// Navigation block, row 1: Ins, Home, PgUp.
pub open spec fn spec_nav_row1() -> Seq<KeyDef> {
    seq![
        KeyDef::spec_key(0x152, "Ins", 4),
        KeyDef::spec_key(0x147, "Home", 4),
        KeyDef::spec_key(0x149, "PgUp", 4),
    ]
}

/// Navigation block, row 1: Ins, Home, PgUp.
pub fn nav_row1() -> (keys: Vec<KeyDef>)
    ensures
        keys@ == spec_nav_row1(),
{
    let keys = vec![
        KeyDef::key(0x152, "Ins", 4),
        KeyDef::key(0x147, "Home", 4),
        KeyDef::key(0x149, "PgUp", 4),
    ];
    assert(keys@ =~= spec_nav_row1());
    keys
}

/// Navigation block, row 2: Del, End, PgDn.
pub open spec fn spec_nav_row2() -> Seq<KeyDef> {
    seq![
        KeyDef::spec_key(0x153, "Del", 4),
        KeyDef::spec_key(0x14F, "End", 4),
        KeyDef::spec_key(0x151, "PgDn", 4),
    ]
}

/// Navigation block, row 2: Del, End, PgDn.
pub fn nav_row2() -> (keys: Vec<KeyDef>)
    ensures
        keys@ == spec_nav_row2(),
{
    let keys = vec![
        KeyDef::key(0x153, "Del", 4),
        KeyDef::key(0x14F, "End", 4),
        KeyDef::key(0x151, "PgDn", 4),
    ];
    assert(keys@ =~= spec_nav_row2());
    keys
}

/// Navigation block, row 4: the up arrow (row 3 is empty).
pub open spec fn spec_nav_arrows() -> Seq<KeyDef> {
    seq![
        KeyDef::spec_key(0x148, "↑", 4),
    ]
}

/// Navigation block, row 4: the up arrow (row 3 is empty).
pub fn nav_arrows() -> (keys: Vec<KeyDef>)
    ensures
        keys@ == spec_nav_arrows(),
{
    let keys = vec![
        KeyDef::key(0x148, "↑", 4),
    ];
    assert(keys@ =~= spec_nav_arrows());
    keys
}

/// Navigation block, row 5: left, down and right arrows.
pub open spec fn spec_nav_arrows_bottom() -> Seq<KeyDef> {
    seq![
        KeyDef::spec_key(0x14B, "←", 4),
        KeyDef::spec_key(0x150, "↓", 4),
        KeyDef::spec_key(0x14D, "→", 4),
    ]
}

/// Navigation block, row 5: left, down and right arrows.
pub fn nav_arrows_bottom() -> (keys: Vec<KeyDef>)
    ensures
        keys@ == spec_nav_arrows_bottom(),
{
    let keys = vec![
        KeyDef::key(0x14B, "←", 4),
        KeyDef::key(0x150, "↓", 4),
        KeyDef::key(0x14D, "→", 4),
    ];
    assert(keys@ =~= spec_nav_arrows_bottom());
    keys
}

/// Numeric keypad, row 0: NumLock, /, *, -.
pub open spec fn spec_num_row0() -> Seq<KeyDef> {
    seq![
        KeyDef::spec_key(0x45, "Num", 4),
        KeyDef::spec_key(0x135, "/", 4),
        KeyDef::spec_key(0x37, "*", 4),
        KeyDef::spec_key(0x4A, "-", 4),
    ]
}

/// Numeric keypad, row 0: NumLock, /, *, -.
pub fn num_row0() -> (keys: Vec<KeyDef>)
    ensures
        keys@ == spec_num_row0(),
{
    let keys = vec![
        KeyDef::key(0x45, "Num", 4),
        KeyDef::key(0x135, "/", 4),
        KeyDef::key(0x37, "*", 4),
        KeyDef::key(0x4A, "-", 4),
    ];
    assert(keys@ =~= spec_num_row0());
    keys
}

/// Numeric keypad, row 1: 7, 8, 9, and + which is two rows tall.
pub open spec fn spec_num_row1() -> Seq<KeyDef> {
    seq![
        KeyDef::spec_key_sub(0x47, "7", "Home", 4),
        KeyDef::spec_key_sub(0x48, "8", "↑", 4),
        KeyDef::spec_key_sub(0x49, "9", "PgUp", 4),
        KeyDef::spec_key_h(0x4E, "+", 4, 8),
    ]
}

/// Numeric keypad, row 1: 7, 8, 9, and + which is two rows tall.
pub fn num_row1() -> (keys: Vec<KeyDef>)
    ensures
        keys@ == spec_num_row1(),
{
    let keys = vec![
        KeyDef::key_sub(0x47, "7", "Home", 4),
        KeyDef::key_sub(0x48, "8", "↑", 4),
        KeyDef::key_sub(0x49, "9", "PgUp", 4),
        KeyDef::key_h(0x4E, "+", 4, 8),
    ];
    assert(keys@ =~= spec_num_row1());
    keys
}

/// Numeric keypad, row 2: 4, 5, 6 (the + key of row 1 covers the fourth place).
pub open spec fn spec_num_row2() -> Seq<KeyDef> {
    seq![
        KeyDef::spec_key_sub(0x4B, "4", "←", 4),
        KeyDef::spec_key_sub(0x4C, "5", "", 4),
        KeyDef::spec_key_sub(0x4D, "6", "→", 4),
    ]
}

/// Numeric keypad, row 2: 4, 5, 6 (the + key of row 1 covers the fourth place).
pub fn num_row2() -> (keys: Vec<KeyDef>)
    ensures
        keys@ == spec_num_row2(),
{
    let keys = vec![
        KeyDef::key_sub(0x4B, "4", "←", 4),
        KeyDef::key_sub(0x4C, "5", "", 4),
        KeyDef::key_sub(0x4D, "6", "→", 4),
    ];
    assert(keys@ =~= spec_num_row2());
    keys
}

/// Numeric keypad, row 3: 1, 2, 3, and the keypad Enter (extended) which is two rows tall.
pub open spec fn spec_num_row3() -> Seq<KeyDef> {
    seq![
        KeyDef::spec_key_sub(0x4F, "1", "End", 4),
        KeyDef::spec_key_sub(0x50, "2", "↓", 4),
        KeyDef::spec_key_sub(0x51, "3", "PgDn", 4),
        KeyDef::spec_key_h(0x11C, "Enter", 4, 8),
    ]
}

/// Numeric keypad, row 3: 1, 2, 3, and the keypad Enter (extended) which is two rows tall.
pub fn num_row3() -> (keys: Vec<KeyDef>)
    ensures
        keys@ == spec_num_row3(),
{
    let keys = vec![
        KeyDef::key_sub(0x4F, "1", "End", 4),
        KeyDef::key_sub(0x50, "2", "↓", 4),
        KeyDef::key_sub(0x51, "3", "PgDn", 4),
        KeyDef::key_h(0x11C, "Enter", 4, 8),
    ];
    assert(keys@ =~= spec_num_row3());
    keys
}

/// Numeric keypad, row 4: 0 (two keys wide) and . (the Enter key of row 3 covers the last place).
pub open spec fn spec_num_row4() -> Seq<KeyDef> {
    seq![
        KeyDef::spec_key_sub(0x52, "0", "Ins", 8),
        KeyDef::spec_key_sub(0x53, ".", "Del", 4),
    ]
}

/// Numeric keypad, row 4: 0 (two keys wide) and . (the Enter key of row 3 covers the last place).
pub fn num_row4() -> (keys: Vec<KeyDef>)
    ensures
        keys@ == spec_num_row4(),
{
    let keys = vec![
        KeyDef::key_sub(0x52, "0", "Ins", 8),
        KeyDef::key_sub(0x53, ".", "Del", 4),
    ];
    assert(keys@ =~= spec_num_row4());
    keys
}

/// The width of the first `n` entries of a row, in quarters of a standard key.
pub open spec fn width_of_first(keys: Seq<KeyDef>, n: int) -> int
    decreases n,
{
    if n <= 0 {
        0
    } else {
        width_of_first(keys, n - 1) + keys[n - 1].width_quarters
    }
}

/// The width of a row, spacers included, in quarters of a standard key.
pub open spec fn row_width(keys: Seq<KeyDef>) -> int {
    width_of_first(keys, keys.len() as int)
}

/// Some hook event belongs to the key `id`.
pub open spec fn reachable_id(id: u32) -> bool {
    exists|scan_code: u32, vk_code: u32, is_extended: bool|
        #[trigger] key_id(scan_code, vk_code, is_extended) == id
}

/// Every entry of the row that is drawn has an identifier some hook event belongs to.
pub open spec fn drawn_keys_reachable(keys: Seq<KeyDef>) -> bool {
    forall|i: int|
        0 <= i < keys.len() && keys[i].id < FIRST_SPACER_ID ==> reachable_id(#[trigger] keys[i].id)
}

/// Identifiers of the three shapes the layout uses: a plain scan code, an
/// extended scan code (other than the right Shift's), or Pause.
pub open spec fn scan_code_shaped(id: u32) -> bool {
    ||| id < EXTENDED_OFFSET
    ||| EXTENDED_OFFSET <= id < 2 * EXTENDED_OFFSET && id != EXTENDED_OFFSET + SCAN_RIGHT_SHIFT
    ||| id == PAUSE_KEY_ID
}

proof fn lemma_scan_code_shaped_reachable(id: u32)
    requires
        scan_code_shaped(id),
    ensures
        reachable_id(id),
{
    if id == PAUSE_KEY_ID {
        assert(key_id(0, VK_PAUSE, false) == id);
    } else if id < EXTENDED_OFFSET {
        assert(key_id(id, 0, false) == id);
    } else {
        assert(key_id((id - EXTENDED_OFFSET) as u32, 0, true) == id);
    }
}

proof fn lemma_row_reachable(keys: Seq<KeyDef>)
    requires
        forall|i: int|
            0 <= i < keys.len() && keys[i].id < FIRST_SPACER_ID ==> scan_code_shaped(
                #[trigger] keys[i].id,
            ),
    ensures
        drawn_keys_reachable(keys),
{
    assert forall|i: int| 0 <= i < keys.len() && keys[i].id < FIRST_SPACER_ID implies reachable_id(
        #[trigger] keys[i].id,
    ) by {
        lemma_scan_code_shaped_reachable(keys[i].id);
    }
}

/// Each of the six rows of the main block is fifteen standard keys wide.
pub proof fn lemma_main_block_rows_15u_wide()
    ensures
        row_width(spec_row_func()) == 60,
        row_width(spec_row_num()) == 60,
        row_width(spec_row_tab()) == 60,
        row_width(spec_row_caps()) == 60,
        row_width(spec_row_shift()) == 60,
        row_width(spec_row_ctrl()) == 60,
{
    reveal_with_fuel(width_of_first, 20);
}

/// The navigation block is three standard keys wide: each of its full rows
/// is, and the lone up arrow is one key wide.
pub proof fn lemma_navigation_rows_3u_wide()
    ensures
        row_width(spec_nav_row0()) == 12,
        row_width(spec_nav_row1()) == 12,
        row_width(spec_nav_row2()) == 12,
        row_width(spec_nav_arrows()) == 4,
        row_width(spec_nav_arrows_bottom()) == 12,
{
    reveal_with_fuel(width_of_first, 5);
}

/// The numeric keypad is four standard keys wide on every row, counting the
/// two-row-tall + and Enter keys on the row below theirs as well.
pub proof fn lemma_keypad_rows_4u_wide()
    ensures
        row_width(spec_num_row0()) == 16,
        row_width(spec_num_row1()) == 16,
        row_width(spec_num_row2()) + spec_num_row1()[3].width_quarters == 16,
        spec_num_row1()[3].height_quarters == 8,
        row_width(spec_num_row3()) == 16,
        row_width(spec_num_row4()) + spec_num_row3()[3].width_quarters == 16,
        spec_num_row3()[3].height_quarters == 8,
{
    reveal_with_fuel(width_of_first, 5);
}

/// Every key the display draws can be lit: some hook event belongs to it.
pub proof fn lemma_every_drawn_key_reachable()
    ensures
        drawn_keys_reachable(spec_row_func()),
        drawn_keys_reachable(spec_row_num()),
        drawn_keys_reachable(spec_row_tab()),
        drawn_keys_reachable(spec_row_caps()),
        drawn_keys_reachable(spec_row_shift()),
        drawn_keys_reachable(spec_row_ctrl()),
        drawn_keys_reachable(spec_nav_row0()),
        drawn_keys_reachable(spec_nav_row1()),
        drawn_keys_reachable(spec_nav_row2()),
        drawn_keys_reachable(spec_nav_arrows()),
        drawn_keys_reachable(spec_nav_arrows_bottom()),
        drawn_keys_reachable(spec_num_row0()),
        drawn_keys_reachable(spec_num_row1()),
        drawn_keys_reachable(spec_num_row2()),
        drawn_keys_reachable(spec_num_row3()),
        drawn_keys_reachable(spec_num_row4()),
{
    lemma_row_reachable(spec_row_func());
    lemma_row_reachable(spec_row_num());
    lemma_row_reachable(spec_row_tab());
    lemma_row_reachable(spec_row_caps());
    lemma_row_reachable(spec_row_shift());
    lemma_row_reachable(spec_row_ctrl());
    lemma_row_reachable(spec_nav_row0());
    lemma_row_reachable(spec_nav_row1());
    lemma_row_reachable(spec_nav_row2());
    lemma_row_reachable(spec_nav_arrows());
    lemma_row_reachable(spec_nav_arrows_bottom());
    lemma_row_reachable(spec_num_row0());
    lemma_row_reachable(spec_num_row1());
    lemma_row_reachable(spec_num_row2());
    lemma_row_reachable(spec_num_row3());
    lemma_row_reachable(spec_num_row4());
}

/// The rows of the layout: the main block's six (0 to 5), the navigation
/// block's five (6 to 10) and the keypad's five (11 to 15).
pub open spec fn layout_rows() -> Seq<Seq<KeyDef>> {
    seq![
        spec_row_func(),
        spec_row_num(),
        spec_row_tab(),
        spec_row_caps(),
        spec_row_shift(),
        spec_row_ctrl(),
        spec_nav_row0(),
        spec_nav_row1(),
        spec_nav_row2(),
        spec_nav_arrows(),
        spec_nav_arrows_bottom(),
        spec_num_row0(),
        spec_num_row1(),
        spec_num_row2(),
        spec_num_row3(),
        spec_num_row4(),
    ]
}

/// Where the key with identifier `id` stands in the layout: its row in
/// [`layout_rows`] and its place in that row, or `(-1, -1)` for an
/// identifier that no drawn key has.
pub open spec fn key_position(id: u32) -> (int, int) {
    if id == 0x01 {
        (0, 0)
    } else if id == 0x3B {
        (0, 3)
    } else if id == 0x3C {
        (0, 4)
    } else if id == 0x3D {
        (0, 5)
    } else if id == 0x3E {
        (0, 6)
    } else if id == 0x3F {
        (0, 9)
    } else if id == 0x40 {
        (0, 10)
    } else if id == 0x41 {
        (0, 11)
    } else if id == 0x42 {
        (0, 12)
    } else if id == 0x43 {
        (0, 15)
    } else if id == 0x44 {
        (0, 16)
    } else if id == 0x57 {
        (0, 17)
    } else if id == 0x58 {
        (0, 18)
    } else if id == 0x29 {
        (1, 0)
    } else if id == 0x02 {
        (1, 1)
    } else if id == 0x03 {
        (1, 2)
    } else if id == 0x04 {
        (1, 3)
    } else if id == 0x05 {
        (1, 4)
    } else if id == 0x06 {
        (1, 5)
    } else if id == 0x07 {
        (1, 6)
    } else if id == 0x08 {
        (1, 7)
    } else if id == 0x09 {
        (1, 8)
    } else if id == 0x0A {
        (1, 9)
    } else if id == 0x0B {
        (1, 10)
    } else if id == 0x0C {
        (1, 11)
    } else if id == 0x0D {
        (1, 12)
    } else if id == 0x0E {
        (1, 13)
    } else if id == 0x0F {
        (2, 0)
    } else if id == 0x10 {
        (2, 1)
    } else if id == 0x11 {
        (2, 2)
    } else if id == 0x12 {
        (2, 3)
    } else if id == 0x13 {
        (2, 4)
    } else if id == 0x14 {
        (2, 5)
    } else if id == 0x15 {
        (2, 6)
    } else if id == 0x16 {
        (2, 7)
    } else if id == 0x17 {
        (2, 8)
    } else if id == 0x18 {
        (2, 9)
    } else if id == 0x19 {
        (2, 10)
    } else if id == 0x1A {
        (2, 11)
    } else if id == 0x1B {
        (2, 12)
    } else if id == 0x2B {
        (2, 13)
    } else if id == 0x3A {
        (3, 0)
    } else if id == 0x1E {
        (3, 1)
    } else if id == 0x1F {
        (3, 2)
    } else if id == 0x20 {
        (3, 3)
    } else if id == 0x21 {
        (3, 4)
    } else if id == 0x22 {
        (3, 5)
    } else if id == 0x23 {
        (3, 6)
    } else if id == 0x24 {
        (3, 7)
    } else if id == 0x25 {
        (3, 8)
    } else if id == 0x26 {
        (3, 9)
    } else if id == 0x27 {
        (3, 10)
    } else if id == 0x28 {
        (3, 11)
    } else if id == 0x1C {
        (3, 12)
    } else if id == 0x2A {
        (4, 0)
    } else if id == 0x2C {
        (4, 1)
    } else if id == 0x2D {
        (4, 2)
    } else if id == 0x2E {
        (4, 3)
    } else if id == 0x2F {
        (4, 4)
    } else if id == 0x30 {
        (4, 5)
    } else if id == 0x31 {
        (4, 6)
    } else if id == 0x32 {
        (4, 7)
    } else if id == 0x33 {
        (4, 8)
    } else if id == 0x34 {
        (4, 9)
    } else if id == 0x35 {
        (4, 10)
    } else if id == 0x36 {
        (4, 11)
    } else if id == 0x1D {
        (5, 0)
    } else if id == 0x15B {
        (5, 1)
    } else if id == 0x38 {
        (5, 2)
    } else if id == 0x39 {
        (5, 3)
    } else if id == 0x138 {
        (5, 4)
    } else if id == 0x15C {
        (5, 5)
    } else if id == 0x15D {
        (5, 6)
    } else if id == 0x11D {
        (5, 7)
    } else if id == 0x137 {
        (6, 0)
    } else if id == 0x46 {
        (6, 1)
    } else if id == 0xE11D {
        (6, 2)
    } else if id == 0x152 {
        (7, 0)
    } else if id == 0x147 {
        (7, 1)
    } else if id == 0x149 {
        (7, 2)
    } else if id == 0x153 {
        (8, 0)
    } else if id == 0x14F {
        (8, 1)
    } else if id == 0x151 {
        (8, 2)
    } else if id == 0x148 {
        (9, 0)
    } else if id == 0x14B {
        (10, 0)
    } else if id == 0x150 {
        (10, 1)
    } else if id == 0x14D {
        (10, 2)
    } else if id == 0x45 {
        (11, 0)
    } else if id == 0x135 {
        (11, 1)
    } else if id == 0x37 {
        (11, 2)
    } else if id == 0x4A {
        (11, 3)
    } else if id == 0x47 {
        (12, 0)
    } else if id == 0x48 {
        (12, 1)
    } else if id == 0x49 {
        (12, 2)
    } else if id == 0x4E {
        (12, 3)
    } else if id == 0x4B {
        (13, 0)
    } else if id == 0x4C {
        (13, 1)
    } else if id == 0x4D {
        (13, 2)
    } else if id == 0x4F {
        (14, 0)
    } else if id == 0x50 {
        (14, 1)
    } else if id == 0x51 {
        (14, 2)
    } else if id == 0x11C {
        (14, 3)
    } else if id == 0x52 {
        (15, 0)
    } else if id == 0x53 {
        (15, 1)
    } else {
        (-1, -1)
    }
}

/// Every drawn entry of the row stands where [`key_position`] places its identifier.
pub open spec fn positions_match(keys: Seq<KeyDef>, row: int) -> bool {
    forall|i: int|
        0 <= i < keys.len() && keys[i].id < FIRST_SPACER_ID ==> key_position(
            #[trigger] keys[i].id,
        ) == (row, i)
}

proof fn lemma_layout_positions_match()
    ensures
        forall|r: int|
            0 <= r < layout_rows().len() ==> positions_match(#[trigger] layout_rows()[r], r),
{
    assert(positions_match(spec_row_func(), 0));
    assert(positions_match(spec_row_num(), 1));
    assert(positions_match(spec_row_tab(), 2));
    assert(positions_match(spec_row_caps(), 3));
    assert(positions_match(spec_row_shift(), 4));
    assert(positions_match(spec_row_ctrl(), 5));
    assert(positions_match(spec_nav_row0(), 6));
    assert(positions_match(spec_nav_row1(), 7));
    assert(positions_match(spec_nav_row2(), 8));
    assert(positions_match(spec_nav_arrows(), 9));
    assert(positions_match(spec_nav_arrows_bottom(), 10));
    assert(positions_match(spec_num_row0(), 11));
    assert(positions_match(spec_num_row1(), 12));
    assert(positions_match(spec_num_row2(), 13));
    assert(positions_match(spec_num_row3(), 14));
    assert(positions_match(spec_num_row4(), 15));
}

/// No two keys the display draws share an identifier, so every event lights
/// at most one key.
pub proof fn lemma_key_ids_unique(r1: int, i1: int, r2: int, i2: int)
    requires
        0 <= r1 < layout_rows().len(),
        0 <= i1 < layout_rows()[r1].len(),
        0 <= r2 < layout_rows().len(),
        0 <= i2 < layout_rows()[r2].len(),
        layout_rows()[r1][i1].id < FIRST_SPACER_ID,
        layout_rows()[r2][i2].id < FIRST_SPACER_ID,
        layout_rows()[r1][i1].id == layout_rows()[r2][i2].id,
    ensures
        r1 == r2,
        i1 == i2,
{
    lemma_layout_positions_match();
    assert(positions_match(layout_rows()[r1], r1));
    assert(positions_match(layout_rows()[r2], r2));
}

/// The identifier rule in numbers: Pause (virtual-key code `0x13`) is
/// `0xE11D`; NumLock (scan code `0x45` with virtual-key code `0x90`) is
/// `0x45`; right Shift (scan code `0x36`) is `0x36` whatever its extended
/// flag; every other key is its scan code, plus `0x100` when it is extended,
/// whatever its virtual-key code.
pub proof fn lemma_key_id_rule(scan_code: u32, vk_code: u32, is_extended: bool)
    ensures
        vk_code == 0x13 ==> key_id(scan_code, vk_code, is_extended) == 0xE11D,
        vk_code != 0x13 && scan_code == 0x45 && vk_code == 0x90 ==> key_id(
            scan_code,
            vk_code,
            is_extended,
        ) == 0x45,
        vk_code != 0x13 && scan_code == 0x36 ==> key_id(scan_code, vk_code, is_extended) == 0x36,
        vk_code != 0x13 && !(scan_code == 0x45 && vk_code == 0x90) && scan_code != 0x36
            ==> key_id(scan_code, vk_code, is_extended) == (if is_extended {
            scan_code + 0x100
        } else {
            scan_code as int
        }),
{
}

/// Two events of one ordinary key (not Pause, NumLock or right Shift) with
/// the same scan code and extended flag belong to the same key, whatever
/// their virtual-key codes; an extended and a plain event of such a scan code
/// belong to keys `0x100` apart.
pub proof fn lemma_key_id_ignores_vk_code(scan_code: u32, vk1: u32, vk2: u32)
    requires
        vk1 != 0x13 && vk2 != 0x13,
        vk1 != 0x90 && vk2 != 0x90,
        scan_code != 0x36,
    ensures
        key_id(scan_code, vk1, true) == key_id(scan_code, vk2, true),
        key_id(scan_code, vk1, false) == key_id(scan_code, vk2, false),
        key_id(scan_code, vk1, true) == key_id(scan_code, vk2, false) + 0x100,
{
}

/// The standard US 104-key layout by key identifier: label, sub-label, width
/// and height (in quarters of a standard key) of the key with that
/// identifier, or `None` for an identifier no key has.
pub open spec fn standard_key(id: u32) -> Option<(&'static str, Option<&'static str>, u32, u32)> {
    if id == 0x01 {
        Some(("Esc", None, 4, 4))
    } else if id == 0x3B {
        Some(("F1", None, 4, 4))
    } else if id == 0x3C {
        Some(("F2", None, 4, 4))
    } else if id == 0x3D {
        Some(("F3", None, 4, 4))
    } else if id == 0x3E {
        Some(("F4", None, 4, 4))
    } else if id == 0x3F {
        Some(("F5", None, 4, 4))
    } else if id == 0x40 {
        Some(("F6", None, 4, 4))
    } else if id == 0x41 {
        Some(("F7", None, 4, 4))
    } else if id == 0x42 {
        Some(("F8", None, 4, 4))
    } else if id == 0x43 {
        Some(("F9", None, 4, 4))
    } else if id == 0x44 {
        Some(("F10", None, 4, 4))
    } else if id == 0x57 {
        Some(("F11", None, 4, 4))
    } else if id == 0x58 {
        Some(("F12", None, 4, 4))
    } else if id == 0x29 {
        Some(("~", Some("`"), 4, 4))
    } else if id == 0x02 {
        Some(("!", Some("1"), 4, 4))
    } else if id == 0x03 {
        Some(("@", Some("2"), 4, 4))
    } else if id == 0x04 {
        Some(("#", Some("3"), 4, 4))
    } else if id == 0x05 {
        Some(("$", Some("4"), 4, 4))
    } else if id == 0x06 {
        Some(("%", Some("5"), 4, 4))
    } else if id == 0x07 {
        Some(("^", Some("6"), 4, 4))
    } else if id == 0x08 {
        Some(("&", Some("7"), 4, 4))
    } else if id == 0x09 {
        Some(("*", Some("8"), 4, 4))
    } else if id == 0x0A {
        Some(("(", Some("9"), 4, 4))
    } else if id == 0x0B {
        Some((")", Some("0"), 4, 4))
    } else if id == 0x0C {
        Some(("_", Some("-"), 4, 4))
    } else if id == 0x0D {
        Some(("+", Some("="), 4, 4))
    } else if id == 0x0E {
        Some(("Backspace", None, 8, 4))
    } else if id == 0x0F {
        Some(("Tab", None, 6, 4))
    } else if id == 0x10 {
        Some(("Q", None, 4, 4))
    } else if id == 0x11 {
        Some(("W", None, 4, 4))
    } else if id == 0x12 {
        Some(("E", None, 4, 4))
    } else if id == 0x13 {
        Some(("R", None, 4, 4))
    } else if id == 0x14 {
        Some(("T", None, 4, 4))
    } else if id == 0x15 {
        Some(("Y", None, 4, 4))
    } else if id == 0x16 {
        Some(("U", None, 4, 4))
    } else if id == 0x17 {
        Some(("I", None, 4, 4))
    } else if id == 0x18 {
        Some(("O", None, 4, 4))
    } else if id == 0x19 {
        Some(("P", None, 4, 4))
    } else if id == 0x1A {
        Some(("{", Some("["), 4, 4))
    } else if id == 0x1B {
        Some(("}", Some("]"), 4, 4))
    } else if id == 0x2B {
        Some(("|", Some("\\"), 6, 4))
    } else if id == 0x3A {
        Some(("Caps", None, 7, 4))
    } else if id == 0x1E {
        Some(("A", None, 4, 4))
    } else if id == 0x1F {
        Some(("S", None, 4, 4))
    } else if id == 0x20 {
        Some(("D", None, 4, 4))
    } else if id == 0x21 {
        Some(("F", None, 4, 4))
    } else if id == 0x22 {
        Some(("G", None, 4, 4))
    } else if id == 0x23 {
        Some(("H", None, 4, 4))
    } else if id == 0x24 {
        Some(("J", None, 4, 4))
    } else if id == 0x25 {
        Some(("K", None, 4, 4))
    } else if id == 0x26 {
        Some(("L", None, 4, 4))
    } else if id == 0x27 {
        Some((":", Some(";"), 4, 4))
    } else if id == 0x28 {
        Some(("\"", Some("'"), 4, 4))
    } else if id == 0x1C {
        Some(("Enter", None, 9, 4))
    } else if id == 0x2A {
        Some(("L Shift", None, 9, 4))
    } else if id == 0x2C {
        Some(("Z", None, 4, 4))
    } else if id == 0x2D {
        Some(("X", None, 4, 4))
    } else if id == 0x2E {
        Some(("C", None, 4, 4))
    } else if id == 0x2F {
        Some(("V", None, 4, 4))
    } else if id == 0x30 {
        Some(("B", None, 4, 4))
    } else if id == 0x31 {
        Some(("N", None, 4, 4))
    } else if id == 0x32 {
        Some(("M", None, 4, 4))
    } else if id == 0x33 {
        Some(("<", Some(","), 4, 4))
    } else if id == 0x34 {
        Some((">", Some("."), 4, 4))
    } else if id == 0x35 {
        Some(("?", Some("/"), 4, 4))
    } else if id == 0x36 {
        Some(("R Shift", None, 11, 4))
    } else if id == 0x1D {
        Some(("L Ctrl", None, 5, 4))
    } else if id == 0x15B {
        Some(("L Win", None, 5, 4))
    } else if id == 0x38 {
        Some(("L Alt", None, 5, 4))
    } else if id == 0x39 {
        Some(("Space", None, 25, 4))
    } else if id == 0x138 {
        Some(("R Alt", None, 5, 4))
    } else if id == 0x15C {
        Some(("R Win", None, 5, 4))
    } else if id == 0x15D {
        Some(("Menu", None, 5, 4))
    } else if id == 0x11D {
        Some(("R Ctrl", None, 5, 4))
    } else if id == 0x137 {
        Some(("PrtSc", None, 4, 4))
    } else if id == 0x46 {
        Some(("ScrLk", None, 4, 4))
    } else if id == 0xE11D {
        Some(("Pause", None, 4, 4))
    } else if id == 0x152 {
        Some(("Ins", None, 4, 4))
    } else if id == 0x147 {
        Some(("Home", None, 4, 4))
    } else if id == 0x149 {
        Some(("PgUp", None, 4, 4))
    } else if id == 0x153 {
        Some(("Del", None, 4, 4))
    } else if id == 0x14F {
        Some(("End", None, 4, 4))
    } else if id == 0x151 {
        Some(("PgDn", None, 4, 4))
    } else if id == 0x148 {
        Some(("↑", None, 4, 4))
    } else if id == 0x14B {
        Some(("←", None, 4, 4))
    } else if id == 0x150 {
        Some(("↓", None, 4, 4))
    } else if id == 0x14D {
        Some(("→", None, 4, 4))
    } else if id == 0x45 {
        Some(("Num", None, 4, 4))
    } else if id == 0x135 {
        Some(("/", None, 4, 4))
    } else if id == 0x37 {
        Some(("*", None, 4, 4))
    } else if id == 0x4A {
        Some(("-", None, 4, 4))
    } else if id == 0x47 {
        Some(("7", Some("Home"), 4, 4))
    } else if id == 0x48 {
        Some(("8", Some("↑"), 4, 4))
    } else if id == 0x49 {
        Some(("9", Some("PgUp"), 4, 4))
    } else if id == 0x4E {
        Some(("+", None, 4, 8))
    } else if id == 0x4B {
        Some(("4", Some("←"), 4, 4))
    } else if id == 0x4C {
        Some(("5", Some(""), 4, 4))
    } else if id == 0x4D {
        Some(("6", Some("→"), 4, 4))
    } else if id == 0x4F {
        Some(("1", Some("End"), 4, 4))
    } else if id == 0x50 {
        Some(("2", Some("↓"), 4, 4))
    } else if id == 0x51 {
        Some(("3", Some("PgDn"), 4, 4))
    } else if id == 0x11C {
        Some(("Enter", None, 4, 8))
    } else if id == 0x52 {
        Some(("0", Some("Ins"), 8, 4))
    } else if id == 0x53 {
        Some((".", Some("Del"), 4, 4))
    } else {
        None
    }
}

/// Every drawn entry of the row has the label, sub-label and size that the
/// standard layout gives its identifier.
pub open spec fn standard_keys_match(keys: Seq<KeyDef>) -> bool {
    forall|i: int|
        0 <= i < keys.len() && keys[i].id < FIRST_SPACER_ID ==> standard_key(#[trigger] keys[i].id)
            == Some((keys[i].label, keys[i].sub_label, keys[i].width_quarters, keys[i].height_quarters))
}

/// Every key the display draws carries the label, sub-label, width and height
/// that the standard US layout gives its identifier: the key a hook event
/// lights is drawn as the key that was pressed, at its size.
pub proof fn lemma_layout_is_standard(r: int, i: int)
    requires
        0 <= r < layout_rows().len(),
        0 <= i < layout_rows()[r].len(),
        layout_rows()[r][i].id < FIRST_SPACER_ID,
    ensures
        ({
            let k = layout_rows()[r][i];
            standard_key(k.id) == Some((k.label, k.sub_label, k.width_quarters, k.height_quarters))
        }),
{
    assert(standard_keys_match(spec_row_func()));
    assert(standard_keys_match(spec_row_num()));
    assert(standard_keys_match(spec_row_tab()));
    assert(standard_keys_match(spec_row_caps()));
    assert(standard_keys_match(spec_row_shift()));
    assert(standard_keys_match(spec_row_ctrl()));
    assert(standard_keys_match(spec_nav_row0()));
    assert(standard_keys_match(spec_nav_row1()));
    assert(standard_keys_match(spec_nav_row2()));
    assert(standard_keys_match(spec_nav_arrows()));
    assert(standard_keys_match(spec_nav_arrows_bottom()));
    assert(standard_keys_match(spec_num_row0()));
    assert(standard_keys_match(spec_num_row1()));
    assert(standard_keys_match(spec_num_row2()));
    assert(standard_keys_match(spec_num_row3()));
    assert(standard_keys_match(spec_num_row4()));
    assert(standard_keys_match(layout_rows()[r]));
}

} // verus!
