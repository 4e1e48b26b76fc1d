use kbdp::layout::{
    nav_arrows, nav_arrows_bottom, nav_row0, nav_row1, nav_row2, num_row0, num_row1, num_row2,
    num_row3, num_row4, row_caps, row_ctrl, row_func, row_num, row_shift, row_tab, spacer_half,
    spacer_quarter,
};
use kbdp::layout::key_id_fits;
use kbdp::{make_key_id, KeyDef};

fn all_rows() -> Vec<Vec<KeyDef>> {
    vec![
        row_func(),
        row_num(),
        row_tab(),
        row_caps(),
        row_shift(),
        row_ctrl(),
        nav_row0(),
        nav_row1(),
        nav_row2(),
        nav_arrows(),
        nav_arrows_bottom(),
        num_row0(),
        num_row1(),
        num_row2(),
        num_row3(),
        num_row4(),
    ]
}

fn width(keys: &[KeyDef]) -> u32 {
    keys.iter().map(|k| k.width_quarters).sum()
}

#[test]
fn plain_key_is_its_scan_code() {
    assert_eq!(make_key_id(0x1E, 0x41, false), 0x1E);
    assert_eq!(make_key_id(0x01, 0x1B, false), 0x01);
}

#[test]
fn extended_key_adds_offset() {
    assert_eq!(make_key_id(0x1D, 0xA3, true), 0x11D);
    assert_eq!(make_key_id(0x48, 0x26, true), 0x148);
    assert_eq!(make_key_id(0x1C, 0x0D, true), 0x11C);
}

#[test]
fn pause_has_its_own_id() {
    assert_eq!(make_key_id(0x45, 0x13, false), 0xE11D);
    assert_eq!(make_key_id(0x1D, 0x13, true), 0xE11D);
}

#[test]
fn numlock_is_its_scan_code() {
    assert_eq!(make_key_id(0x45, 0x90, false), 0x45);
    assert_eq!(make_key_id(0x45, 0x90, true), 0x45);
}

#[test]
fn right_shift_ignores_extended_flag() {
    assert_eq!(make_key_id(0x36, 0xA1, true), 0x36);
    assert_eq!(make_key_id(0x36, 0xA1, false), 0x36);
}

#[test]
fn main_block_rows_are_fifteen_keys_wide() {
    for row in [row_func(), row_num(), row_tab(), row_caps(), row_shift(), row_ctrl()] {
        assert_eq!(width(&row), 60);
    }
}

#[test]
fn navigation_rows_are_three_keys_wide() {
    for row in [nav_row0(), nav_row1(), nav_row2(), nav_arrows_bottom()] {
        assert_eq!(width(&row), 12);
    }
    assert_eq!(width(&nav_arrows()), 4);
}

#[test]
fn keypad_rows_are_four_keys_wide() {
    let r1 = num_row1();
    let r3 = num_row3();
    assert_eq!(width(&num_row0()), 16);
    assert_eq!(width(&r1), 16);
    assert_eq!(width(&num_row2()) + r1[3].width_quarters, 16);
    assert_eq!(r1[3].height_quarters, 8);
    assert_eq!(width(&r3), 16);
    assert_eq!(width(&num_row4()) + r3[3].width_quarters, 16);
    assert_eq!(r3[3].height_quarters, 8);
}

#[test]
fn layout_has_104_distinct_keys() {
    let mut ids: Vec<u32> = all_rows()
        .iter()
        .flatten()
        .filter(|k| !k.is_spacer())
        .map(|k| k.id)
        .collect();
    assert_eq!(ids.len(), 104);
    ids.sort();
    ids.dedup();
    assert_eq!(ids.len(), 104);
}

#[test]
fn every_drawn_key_has_an_event() {
    for key in all_rows().iter().flatten().filter(|k| !k.is_spacer()) {
        let id = key.id;
        let lit = if id == 0xE11D {
            make_key_id(0, 0x13, false)
        } else if id < 0x100 {
            make_key_id(id, 0, false)
        } else {
            make_key_id(id - 0x100, 0, true)
        };
        assert_eq!(lit, id, "key {}", key.label);
    }
}

#[test]
fn spacers_are_not_drawn() {
    assert!(spacer_half().is_spacer());
    assert!(spacer_quarter().is_spacer());
    assert_eq!(spacer_half().width_quarters, 2);
    assert_eq!(spacer_quarter().width_quarters, 1);
    let func = row_func();
    assert_eq!(func.iter().filter(|k| k.is_spacer()).count(), 6);
    assert!(!func[0].is_spacer());
    assert_eq!(func[0].label, "Esc");
}

#[test]
fn labels_and_sub_labels() {
    let num = row_num();
    assert_eq!(num[1].label, "!");
    assert_eq!(num[1].sub_label, Some("1"));
    assert_eq!(num[13].label, "Backspace");
    assert_eq!(num[13].sub_label, None);
    let keypad = num_row2();
    assert_eq!(keypad[1].sub_label, Some(""));
    assert_eq!(num_row3()[3].id, 0x11C);
    assert_eq!(row_ctrl()[3].label, "Space");
    assert_eq!(row_ctrl()[3].width_quarters, 25);
}

#[test]
fn key_id_fits_except_near_the_top_of_u32() {
    assert!(key_id_fits(0x1D, 0xA3, true));
    assert!(key_id_fits(u32::MAX, 0x41, false));
    assert!(key_id_fits(u32::MAX - 0x100, 0x41, true));
    assert!(!key_id_fits(u32::MAX - 0xFF, 0x41, true));
    assert!(key_id_fits(u32::MAX, 0x13, true));
}
