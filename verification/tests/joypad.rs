//! The joypad's P1 register: low-active select and input bits.

use lr35902::joypad::{Button, Joypad};

#[test]
fn new_joypad_reads_idle() {
    let j = Joypad::new();
    assert_eq!(j.loadb(0xff00), 0xcf);
}

#[test]
fn selected_direction_key_pulls_line_low() {
    let mut j = Joypad::new();
    // Select the direction group (its bit goes low).
    j.storeb(0xff00, 0x20);
    j.set_button(Button::Right, true);
    assert_eq!(j.loadb(0xff00) & 0x0f, 0x0e);
    j.set_button(Button::Right, false);
    assert_eq!(j.loadb(0xff00) & 0x0f, 0x0f);
}

#[test]
fn unselected_group_stays_high() {
    let mut j = Joypad::new();
    // Select only the button group; direction keys must not show.
    j.storeb(0xff00, 0x10);
    j.set_button(Button::Left, true);
    assert_eq!(j.loadb(0xff00) & 0x0f, 0x0f);
    j.set_button(Button::Start, true);
    assert_eq!(j.loadb(0xff00) & 0x0f, 0x07);
}

#[test]
fn store_keeps_only_select_bits() {
    let mut j = Joypad::new();
    j.storeb(0xff00, 0xff);
    // The write reaches only the select bits; inputs read idle.
    assert_eq!(j.loadb(0xff00) & 0x30, 0x30);
    assert_eq!(j.loadb(0xff00) & 0x0f, 0x0f);
}

#[test]
fn reset_releases_buttons_without_refresh() {
    let mut j = Joypad::new();
    j.storeb(0xff00, 0x20);
    j.set_button(Button::Down, true);
    let before = j.loadb(0xff00);
    j.reset();
    // The register keeps its last value until the next refresh.
    assert_eq!(j.loadb(0xff00), before);
    j.storeb(0xff00, 0x20);
    assert_eq!(j.loadb(0xff00) & 0x0f, 0x0f);
}
