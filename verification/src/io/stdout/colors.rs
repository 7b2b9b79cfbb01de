//! The sixteen display colours and the colour byte of a cell.
//!
//! A colour byte holds the foreground in its low four bits and the background
//! in its high four bits.

use vstd::prelude::*;

verus! {

pub const BLACK: u8 = 0x0;
pub const BLUE: u8 = 0x1;
pub const GREEN: u8 = 0x2;
pub const CYAN: u8 = 0x3;
pub const RED: u8 = 0x4;
pub const MAGENTA: u8 = 0x5;
pub const BROWN: u8 = 0x6;
pub const LIGHT_GRAY: u8 = 0x7;
pub const DARK_GRAY: u8 = 0x8;
pub const LIGHT_BLUE: u8 = 0x9;
pub const LIGHT_GREEN: u8 = 0xa;
pub const LIGHT_CYAN: u8 = 0xb;
pub const LIGHT_RED: u8 = 0xc;
pub const LIGHT_MAGENTA: u8 = 0xd;
pub const YELLOW: u8 = 0xe;
pub const WHITE: u8 = 0xf;

/// The colour byte with the low four bits of `foreground` as its low nibble
/// and the low four bits of `background` as its high nibble.
pub open spec fn packed(foreground: u8, background: u8) -> u8 {
    ((foreground % 16) + 16 * (background % 16)) as u8
}

/// The foreground nibble of a colour byte.
pub open spec fn foreground_of(color_byte: u8) -> u8 {
    color_byte % 16
}

/// The background nibble of a colour byte.
pub open spec fn background_of(color_byte: u8) -> u8 {
    color_byte / 16
}

/// Packs a foreground and a background into one colour byte. Bits above the
/// low four of either argument are discarded.
pub fn make_color(foreground: u8, background: u8) -> (color_byte: u8)
    ensures
        color_byte == packed(foreground, background),
{
    assert((foreground & 0x0F) | ((background & 0x0F) << 4) == (foreground % 16) + 16 * (background
        % 16)) by (bit_vector);
    (foreground & 0x0F) | ((background & 0x0F) << 4)
}

/// The foreground of a colour byte.
pub fn get_foreground(color_byte: u8) -> (foreground: u8)
    ensures
        foreground == foreground_of(color_byte),
        foreground <= 15,
{
    assert(color_byte & 0x0F == color_byte % 16) by (bit_vector);
    color_byte & 0x0F
}

/// The background of a colour byte.
pub fn get_background(color_byte: u8) -> (background: u8)
    ensures
        background == background_of(color_byte),
        background <= 15,
{
    assert((color_byte >> 4) & 0x0F == color_byte / 16) by (bit_vector);
    (color_byte >> 4) & 0x0F
}

/// Whether `color` names one of the sixteen colours.
pub fn is_valid_color(color: u8) -> (valid: bool)
    ensures
        valid == (color <= 15),
{
    color <= 0xF
}

/// The foreground that `make_color_safe` packs: the one given where it is a
/// colour, light gray otherwise.
pub open spec fn safe_foreground(foreground: u8) -> u8 {
    if foreground <= 15 {
        foreground
    } else {
        LIGHT_GRAY
    }
}

/// The background that `make_color_safe` packs: the one given where it is a
/// colour, black otherwise.
pub open spec fn safe_background(background: u8) -> u8 {
    if background <= 15 {
        background
    } else {
        BLACK
    }
}

/// Packs a foreground and a background, replacing a foreground that is no
/// colour by light gray and a background that is no colour by black.
pub fn make_color_safe(foreground: u8, background: u8) -> (color_byte: u8)
    ensures
        color_byte == packed(safe_foreground(foreground), safe_background(background)),
        foreground_of(color_byte) == safe_foreground(foreground),
        background_of(color_byte) == safe_background(background),
{
    let safe_fg = if is_valid_color(foreground) {
        foreground
    } else {
        LIGHT_GRAY
    };
    let safe_bg = if is_valid_color(background) {
        background
    } else {
        BLACK
    };
    make_color(safe_fg, safe_bg)
}

/// Unpacking a packed pair of colours gives the pair back.
pub proof fn lemma_pack_unpack(foreground: u8, background: u8)
    requires
        foreground <= 15,
        background <= 15,
    ensures
        foreground_of(packed(foreground, background)) == foreground,
        background_of(packed(foreground, background)) == background,
{
}

/// Whatever is packed, each nibble of the result is the low nibble of the
/// argument it came from, and so a colour.
pub proof fn lemma_packed_nibbles(foreground: u8, background: u8)
    ensures
        foreground_of(packed(foreground, background)) == foreground % 16,
        background_of(packed(foreground, background)) == background % 16,
        foreground_of(packed(foreground, background)) <= 15,
        background_of(packed(foreground, background)) <= 15,
{
}

/// Safe packing always yields two colours: the ones given where they are
/// colours, the defaults where they are not.
pub proof fn lemma_safe_color_valid(foreground: u8, background: u8)
    ensures
        foreground_of(packed(safe_foreground(foreground), safe_background(background)))
            == safe_foreground(foreground),
        background_of(packed(safe_foreground(foreground), safe_background(background)))
            == safe_background(background),
        safe_foreground(foreground) <= 15,
        safe_background(background) <= 15,
{
}

} // verus!
