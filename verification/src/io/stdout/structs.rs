//! What one cell of the display is to show, and where.

use crate::io::stdout::layout::{
    column_after, emitted, is_printable, layout, layout_from, lemma_layout_step, truncated,
};
use crate::io::stdout::records::{
    empty_records, push_record, records_full, records_of, MAX_CHARS,
};
use crate::io::stdout::{VGA_HEIGHT, VGA_WIDTH};
use vstd::prelude::*;

verus! {

/// One character for the display: the glyph, its colour byte, and the cell
/// it is meant for. The cell may lie outside the display; see `is_valid`.
#[derive(Debug, Clone, Copy, PartialEq, Eq, Structural)]
pub struct SysPrintableChar {
    pub character: u8,
    pub color: u8,
    pub x: u8,
    pub y: u8,
}

impl SysPrintableChar {
    /// Whether the record's cell lies on the display.
    pub open spec fn valid(self) -> bool {
        self.x < VGA_WIDTH && self.y < VGA_HEIGHT
    }

    /// The record of `character` in `color` for column `x` of row `y`.
    pub fn new(character: u8, color: u8, x: u8, y: u8) -> (record: Self)
        ensures
            record == (SysPrintableChar { character, color, x, y }),
    {
        Self { character, color, x, y }
    }

    /// Whether the record's cell lies on the display: its column is under 80
    /// and its row under 25.
    pub fn is_valid(&self) -> (valid: bool)
        ensures
            valid == self.valid(),
            valid == (self.x < 80 && self.y < 25),
    {
        (self.x as usize) < VGA_WIDTH && (self.y as usize) < VGA_HEIGHT
    }
}

pub const TAB: u8 = 0x09;
pub const NEWLINE: u8 = 0x0A;
pub const CARRIAGE_RETURN: u8 = 0x0D;
pub const SPACE: u8 = 0x20;

/// Where a conversion stands between two bytes of its text: the cell that
/// the next glyph is meant for.
#[derive(Debug, Clone, Copy)]
pub struct TextPosition {
    pub x: u8,
    pub y: u8,
}

impl TextPosition {
    /// The position at column `x` of row `y`.
    pub fn new(x: u8, y: u8) -> (position: Self)
        ensures
            position == (TextPosition { x, y }),
    {
        Self { x, y }
    }

    /// One column to the right, counted modulo 256.
    pub fn advance(&mut self)
        ensures
            *final(self) == (TextPosition { x: column_after(old(self).x, 1), y: old(self).y }),
    {
        self.x = self.x.wrapping_add(1);
    }

    /// To column `start_x` of the next row. The row is a byte: row 255 has
    /// no next row.
    pub fn new_line(&mut self, start_x: u8)
        requires
            old(self).y < 255,
        ensures
            *final(self) == (TextPosition { x: start_x, y: (old(self).y + 1) as u8 }),
    {
        self.y += 1;
        self.x = start_x;
    }

    /// To column `start_x` of the same row.
    pub fn carriage_return(&mut self, start_x: u8)
        ensures
            *final(self) == (TextPosition { x: start_x, y: old(self).y }),
    {
        self.x = start_x;
    }

    /// Whether the position has left the last row.
    pub fn is_out_of_bounds(&self) -> (out: bool)
        ensures
            out == (self.y >= 25),
    {
        self.y >= VGA_HEIGHT as u8
    }
}

/// Whether `byte` is drawn as a glyph.
fn printable(byte: u8) -> (yes: bool)
    ensures
        yes == is_printable(byte),
{
    0x20 <= byte && byte <= 0x7E
}

impl SysPrintableChar {
    /// Converts `buffer` into the records that draw it in `color` from column
    /// `start_x` of row `start_y`, tabs expanded, and keeps the first 2000 of
    /// them.
    pub fn new_string(buffer: &[u8], color: u8, start_x: u8, start_y: u8) -> (chars: heapless::Vec<
        SysPrintableChar,
        MAX_CHARS,
    >)
        ensures
            records_of(chars) == truncated(layout(buffer@, color, start_x, start_y), 2000),
            records_of(chars).len() <= 2000,
            records_of(chars).is_prefix_of(layout(buffer@, color, start_x, start_y)),
    {
        let mut chars = empty_records();
        let mut position = TextPosition::new(start_x, start_y);
        let ghost whole = layout(buffer@, color, start_x, start_y);
        let mut i: usize = 0;
        proof {
            assert(buffer@.skip(0) =~= buffer@);
        }
        while i < buffer.len()
            invariant
                i <= buffer.len(),
                whole == layout(buffer@, color, start_x, start_y),
                records_of(chars).len() <= 2000,
                records_of(chars).is_prefix_of(whole),
                records_of(chars).len() < 2000 ==> whole == records_of(chars) + layout_from(
                    buffer@.skip(i as int),
                    color,
                    start_x,
                    position,
                ),
            ensures
                i == buffer.len() || position.y >= 25 || records_of(chars).len() == 2000,
            decreases buffer.len() - i,
        {
            if position.is_out_of_bounds() || records_full(&chars) {
                break ;
            }
            let byte = buffer[i];
            let ghost before = records_of(chars);
            let ghost at = position;
            proof {
                lemma_layout_step(buffer@, i as int, color, start_x, at);
            }
            if byte == NEWLINE {
                position.new_line(start_x);
            } else if byte == CARRIAGE_RETURN {
                position.carriage_return(start_x);
            } else if byte == TAB {
                let mut k: usize = 0;
                while k < 4
                    invariant
                        k <= 4,
                        at.y < 25,
                        position.y == at.y,
                        position.x == column_after(at.x, k as int),
                        records_of(chars).len() <= 2000,
                        records_of(chars) == before + emitted(
                            TAB,
                            color,
                            start_x,
                            at,
                        ).subrange(0, k as int),
                    ensures
                        k == 4 || records_of(chars).len() == 2000,
                    decreases 4 - k,
                {
                    if position.is_out_of_bounds() || records_full(&chars) {
                        break ;
                    }
                    let _ = push_record(
                        &mut chars,
                        SysPrintableChar::new(SPACE, color, position.x, position.y),
                    );
                    position.advance();
                    k += 1;
                }
                proof {
                    let tab = emitted(TAB, color, start_x, at);
                    if k == 4 {
                        assert(tab.subrange(0, 4) =~= tab);
                    }
                }
            } else if printable(byte) {
                if position.x >= VGA_WIDTH as u8 {
                    position.new_line(start_x);
                    if position.is_out_of_bounds() {
                        break ;
                    }
                }
                let _ = push_record(
                    &mut chars,
                    SysPrintableChar::new(byte, color, position.x, position.y),
                );
                position.advance();
            }
            i += 1;
        }
        chars
    }

    /// Converts `buffer` into the records that draw it in `color` from column
    /// `start_x` of row `start_y`, tabs expanded: all of them, however many
    /// they are.
    pub fn chars_from_string(buffer: &[u8], color: u8, start_x: u8, start_y: u8) -> (chars: Vec<
        SysPrintableChar,
    >)
        ensures
            chars@ == layout(buffer@, color, start_x, start_y),
    {
        let mut chars: Vec<SysPrintableChar> = Vec::new();
        let mut position = TextPosition::new(start_x, start_y);
        let ghost whole = layout(buffer@, color, start_x, start_y);
        let mut i: usize = 0;
        proof {
            assert(buffer@.skip(0) =~= buffer@);
        }
        while i < buffer.len()
            invariant
                i <= buffer.len(),
                whole == layout(buffer@, color, start_x, start_y),
                whole == chars@ + layout_from(buffer@.skip(i as int), color, start_x, position),
            ensures
                i == buffer.len() || position.y >= 25,
            decreases buffer.len() - i,
        {
            if position.is_out_of_bounds() {
                break ;
            }
            let byte = buffer[i];
            let ghost before = chars@;
            let ghost at = position;
            proof {
                lemma_layout_step(buffer@, i as int, color, start_x, at);
            }
            if byte == NEWLINE {
                position.new_line(start_x);
            } else if byte == CARRIAGE_RETURN {
                position.carriage_return(start_x);
            } else if byte == TAB {
                let mut k: usize = 0;
                while k < 4
                    invariant
                        k <= 4,
                        position.y == at.y,
                        position.x == column_after(at.x, k as int),
                        chars@ == before + emitted(TAB, color, start_x, at).subrange(0, k as int),
                    decreases 4 - k,
                {
                    chars.push(SysPrintableChar::new(SPACE, color, position.x, position.y));
                    position.advance();
                    k += 1;
                }
                proof {
                    let tab = emitted(TAB, color, start_x, at);
                    assert(tab.subrange(0, 4) =~= tab);
                }
            } else if printable(byte) {
                if position.x >= VGA_WIDTH as u8 {
                    position.new_line(start_x);
                    if position.is_out_of_bounds() {
                        break ;
                    }
                }
                chars.push(SysPrintableChar::new(byte, color, position.x, position.y));
                position.advance();
            }
            i += 1;
        }
        chars
    }
}

} // verus!
