//! Output to the text display.
//!
//! The display is a grid of 80 columns and 25 rows. Each cell takes two
//! bytes, the glyph and then its colour byte, and the cells follow each other
//! row by row. `VgaBuffer` holds those 4000 bytes; the functions here change
//! it, and whoever owns the display copies it there.

use crate::io::stdout::colors::{background_of, foreground_of, make_color, packed, BLACK};
use crate::io::stdout::layout::{layout, truncated};
use crate::io::stdout::records::{records_of, records_slice, MAX_CHARS};
use crate::io::stdout::structs::{SysPrintableChar, CARRIAGE_RETURN, NEWLINE, SPACE};
use vstd::prelude::*;

pub mod colors;
pub mod layout;
pub mod records;
pub mod structs;

verus! {

pub const VGA_WIDTH: usize = 80;
pub const VGA_HEIGHT: usize = 25;
pub const VGA_BUFFER_SIZE: usize = VGA_WIDTH * VGA_HEIGHT * 2;

/// Where the glyph of the cell in column `x` of row `y` lies among the bytes
/// of the display; its colour byte follows it.
pub open spec fn cell_offset(x: int, y: int) -> int {
    (y * 80 + x) * 2
}

/// The bytes of the display once `record` has been written: unchanged where
/// the record is not valid, else with the record's glyph and colour in its
/// cell.
pub open spec fn put(cells: Seq<u8>, record: SysPrintableChar) -> Seq<u8> {
    if record.valid() {
        cells.update(cell_offset(record.x as int, record.y as int), record.character).update(
            cell_offset(record.x as int, record.y as int) + 1,
            record.color,
        )
    } else {
        cells
    }
}

/// The bytes of the display once each of `records` has been written, the
/// first of them first.
pub open spec fn drawn(cells: Seq<u8>, records: Seq<SysPrintableChar>) -> Seq<u8>
    decreases records.len(),
{
    if records.len() == 0 {
        cells
    } else {
        put(drawn(cells, records.drop_last()), records.last())
    }
}

/// The bytes of the display once `text` has been written in `color` from
/// column `x` of row `y`: tabs are expanded, and only the first 2000 records
/// of the text are written.
pub open spec fn written(cells: Seq<u8>, text: Seq<u8>, color: u8, x: u8, y: u8) -> Seq<u8> {
    drawn(cells, truncated(layout(text, color, x, y), 2000))
}

/// The bytes of a display that shows nothing but spaces whose colour byte
/// is `color`.
pub open spec fn blank(color: u8) -> Seq<u8> {
    Seq::new(
        4000,
        |i: int|
            if i % 2 == 0 {
                SPACE
            } else {
                color
            },
    )
}

/// The bytes of the text display.
pub struct VgaBuffer {
    cells: [u8; 4000],
}

impl View for VgaBuffer {
    type V = Seq<u8>;

    closed spec fn view(&self) -> Seq<u8> {
        self.cells@
    }
}

impl VgaBuffer {
    /// A display whose bytes are all zero.
    pub fn new() -> (buffer: Self)
        ensures
            buffer@ == Seq::new(4000, |i: int| 0u8),
    {
        VgaBuffer { cells: [0u8; 4000] }
    }

    /// A display with the bytes given.
    pub fn from_bytes(cells: [u8; 4000]) -> (buffer: Self)
        ensures
            buffer@ == cells@,
    {
        VgaBuffer { cells }
    }

    /// The bytes of the display.
    pub fn as_bytes(&self) -> (cells: &[u8; 4000])
        ensures
            cells@ == self@,
    {
        &self.cells
    }

    /// The display always has 4000 bytes.
    pub proof fn lemma_len(&self)
        ensures
            self@.len() == 4000,
    {
    }
}

/// Writes one record to the display. A record that is not valid is dropped
/// and the display stays as it is.
pub fn write_char_at(buffer: &mut VgaBuffer, syschar: SysPrintableChar)
    ensures
        final(buffer)@ == put(old(buffer)@, syschar),
        !syschar.valid() ==> final(buffer)@ == old(buffer)@,
        final(buffer)@.len() == 4000,
{
    if !syschar.is_valid() {
        return ;
    }
    let index = (syschar.y as usize * VGA_WIDTH + syschar.x as usize) * 2;
    if index + 1 < VGA_BUFFER_SIZE {
        buffer.cells[index] = syschar.character;
        buffer.cells[index + 1] = syschar.color;
    }
}

/// Writes `records` to the display, the first of them first.
pub fn write_records(buffer: &mut VgaBuffer, records: &[SysPrintableChar])
    ensures
        final(buffer)@ == drawn(old(buffer)@, records@),
{
    let mut i: usize = 0;
    proof {
        assert(records@.subrange(0, 0) =~= Seq::<SysPrintableChar>::empty());
    }
    while i < records.len()
        invariant
            i <= records.len(),
            buffer@ == drawn(old(buffer)@, records@.subrange(0, i as int)),
        decreases records.len() - i,
    {
        proof {
            let next = records@.subrange(0, i + 1);
            assert(next.drop_last() =~= records@.subrange(0, i as int));
            assert(next.last() == records@[i as int]);
        }
        write_char_at(buffer, records[i]);
        i += 1;
    }
    proof {
        assert(records@.subrange(0, i as int) =~= records@);
    }
}

/// Writes the records that `vec` holds to the display, in the order in which
/// it holds them.
pub fn write_buffer(buffer: &mut VgaBuffer, vec: heapless::Vec<SysPrintableChar, MAX_CHARS>)
    ensures
        final(buffer)@ == drawn(old(buffer)@, records_of(vec)),
{
    write_records(buffer, records_slice(&vec));
}

/// Fills the display with spaces on the background `background_color`,
/// with black as their foreground. Of a `background_color` above 15 only the
/// low four bits count, as in `make_color`.
pub fn clear_screen(buffer: &mut VgaBuffer, background_color: u8)
    ensures
        final(buffer)@ == blank(packed(BLACK, background_color)),
{
    let color = make_color(BLACK, background_color);
    let mut y: usize = 0;
    while y < VGA_HEIGHT
        invariant
            y <= 25,
            buffer@.len() == 4000,
            forall|i: int| 0 <= i < cell_offset(0, y as int) ==> buffer@[i] == blank(color)[i],
        decreases VGA_HEIGHT - y,
    {
        let mut x: usize = 0;
        while x < VGA_WIDTH
            invariant
                y < 25,
                x <= 80,
                buffer@.len() == 4000,
                forall|i: int|
                    0 <= i < cell_offset(x as int, y as int) ==> buffer@[i] == blank(color)[i],
            decreases VGA_WIDTH - x,
        {
            let char_at_pos = SysPrintableChar::new(SPACE, color, x as u8, y as u8);
            write_char_at(buffer, char_at_pos);
            x += 1;
        }
        y += 1;
    }
    proof {
        assert(buffer@ =~= blank(color));
    }
}

/// Writes `text` to the display in `color` from column `x` of row `y`, tabs
/// expanded, as far as its first 2000 records reach.
pub fn write_string_at(buffer: &mut VgaBuffer, text: &[u8], color: u8, x: u8, y: u8)
    ensures
        final(buffer)@ == written(old(buffer)@, text@, color, x, y),
{
    let chars = SysPrintableChar::new_string(text, color, x, y);
    write_buffer(buffer, chars);
}

/// What a cursor is at one moment: the cell that the next glyph goes to and
/// the colour byte it is written in.
pub struct CursorState {
    pub x: u8,
    pub y: u8,
    pub color: u8,
}

/// A cursor together with the bytes of the display it writes to.
pub struct Console {
    pub cursor: CursorState,
    pub cells: Seq<u8>,
}

/// The row below row `y`, or the last row where there is none below.
pub open spec fn row_below(y: int) -> int {
    if y + 1 >= 25 {
        24
    } else {
        y + 1
    }
}

impl CursorState {
    /// Whether the cursor stands on a cell of the display.
    pub open spec fn in_bounds(self) -> bool {
        self.x < 80 && self.y < 25
    }

    /// The cursor at the start of the next row; on the last row it goes to
    /// the start of that same row.
    pub open spec fn new_line(self) -> CursorState {
        CursorState { x: 0, y: row_below(self.y as int) as u8, color: self.color }
    }

    /// The cursor at the start of its row.
    pub open spec fn carriage_return(self) -> CursorState {
        CursorState { x: 0, y: self.y, color: self.color }
    }

    /// The cursor one column to the right, or at the start of the next row
    /// where that column would be off the display.
    pub open spec fn advance(self) -> CursorState {
        if self.x + 1 >= 80 {
            self.new_line()
        } else {
            CursorState { x: (self.x + 1) as u8, y: self.y, color: self.color }
        }
    }

    /// The record that shows `character` at the cursor.
    pub open spec fn record(self, character: u8) -> SysPrintableChar {
        SysPrintableChar { character, color: self.color, x: self.x, y: self.y }
    }
}

impl Console {
    /// Cursor and display after the glyph `character` has been written at
    /// the cursor: where the cursor is off the display, both stay as they
    /// are.
    pub open spec fn with_glyph(self, character: u8) -> Console {
        if self.cursor.in_bounds() {
            Console {
                cursor: self.cursor.advance(),
                cells: put(self.cells, self.cursor.record(character)),
            }
        } else {
            self
        }
    }

    /// Cursor and display after one byte of a text: a newline and a carriage
    /// return move the cursor and write nothing, any other byte is written
    /// as a glyph.
    pub open spec fn with_byte(self, byte: u8) -> Console {
        if byte == NEWLINE {
            Console { cursor: self.cursor.new_line(), cells: self.cells }
        } else if byte == CARRIAGE_RETURN {
            Console { cursor: self.cursor.carriage_return(), cells: self.cells }
        } else {
            self.with_glyph(byte)
        }
    }

    /// Cursor and display after each byte of `text` in turn.
    pub open spec fn with_text(self, text: Seq<u8>) -> Console
        decreases text.len(),
    {
        if text.len() == 0 {
            self
        } else {
            self.with_text(text.drop_last()).with_byte(text.last())
        }
    }
}

/// A cursor that writes to the display and keeps track of where the next
/// glyph goes.
pub struct TextCursor {
    x: u8,
    y: u8,
    color: u8,
}

impl View for TextCursor {
    type V = CursorState;

    closed spec fn view(&self) -> CursorState {
        CursorState { x: self.x, y: self.y, color: self.color }
    }
}

impl TextCursor {
    /// A cursor at column `x` of row `y` that writes in `color`.
    pub fn new(x: u8, y: u8, color: u8) -> (cursor: Self)
        ensures
            cursor@ == (CursorState { x, y, color }),
    {
        Self { x, y, color }
    }

    /// Writes `character` at the cursor and moves the cursor on. A cursor
    /// that is off the display writes nothing and stays where it is.
    pub fn write_char(&mut self, buffer: &mut VgaBuffer, character: u8)
        ensures
            (Console { cursor: final(self)@, cells: final(buffer)@ }) == (Console {
                cursor: old(self)@,
                cells: old(buffer)@,
            }).with_glyph(character),
    {
        if self.is_valid_position() {
            let syschar = SysPrintableChar::new(character, self.color, self.x, self.y);
            write_char_at(buffer, syschar);
            self.advance();
        }
    }

    /// Writes `text` byte by byte. A newline moves the cursor to the start
    /// of the next row, a carriage return to the start of its row; neither is
    /// written as a glyph.
    pub fn write_string(&mut self, buffer: &mut VgaBuffer, text: &[u8])
        ensures
            (Console { cursor: final(self)@, cells: final(buffer)@ }) == (Console {
                cursor: old(self)@,
                cells: old(buffer)@,
            }).with_text(text@),
    {
        let ghost start = Console { cursor: self@, cells: buffer@ };
        let mut i: usize = 0;
        proof {
            assert(text@.subrange(0, 0) =~= Seq::<u8>::empty());
        }
        while i < text.len()
            invariant
                i <= text.len(),
                (Console { cursor: self@, cells: buffer@ }) == start.with_text(text@.subrange(0, i as int)),
            decreases text.len() - i,
        {
            proof {
                let next = text@.subrange(0, i + 1);
                assert(next.drop_last() =~= text@.subrange(0, i as int));
                assert(next.last() == text@[i as int]);
            }
            let byte = text[i];
            if byte == NEWLINE {
                self.new_line();
            } else if byte == CARRIAGE_RETURN {
                self.carriage_return();
            } else {
                self.write_char(buffer, byte);
            }
            i += 1;
        }
        proof {
            assert(text@.subrange(0, i as int) =~= text@);
        }
    }

    /// Moves the cursor one column to the right, and to the start of the
    /// next row where that column would be off the display.
    pub fn advance(&mut self)
        ensures
            final(self)@ == old(self)@.advance(),
    {
        if self.x >= VGA_WIDTH as u8 - 1 {
            self.new_line();
        } else {
            self.x += 1;
        }
    }

    /// Moves the cursor to the start of the next row. On the last row, and
    /// below it, the cursor goes to the start of the last row.
    pub fn new_line(&mut self)
        ensures
            final(self)@ == old(self)@.new_line(),
            old(self)@.y >= 24 ==> final(self)@.y == 24,
            final(self)@.y < 25,
    {
        self.x = 0;
        if self.y >= VGA_HEIGHT as u8 - 1 {
            self.y = VGA_HEIGHT as u8 - 1;
        } else {
            self.y += 1;
        }
    }

    /// Moves the cursor to the start of its row.
    pub fn carriage_return(&mut self)
        ensures
            final(self)@ == old(self)@.carriage_return(),
    {
        self.x = 0;
    }

    /// Whether the cursor stands on a cell of the display.
    pub fn is_valid_position(&self) -> (valid: bool)
        ensures
            valid == self@.in_bounds(),
    {
        (self.x as usize) < VGA_WIDTH && (self.y as usize) < VGA_HEIGHT
    }

    /// The column and the row of the cursor.
    pub fn position(&self) -> (position: (u8, u8))
        ensures
            position == (self@.x, self@.y),
    {
        (self.x, self.y)
    }

    /// Sets the colour byte that the cursor writes in.
    pub fn set_color(&mut self, color: u8)
        ensures
            final(self)@ == (CursorState { x: old(self)@.x, y: old(self)@.y, color }),
    {
        self.color = color;
    }
}

/// A display cleared to a background shows, in each of its 2000 cells, a
/// space on that background with black as its foreground.
pub proof fn lemma_blank_cells(background_color: u8, k: int)
    requires
        background_color <= 15,
        0 <= k < 2000,
    ensures
        blank(packed(BLACK, background_color)).len() == 4000,
        blank(packed(BLACK, background_color))[2 * k] == SPACE,
        blank(packed(BLACK, background_color))[2 * k + 1] == 16 * background_color,
        background_of(blank(packed(BLACK, background_color))[2 * k + 1]) == background_color,
        foreground_of(blank(packed(BLACK, background_color))[2 * k + 1]) == BLACK,
{
}

/// Records that are not valid leave the display as it is.
pub proof fn lemma_drawn_invalid(cells: Seq<u8>, records: Seq<SysPrintableChar>)
    requires
        forall|i: int| 0 <= i < records.len() ==> !(#[trigger] records[i]).valid(),
    ensures
        drawn(cells, records) == cells,
    decreases records.len(),
{
    if records.len() != 0 {
        lemma_drawn_invalid(cells, records.drop_last());
    }
}

/// Writing records leaves the display at its size.
pub proof fn lemma_drawn_len(cells: Seq<u8>, records: Seq<SysPrintableChar>)
    requires
        cells.len() == 4000,
    ensures
        drawn(cells, records).len() == 4000,
    decreases records.len(),
{
    if records.len() != 0 {
        lemma_drawn_len(cells, records.drop_last());
    }
}

/// A newline on the last row leaves the cursor on the last row, at its
/// start, and writes nothing.
pub proof fn lemma_row_clamp(typed: Console)
    requires
        typed.cursor.y == 24,
    ensures
        typed.with_byte(NEWLINE).cursor == (CursorState { x: 0, y: 24, color: typed.cursor.color }),
        typed.with_byte(NEWLINE).cells == typed.cells,
        typed.with_text(seq![NEWLINE]) == typed.with_byte(NEWLINE),
{
    assert(seq![NEWLINE].drop_last() =~= Seq::<u8>::empty());
    assert(typed.with_text(Seq::<u8>::empty()) == typed);
}

/// A cursor on the display stays on the display whatever it writes, keeps
/// its colour, and never moves to a row above.
pub proof fn lemma_cursor_stays_on_display(typed: Console, text: Seq<u8>)
    requires
        typed.cursor.in_bounds(),
    ensures
        typed.with_text(text).cursor.in_bounds(),
        typed.with_text(text).cursor.color == typed.cursor.color,
        typed.with_text(text).cursor.y >= typed.cursor.y,
    decreases text.len(),
{
    if text.len() != 0 {
        lemma_cursor_stays_on_display(typed, text.drop_last());
    }
}

} // verus!
