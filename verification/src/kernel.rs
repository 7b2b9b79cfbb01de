//! What the kernel itself does with the keyboard and the display: it echoes
//! each key to the display, and it reports a fatal fault there.

use crate::io::stdout::colors::{LIGHT_GRAY, RED};
use crate::io::stdout::structs::SysPrintableChar;
use crate::io::stdout::{
    put, row_below, write_char_at, write_string_at, written, VgaBuffer, VGA_WIDTH,
};
use vstd::prelude::*;
use vstd::string::*;

verus! {

/// How many turns the main loop idles between two polls of the keyboard.
pub const POLL_PAUSE_SPINS: u32 = 10000;

/// The cell that the next echoed key goes to.
#[derive(Debug, Clone, Copy)]
pub struct CursorPosition {
    pub x: usize,
    pub y: usize,
}

/// Whether `character` is echoed as a glyph: it is ASCII and no control
/// character.
pub open spec fn is_plain(character: char) -> bool {
    0x20 <= character as u32 <= 0x7E
}

impl CursorPosition {
    /// Whether the cursor stands on a cell of the display.
    pub open spec fn within_bounds(self) -> bool {
        self.x < 80 && self.y < 25
    }

    /// The cursor at the start of the next row; on the last row, and below
    /// it, at the start of the last row.
    pub open spec fn next_line(self) -> CursorPosition {
        CursorPosition { x: 0, y: row_below(self.y as int) as usize }
    }

    /// The cursor one column to the right, or at the start of the next row
    /// where that column would be off the display.
    pub open spec fn advanced(self) -> CursorPosition {
        if self.x + 1 >= 80 {
            self.next_line()
        } else {
            CursorPosition { x: (self.x + 1) as usize, y: self.y }
        }
    }

    /// The record that echoes `character` at the cursor.
    pub open spec fn record(self, character: char) -> SysPrintableChar {
        SysPrintableChar {
            character: character as u8,
            color: LIGHT_GRAY,
            x: self.x as u8,
            y: self.y as u8,
        }
    }

    /// The cursor after `character` came from the keyboard: a newline moves
    /// it to the next row, a plain character that was echoed moves it on,
    /// and anything else leaves it where it is.
    pub open spec fn after_key(self, character: char) -> CursorPosition {
        if character == '\n' {
            self.next_line()
        } else if is_plain(character) && self.within_bounds() {
            self.advanced()
        } else {
            self
        }
    }

    /// The display after `character` came from the keyboard with the cursor
    /// here: a plain character is echoed in light gray where the cursor
    /// stands on the display, and nothing else is written.
    pub open spec fn echoed(self, cells: Seq<u8>, character: char) -> Seq<u8> {
        if character != '\n' && is_plain(character) && self.within_bounds() {
            put(cells, self.record(character))
        } else {
            cells
        }
    }

    pub fn new(x: usize, y: usize) -> (cursor: Self)
        ensures
            cursor == (CursorPosition { x, y }),
    {
        Self { x, y }
    }

    /// Moves the cursor to the start of the next row. On the last row, and
    /// below it, the cursor goes to the start of the last row.
    pub fn move_to_next_line(&mut self)
        ensures
            *final(self) == old(self).next_line(),
            old(self).y >= 24 ==> final(self).y == 24,
            final(self).y < 25,
    {
        self.x = 0;
        if self.y >= 24 {
            self.y = 24;
        } else {
            self.y += 1;
        }
    }

    /// Moves the cursor one column to the right, and to the start of the
    /// next row where that column would be off the display.
    pub fn advance_cursor(&mut self)
        ensures
            *final(self) == old(self).advanced(),
    {
        if self.x >= VGA_WIDTH - 1 {
            self.move_to_next_line();
        } else {
            self.x += 1;
        }
    }

    /// Whether the cursor stands on a cell of the display.
    pub fn is_within_bounds(&self) -> (within: bool)
        ensures
            within == self.within_bounds(),
    {
        self.x < VGA_WIDTH && self.y < 25
    }
}

/// Takes one character from the keyboard: a newline moves the cursor to the
/// next row; a plain character is echoed at the cursor, if that is on the
/// display, and the cursor moves on; anything else is dropped.
pub fn handle_character_input(character: char, cursor: &mut CursorPosition, buffer: &mut VgaBuffer)
    ensures
        *final(cursor) == old(cursor).after_key(character),
        final(buffer)@ == old(cursor).echoed(old(buffer)@, character),
{
    if character == '\n' {
        cursor.move_to_next_line();
    } else {
        let code = character as u32;
        if 0x20 <= code && code <= 0x7E {
            if cursor.is_within_bounds() {
                let display_char = SysPrintableChar::new(
                    code as u8,
                    LIGHT_GRAY,
                    cursor.x as u8,
                    cursor.y as u8,
                );
                write_char_at(buffer, display_char);
                cursor.advance_cursor();
            }
        }
    }
}

/// A newline on the last row leaves the cursor on the last row, at its
/// start.
pub proof fn lemma_key_row_clamp(cursor: CursorPosition)
    requires
        cursor.y == 24,
    ensures
        cursor.after_key('\n') == (CursorPosition { x: 0, y: 24 }),
{
}

/// A cursor on the display stays on the display whatever key comes, and
/// never moves to a row above.
pub proof fn lemma_key_stays_on_display(cursor: CursorPosition, character: char)
    requires
        cursor.within_bounds(),
    ensures
        cursor.after_key(character).within_bounds(),
        cursor.after_key(character).y >= cursor.y,
{
}

/// The heading of a fault report.
pub open spec fn fault_title() -> Seq<u8> {
    "[KERNEL PANIC]".spec_bytes()
}

/// What a fault report says where the fault came without a message.
pub open spec fn unknown_fault() -> Seq<u8> {
    "Unknown panic occurred".spec_bytes()
}

/// The display with a fault report on it: the heading on the first row,
/// the message, or a phrase in its place, on the second, and the place of
/// the fault, where it is known, on the third; all in red, from the second
/// column on.
pub open spec fn fault_reported(
    cells: Seq<u8>,
    message: Option<Seq<u8>>,
    location: Option<Seq<u8>>,
) -> Seq<u8> {
    let headed = written(cells, fault_title(), RED, 1, 0);
    let told = written(
        headed,
        match message {
            Some(message) => message,
            None => unknown_fault(),
        },
        RED,
        1,
        1,
    );
    match location {
        Some(location) => written(told, location, RED, 1, 2),
        None => told,
    }
}

/// Writes the report of a fatal fault to the display.
pub fn write_fault_report(buffer: &mut VgaBuffer, message: Option<&[u8]>, location: Option<&[u8]>)
    ensures
        final(buffer)@ == fault_reported(
            old(buffer)@,
            match message {
                Some(message) => Some(message@),
                None => None,
            },
            match location {
                Some(location) => Some(location@),
                None => None,
            },
        ),
{
    write_string_at(buffer, "[KERNEL PANIC]".as_bytes(), RED, 1, 0);
    match message {
        Some(message) => write_string_at(buffer, message, RED, 1, 1),
        None => write_string_at(buffer, "Unknown panic occurred".as_bytes(), RED, 1, 1),
    }
    match location {
        Some(location) => write_string_at(buffer, location, RED, 1, 2),
        None => {},
    }
}

} // verus!
