//! How a text becomes records: which cell each of its bytes is drawn in.
//!
//! A conversion walks through the text with a position, which starts where
//! the caller says. Newline and carriage return move the position, a tab
//! is drawn as four spaces, a printable byte is drawn at the position, and
//! a glyph that would fall to the right of the display is drawn at the start
//! column of the next row instead. Below the last row nothing is drawn and
//! the conversion ends.

use crate::io::stdout::structs::{
    SysPrintableChar, TextPosition, CARRIAGE_RETURN, NEWLINE, SPACE, TAB,
};
use vstd::prelude::*;

verus! {

/// Whether `byte` is drawn as a glyph: a graphic ASCII character or the
/// space.
pub open spec fn is_printable(byte: u8) -> bool {
    0x20 <= byte <= 0x7E
}

/// The column `n` steps to the right of `x`. A column is a byte and is
/// counted modulo 256.
pub open spec fn column_after(x: u8, n: int) -> u8 {
    ((x + n) % 256) as u8
}

/// The records that one byte of the text adds, met at `at` in a text that
/// began in column `start_x`.
///
/// A tab adds four spaces from `at` rightwards. A
/// printable byte adds itself: at `at` if that column is on the display, else
/// in column `start_x` of the next row, or not at all where there is no next
/// row. No other byte adds anything.
pub open spec fn emitted(
    byte: u8,
    color: u8,
    start_x: u8,
    at: TextPosition,
) -> Seq<SysPrintableChar> {
    if byte == TAB {
        Seq::new(
            4,
            |j: int|
                SysPrintableChar { character: SPACE, color, x: column_after(at.x, j), y: at.y },
        )
    } else if is_printable(byte) {
        if at.x < 80 {
            seq![SysPrintableChar { character: byte, color, x: at.x, y: at.y }]
        } else if at.y + 1 < 25 {
            seq![SysPrintableChar { character: byte, color, x: start_x, y: (at.y + 1) as u8 }]
        } else {
            Seq::empty()
        }
    } else {
        Seq::empty()
    }
}

/// Where a conversion stands after one byte of the text, met at `at` in a
/// text that began in column `start_x`.
///
/// A newline leads to column `start_x` of the next row, a carriage return to
/// column `start_x` of the same row. A tab leads four columns to the right. A printable byte leads to the column after the
/// one it was placed in. Any other byte leaves the position alone.
pub open spec fn moved(byte: u8, start_x: u8, at: TextPosition) -> TextPosition {
    if byte == NEWLINE {
        TextPosition { x: start_x, y: (at.y + 1) as u8 }
    } else if byte == CARRIAGE_RETURN {
        TextPosition { x: start_x, y: at.y }
    } else if byte == TAB {
        TextPosition { x: column_after(at.x, 4), y: at.y }
    } else if is_printable(byte) {
        if at.x < 80 {
            TextPosition { x: column_after(at.x, 1), y: at.y }
        } else if at.y + 1 < 25 {
            TextPosition { x: column_after(start_x, 1), y: (at.y + 1) as u8 }
        } else {
            TextPosition { x: start_x, y: (at.y + 1) as u8 }
        }
    } else {
        at
    }
}

/// The records of `text` from position `at` on, in a text that began in
/// column `start_x`. The conversion ends with the text, or as soon as the
/// position has left the last row.
pub open spec fn layout_from(
    text: Seq<u8>,
    color: u8,
    start_x: u8,
    at: TextPosition,
) -> Seq<SysPrintableChar>
    decreases text.len(),
{
    if text.len() == 0 || at.y >= 25 {
        Seq::empty()
    } else {
        emitted(text[0], color, start_x, at) + layout_from(
            text.drop_first(),
            color,
            start_x,
            moved(text[0], start_x, at),
        )
    }
}

/// The records of `text` written in `color` from column `start_x` of row
/// `start_y`, however many they are.
pub open spec fn layout(
    text: Seq<u8>,
    color: u8,
    start_x: u8,
    start_y: u8,
) -> Seq<SysPrintableChar> {
    layout_from(text, color, start_x, TextPosition { x: start_x, y: start_y })
}

/// The first `limit` of `records`, or all of them where they are fewer.
pub open spec fn truncated(records: Seq<SysPrintableChar>, limit: int) -> Seq<SysPrintableChar> {
    if records.len() <= limit {
        records
    } else {
        records.subrange(0, limit)
    }
}

/// Unfolds `layout_from` at byte `i` of `text`.
pub proof fn lemma_layout_step(
    text: Seq<u8>,
    i: int,
    color: u8,
    start_x: u8,
    at: TextPosition,
)
    requires
        0 <= i < text.len(),
        at.y < 25,
    ensures
        layout_from(text.skip(i), color, start_x, at) == emitted(
            text[i],
            color,
            start_x,
            at,
        ) + layout_from(
            text.skip(i + 1),
            color,
            start_x,
            moved(text[i], start_x, at),
        ),
{
    assert(text.skip(i).drop_first() =~= text.skip(i + 1));
}

/// No conversion yields more records than four for each byte of its text.
pub proof fn lemma_layout_len(
    text: Seq<u8>,
    color: u8,
    start_x: u8,
    at: TextPosition,
)
    ensures
        layout_from(text, color, start_x, at).len() <= 4 * text.len(),
    decreases text.len(),
{
    if text.len() != 0 && at.y < 25 {
        lemma_layout_len(
            text.drop_first(),
            color,
            start_x,
            moved(text[0], start_x, at),
        );
    }
}

/// Every record of a conversion has the colour that was asked for, and lies
/// on a row of the display that is not above the one the conversion began
/// on.
pub proof fn lemma_layout_records(
    text: Seq<u8>,
    color: u8,
    start_x: u8,
    at: TextPosition,
    i: int,
)
    requires
        0 <= i < layout_from(text, color, start_x, at).len(),
    ensures
        layout_from(text, color, start_x, at)[i].color == color,
        at.y <= layout_from(text, color, start_x, at)[i].y < 25,
        is_printable(layout_from(text, color, start_x, at)[i].character),
    decreases text.len(),
{
    let first = emitted(text[0], color, start_x, at);
    if i >= first.len() {
        lemma_layout_records(
            text.drop_first(),
            color,
            start_x,
            moved(text[0], start_x, at),
            i - first.len(),
        );
    }
}

/// A conversion that stays under a limit loses nothing to it: where fewer
/// records than `limit` are kept, they are all the records there are.
pub proof fn lemma_under_limit(records: Seq<SysPrintableChar>, limit: int)
    requires
        truncated(records, limit).len() < limit,
    ensures
        truncated(records, limit) == records,
{
}

/// The conversion that keeps 2000 records and the one that keeps all agree
/// wherever the first keeps fewer than 2000.
pub proof fn lemma_modes_agree(text: Seq<u8>, color: u8, start_x: u8, start_y: u8)
    requires
        truncated(layout(text, color, start_x, start_y), 2000).len() < 2000,
    ensures
        truncated(layout(text, color, start_x, start_y), 2000) == layout(
            text,
            color,
            start_x,
            start_y,
        ),
{
}

/// What is kept under a limit is the beginning of what there is, and never
/// more than the limit allows.
pub proof fn lemma_truncated_prefix(records: Seq<SysPrintableChar>, limit: int)
    requires
        0 <= limit,
    ensures
        truncated(records, limit).is_prefix_of(records),
        truncated(records, limit).len() <= limit,
        truncated(records, limit).len() == if records.len() <= limit {
            records.len() as int
        } else {
            limit
        },
{
}

/// A tab alone is four spaces, side by side from where the text begins.
pub proof fn lemma_tab(color: u8, start_x: u8, start_y: u8)
    requires
        start_y < 25,
    ensures
        layout(seq![TAB], color, start_x, start_y) == Seq::new(
            4,
            |j: int|
                SysPrintableChar {
                    character: SPACE,
                    color,
                    x: column_after(start_x, j),
                    y: start_y,
                },
        ),
{
    let text = seq![TAB];
    let at = TextPosition { x: start_x, y: start_y };
    assert(layout_from(text.drop_first(), color, start_x, moved(TAB, start_x, at)).len() == 0);
    assert(layout_from(text, color, start_x, at) =~= emitted(TAB, color, start_x, at));
}

/// Printable bytes that fit on the row are drawn side by side: if the first
/// `n` bytes of `text` are printable and `n` columns are left from `at` to
/// the right edge, their records are the bytes themselves in the `n` cells
/// from `at` on, and the conversion goes on behind them.
pub proof fn lemma_row_of_glyphs(
    text: Seq<u8>,
    color: u8,
    start_x: u8,
    at: TextPosition,
    n: int,
)
    requires
        0 <= n <= text.len(),
        forall|i: int| 0 <= i < n ==> is_printable(#[trigger] text[i]),
        at.x + n <= 80,
        at.y < 25,
    ensures
        layout_from(text, color, start_x, at) == Seq::new(
            n as nat,
            |i: int|
                SysPrintableChar { character: text[i], color, x: (at.x + i) as u8, y: at.y },
        ) + layout_from(
            text.skip(n),
            color,
            start_x,
            TextPosition { x: (at.x + n) as u8, y: at.y },
        ),
    decreases n,
{
    let row = Seq::new(
        n as nat,
        |i: int| SysPrintableChar { character: text[i], color, x: (at.x + i) as u8, y: at.y },
    );
    if n == 0 {
        assert(text.skip(0) =~= text);
        assert(row + layout_from(text, color, start_x, at) =~= layout_from(
            text,
            color,
            start_x,
            at,
        ));
    } else {
        let rest = text.drop_first();
        let next = TextPosition { x: (at.x + 1) as u8, y: at.y };
        assert(is_printable(text[0]));
        assert(moved(text[0], start_x, at) == next);
        assert forall|i: int| 0 <= i < n - 1 implies is_printable(#[trigger] rest[i]) by {
            assert(rest[i] == text[i + 1]);
        }
        lemma_row_of_glyphs(rest, color, start_x, next, n - 1);
        let rest_row = Seq::new(
            (n - 1) as nat,
            |i: int|
                SysPrintableChar { character: rest[i], color, x: (next.x + i) as u8, y: next.y },
        );
        assert(rest.skip(n - 1) =~= text.skip(n));
        assert(emitted(text[0], color, start_x, at) + rest_row =~= row);
        assert(layout_from(text, color, start_x, at) =~= row + layout_from(
            text.skip(n),
            color,
            start_x,
            TextPosition { x: (at.x + n) as u8, y: at.y },
        ));
    }
}

/// A glyph that no longer fits on its row is drawn at the start column of
/// the next row. If `text` is made of printable bytes, one more than fit
/// between column `start_x` and the right edge, then all but the last are
/// drawn side by side on row `start_y`, and the last in column `start_x` of
/// the row below.
pub proof fn lemma_wrap(text: Seq<u8>, color: u8, start_x: u8, start_y: u8)
    requires
        start_x < 80,
        start_y < 24,
        text.len() == 80 - start_x + 1,
        forall|i: int| 0 <= i < text.len() ==> is_printable(#[trigger] text[i]),
    ensures
        layout(text, color, start_x, start_y).len() == text.len(),
        forall|i: int|
            0 <= i < text.len() - 1 ==> #[trigger] layout(
                text,
                color,
                start_x,
                start_y,
            )[i] == (SysPrintableChar {
                character: text[i],
                color,
                x: (start_x + i) as u8,
                y: start_y,
            }),
        layout(text, color, start_x, start_y)[text.len() - 1] == (SysPrintableChar {
            character: text[text.len() - 1],
            color,
            x: start_x,
            y: (start_y + 1) as u8,
        }),
{
    let n = 80 - start_x;
    let at = TextPosition { x: start_x, y: start_y };
    let edge = TextPosition { x: 80, y: start_y };
    lemma_row_of_glyphs(text, color, start_x, at, n);
    let last = text.skip(n);
    assert(last.len() == 1);
    assert(last[0] == text[n]);
    assert(is_printable(text[n]));
    assert(layout_from(
        last.drop_first(),
        color,
        start_x,
        moved(last[0], start_x, edge),
    ).len() == 0);
    assert(layout_from(last, color, start_x, edge) =~= seq![
        SysPrintableChar { character: text[n], color, x: start_x, y: (start_y + 1) as u8 },
    ]);
}

/// A text of 81 printable bytes that begins in the first column of a row
/// fills that row, and its last byte is drawn in the first column of the
/// next row.
pub proof fn lemma_wrap_after_full_row(text: Seq<u8>, color: u8, start_y: u8)
    requires
        start_y < 24,
        text.len() == 81,
        forall|i: int| 0 <= i < 81 ==> is_printable(#[trigger] text[i]),
    ensures
        layout(text, color, 0, start_y).len() == 81,
        layout(text, color, 0, start_y)[79] == (SysPrintableChar {
            character: text[79],
            color,
            x: 79,
            y: start_y,
        }),
        layout(text, color, 0, start_y)[80] == (SysPrintableChar {
            character: text[80],
            color,
            x: 0,
            y: (start_y + 1) as u8,
        }),
{
    lemma_wrap(text, color, 0, start_y);
}

} // verus!
