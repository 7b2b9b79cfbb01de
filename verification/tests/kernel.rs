use kernel_io::io::stdout::VgaBuffer;
use kernel_io::kernel::{handle_character_input, write_fault_report, CursorPosition};

fn cell(buffer: &VgaBuffer, x: usize, y: usize) -> (u8, u8) {
    let index = (y * 80 + x) * 2;
    (buffer.as_bytes()[index], buffer.as_bytes()[index + 1])
}

fn row_text(buffer: &VgaBuffer, y: usize, from: usize, len: usize) -> Vec<u8> {
    (from..from + len).map(|x| cell(buffer, x, y).0).collect()
}

fn untouched(buffer: &VgaBuffer) -> bool {
    buffer.as_bytes().iter().all(|b| *b == 0)
}

#[test]
fn key_is_echoed_in_light_gray() {
    let mut buffer = VgaBuffer::new();
    let mut cursor = CursorPosition::new(1, 1);
    handle_character_input('a', &mut cursor, &mut buffer);
    assert_eq!(cell(&buffer, 1, 1), (b'a', 0x07));
    assert_eq!((cursor.x, cursor.y), (2, 1));
}

#[test]
fn enter_moves_to_the_next_row() {
    let mut buffer = VgaBuffer::new();
    let mut cursor = CursorPosition::new(10, 1);
    handle_character_input('\n', &mut cursor, &mut buffer);
    assert_eq!((cursor.x, cursor.y), (0, 2));
    assert!(untouched(&buffer));
}

#[test]
fn enter_on_the_last_row_stays_there() {
    let mut buffer = VgaBuffer::new();
    let mut cursor = CursorPosition::new(10, 24);
    handle_character_input('\n', &mut cursor, &mut buffer);
    assert_eq!((cursor.x, cursor.y), (0, 24));
    handle_character_input('\n', &mut cursor, &mut buffer);
    assert_eq!((cursor.x, cursor.y), (0, 24));
}

#[test]
fn echo_wraps_at_the_right_edge() {
    let mut buffer = VgaBuffer::new();
    let mut cursor = CursorPosition::new(79, 4);
    handle_character_input('x', &mut cursor, &mut buffer);
    assert_eq!(cell(&buffer, 79, 4), (b'x', 0x07));
    assert_eq!((cursor.x, cursor.y), (0, 5));
}

#[test]
fn echo_at_the_last_cell_goes_back_to_the_start_of_the_last_row() {
    let mut buffer = VgaBuffer::new();
    let mut cursor = CursorPosition::new(79, 24);
    handle_character_input('x', &mut cursor, &mut buffer);
    assert_eq!(cell(&buffer, 79, 24), (b'x', 0x07));
    assert_eq!((cursor.x, cursor.y), (0, 24));
}

#[test]
fn control_and_foreign_characters_are_dropped() {
    let mut buffer = VgaBuffer::new();
    let mut cursor = CursorPosition::new(3, 3);
    for character in ['\r', '\t', '\u{0}', '\u{1b}', '\u{7f}', '\u{80}', '\u{e9}', '\u{20ac}'] {
        handle_character_input(character, &mut cursor, &mut buffer);
        assert_eq!((cursor.x, cursor.y), (3, 3));
    }
    assert!(untouched(&buffer));
}

#[test]
fn space_and_tilde_are_echoed() {
    let mut buffer = VgaBuffer::new();
    let mut cursor = CursorPosition::new(0, 0);
    handle_character_input(' ', &mut cursor, &mut buffer);
    handle_character_input('~', &mut cursor, &mut buffer);
    assert_eq!(cell(&buffer, 0, 0), (b' ', 0x07));
    assert_eq!(cell(&buffer, 1, 0), (b'~', 0x07));
    assert_eq!((cursor.x, cursor.y), (2, 0));
}

#[test]
fn cursor_off_the_display_echoes_nothing() {
    let mut buffer = VgaBuffer::new();
    let mut cursor = CursorPosition::new(80, 3);
    handle_character_input('a', &mut cursor, &mut buffer);
    assert_eq!((cursor.x, cursor.y), (80, 3));
    let mut cursor = CursorPosition::new(3, 25);
    handle_character_input('a', &mut cursor, &mut buffer);
    assert_eq!((cursor.x, cursor.y), (3, 25));
    assert!(untouched(&buffer));
    handle_character_input('\n', &mut cursor, &mut buffer);
    assert_eq!((cursor.x, cursor.y), (0, 24));
}

#[test]
fn main_loop_cursor_moves() {
    let mut cursor = CursorPosition::new(5, 6);
    assert!(cursor.is_within_bounds());
    cursor.advance_cursor();
    assert_eq!((cursor.x, cursor.y), (6, 6));
    cursor.move_to_next_line();
    assert_eq!((cursor.x, cursor.y), (0, 7));
    let mut cursor = CursorPosition::new(0, usize::MAX);
    assert!(!cursor.is_within_bounds());
    cursor.move_to_next_line();
    assert_eq!((cursor.x, cursor.y), (0, 24));
    let mut cursor = CursorPosition::new(usize::MAX, 2);
    cursor.advance_cursor();
    assert_eq!((cursor.x, cursor.y), (0, 3));
    assert!(!CursorPosition::new(80, 0).is_within_bounds());
    assert!(!CursorPosition::new(0, 25).is_within_bounds());
    assert!(CursorPosition::new(79, 24).is_within_bounds());
}

#[test]
fn fault_report_with_message_and_place() {
    let mut buffer = VgaBuffer::new();
    write_fault_report(&mut buffer, Some(b"index out of range"), Some(b"at src/main.rs:42"));
    assert_eq!(row_text(&buffer, 0, 1, 14), b"[KERNEL PANIC]");
    assert_eq!(row_text(&buffer, 1, 1, 18), b"index out of range");
    assert_eq!(row_text(&buffer, 2, 1, 17), b"at src/main.rs:42");
    for x in 1..15 {
        assert_eq!(cell(&buffer, x, 0).1, 0x04);
    }
    assert_eq!(cell(&buffer, 0, 0), (0, 0));
    assert_eq!(cell(&buffer, 15, 0), (0, 0));
    assert_eq!(cell(&buffer, 1, 3), (0, 0));
}

#[test]
fn fault_report_without_message() {
    let mut buffer = VgaBuffer::new();
    write_fault_report(&mut buffer, None, None);
    assert_eq!(row_text(&buffer, 0, 1, 14), b"[KERNEL PANIC]");
    assert_eq!(row_text(&buffer, 1, 1, 22), b"Unknown panic occurred");
    assert_eq!(cell(&buffer, 1, 1).1, 0x04);
    assert_eq!(cell(&buffer, 1, 2), (0, 0));
}

#[test]
fn fault_report_wraps_a_long_message_to_its_start_column() {
    let message = vec![b'm'; 100];
    let mut buffer = VgaBuffer::new();
    write_fault_report(&mut buffer, Some(&message), Some(b"at x:1"));
    assert_eq!(cell(&buffer, 79, 1), (b'm', 0x04));
    // The message runs on in row 2 from column 1, and the place is written
    // over its beginning.
    assert_eq!(row_text(&buffer, 2, 1, 6), b"at x:1");
    assert_eq!(cell(&buffer, 7, 2), (b'm', 0x04));
    assert_eq!(cell(&buffer, 21, 2), (b'm', 0x04));
    assert_eq!(cell(&buffer, 22, 2), (0, 0));
}
