use kernel_io::io::stdin::keyboard::{
    init_keyboard, is_input_ready, is_output_ready, new_config, poll_keyboard, scancode_to_char,
    send_command, send_data, wait_for_input_ready, wait_for_output_ready, InitPhase, KeyboardInit,
    PortAction, DATA_PORT, MAX_SPINS, STATUS_CMD_PORT,
};

fn table() -> [Option<char>; 256] {
    let mut map = [None; 256];
    for (i, c) in "1234567890".chars().enumerate() {
        map[0x02 + i] = Some(c);
    }
    for (i, c) in "qwertyuiop".chars().enumerate() {
        map[0x10 + i] = Some(c);
    }
    for (i, c) in "asdfghjkl".chars().enumerate() {
        map[0x1E + i] = Some(c);
    }
    for (i, c) in "zxcvbnm".chars().enumerate() {
        map[0x2C + i] = Some(c);
    }
    map[0x39] = Some(' ');
    map[0x1C] = Some('\n');
    map
}

/// Carries initialisation out against a controller whose status port
/// always reads `status` and whose data port reads `config`.
fn run_init(status: u8, config: u8) -> (Vec<PortAction>, u64) {
    let mut state = init_keyboard();
    let mut accesses = Vec::new();
    let mut status_reads = 0u64;
    loop {
        let action = state.action();
        let reply = match action {
            PortAction::ReadStatus => {
                status_reads += 1;
                status
            }
            PortAction::ReadData => {
                accesses.push(action);
                config
            }
            PortAction::Write { .. } => {
                accesses.push(action);
                0
            }
            PortAction::Finished => break,
        };
        state = state.reply(reply);
    }
    (accesses, status_reads)
}

#[test]
fn ports() {
    assert_eq!(DATA_PORT, 0x60);
    assert_eq!(STATUS_CMD_PORT, 0x64);
    assert_eq!(MAX_SPINS, 1_000_000);
}

#[test]
fn status_bits() {
    for status in 0u8..=255 {
        assert_eq!(is_output_ready(status), status & 0x01 != 0);
        assert_eq!(is_input_ready(status), status & 0x02 == 0);
    }
    assert!(is_output_ready(0x01));
    assert!(!is_output_ready(0x02));
    assert!(is_input_ready(0x01));
    assert!(!is_input_ready(0x02));
}

#[test]
fn scancode_press_release_unmapped() {
    assert_eq!(poll_keyboard(Some(0x1E)), Some('a'));
    assert_eq!(poll_keyboard(Some(0x9E)), None);
    assert_eq!(poll_keyboard(Some(0x01)), None);
    assert_eq!(poll_keyboard(None), None);
}

#[test]
fn scancode_table_is_the_us_subset() {
    let expected = table();
    for code in 0u8..=255 {
        assert_eq!(scancode_to_char(code), expected[code as usize]);
    }
    assert_eq!(expected.iter().filter(|c| c.is_some()).count(), 38);
}

#[test]
fn scancode_rows_at_their_ends() {
    assert_eq!(scancode_to_char(0x02), Some('1'));
    assert_eq!(scancode_to_char(0x0B), Some('0'));
    assert_eq!(scancode_to_char(0x0C), None);
    assert_eq!(scancode_to_char(0x10), Some('q'));
    assert_eq!(scancode_to_char(0x19), Some('p'));
    assert_eq!(scancode_to_char(0x1A), None);
    assert_eq!(scancode_to_char(0x1E), Some('a'));
    assert_eq!(scancode_to_char(0x26), Some('l'));
    assert_eq!(scancode_to_char(0x27), None);
    assert_eq!(scancode_to_char(0x2C), Some('z'));
    assert_eq!(scancode_to_char(0x32), Some('m'));
    assert_eq!(scancode_to_char(0x33), None);
    assert_eq!(scancode_to_char(0x39), Some(' '));
    assert_eq!(scancode_to_char(0x1C), Some('\n'));
}

#[test]
fn poll_drops_every_release() {
    let expected = table();
    for code in 0u8..=255 {
        let polled = poll_keyboard(Some(code));
        if code >= 0x80 {
            assert_eq!(polled, None);
        } else {
            assert_eq!(polled, expected[code as usize]);
        }
    }
}

#[test]
fn wait_goes_on_while_not_ready() {
    assert_eq!(wait_for_input_ready(0x02, 0), Some(1));
    assert_eq!(wait_for_input_ready(0x02, 41), Some(42));
    assert_eq!(wait_for_input_ready(0x03, 999_999), Some(1_000_000));
    assert_eq!(wait_for_output_ready(0x00, 0), Some(1));
    assert_eq!(wait_for_output_ready(0x02, 999_999), Some(1_000_000));
}

#[test]
fn wait_ends_when_ready() {
    assert_eq!(wait_for_input_ready(0x00, 0), None);
    assert_eq!(wait_for_input_ready(0x01, 5), None);
    assert_eq!(wait_for_output_ready(0x01, 0), None);
    assert_eq!(wait_for_output_ready(0x03, 5), None);
}

#[test]
fn wait_gives_up_at_the_limit() {
    assert_eq!(wait_for_input_ready(0x02, 1_000_000), None);
    assert_eq!(wait_for_input_ready(0x02, u32::MAX), None);
    assert_eq!(wait_for_output_ready(0x00, 1_000_000), None);
    assert_eq!(wait_for_output_ready(0x00, u32::MAX), None);
}

#[test]
fn command_and_data_go_to_their_ports() {
    assert_eq!(send_command(0xAE), PortAction::Write { port: 0x64, value: 0xAE });
    assert_eq!(send_data(0x47), PortAction::Write { port: 0x60, value: 0x47 });
}

#[test]
fn new_config_sets_the_interrupt_and_clears_the_mouse_bit() {
    assert_eq!(new_config(0x00), 0x01);
    assert_eq!(new_config(0xFF), 0xDF);
    assert_eq!(new_config(0x20), 0x01);
    assert_eq!(new_config(0x45), 0x45);
    for config in 0u8..=255 {
        let updated = new_config(config);
        assert_eq!(updated & 0x01, 0x01);
        assert_eq!(updated & 0x20, 0x00);
        assert_eq!(updated & 0xDE, config & 0xDE);
    }
}

#[test]
fn init_begins_by_waiting_to_enable() {
    let state = init_keyboard();
    assert_eq!(state, KeyboardInit::Waiting { phase: InitPhase::EnableKeyboard, timeout: 0 });
    assert_eq!(state.action(), PortAction::ReadStatus);
}

#[test]
fn init_with_a_ready_controller() {
    let (accesses, status_reads) = run_init(0x01, 0x64);
    assert_eq!(
        accesses,
        vec![
            PortAction::Write { port: 0x64, value: 0xAE },
            PortAction::Write { port: 0x64, value: 0x20 },
            PortAction::ReadData,
            PortAction::Write { port: 0x64, value: 0x60 },
            PortAction::Write { port: 0x60, value: 0x45 },
        ]
    );
    assert_eq!(status_reads, 5);
}

#[test]
fn init_with_a_dead_controller_gives_up_each_wait() {
    // Input buffer full and output buffer empty for ever: each of the five
    // waits looks at the status 1,000,001 times and then goes ahead.
    let (accesses, status_reads) = run_init(0x02, 0x00);
    assert_eq!(
        accesses,
        vec![
            PortAction::Write { port: 0x64, value: 0xAE },
            PortAction::Write { port: 0x64, value: 0x20 },
            PortAction::ReadData,
            PortAction::Write { port: 0x64, value: 0x60 },
            PortAction::Write { port: 0x60, value: 0x01 },
        ]
    );
    assert_eq!(status_reads, 5 * 1_000_001);
}

#[test]
fn init_read_waits_for_output_and_writes_wait_for_input() {
    // Status 0x00: room for input, nothing to read. Only the read waits.
    let (_, status_reads) = run_init(0x00, 0x00);
    assert_eq!(status_reads, 4 + 1_000_001);
    // Status 0x03: a byte to read, no room for input. Only the writes wait.
    let (_, status_reads) = run_init(0x03, 0x00);
    assert_eq!(status_reads, 4 * 1_000_001 + 1);
}

#[test]
fn init_steps_one_by_one() {
    let state = init_keyboard();
    let state = state.reply(0x02);
    assert_eq!(state, KeyboardInit::Waiting { phase: InitPhase::EnableKeyboard, timeout: 1 });
    let state = state.reply(0x00);
    assert_eq!(state, KeyboardInit::Ready { phase: InitPhase::EnableKeyboard });
    assert_eq!(state.action(), PortAction::Write { port: 0x64, value: 0xAE });
    let state = state.reply(0);
    assert_eq!(state, KeyboardInit::Waiting { phase: InitPhase::RequestConfig, timeout: 0 });
    let state = state.reply(0x00).reply(0);
    assert_eq!(state, KeyboardInit::Waiting { phase: InitPhase::ReadConfig, timeout: 0 });
    let state = state.reply(0x01);
    assert_eq!(state.action(), PortAction::ReadData);
    let state = state.reply(0xFE);
    assert_eq!(
        state,
        KeyboardInit::Waiting { phase: InitPhase::AnnounceConfig { config: 0xDF }, timeout: 0 }
    );
    let state = state.reply(0x00).reply(0);
    assert_eq!(
        state,
        KeyboardInit::Waiting { phase: InitPhase::SendConfig { config: 0xDF }, timeout: 0 }
    );
    let state = state.reply(0x00);
    assert_eq!(state.action(), PortAction::Write { port: 0x60, value: 0xDF });
    let state = state.reply(0);
    assert_eq!(state, KeyboardInit::Done);
    assert_eq!(state.action(), PortAction::Finished);
    assert_eq!(state.reply(0x55), KeyboardInit::Done);
}

#[test]
fn scancode_is_read_only_when_the_controller_holds_one() {
    assert_eq!(kernel_io::io::stdin::keyboard::read_scancode(0x01), PortAction::ReadData);
    assert_eq!(kernel_io::io::stdin::keyboard::read_scancode(0x03), PortAction::ReadData);
    assert_eq!(kernel_io::io::stdin::keyboard::read_scancode(0x00), PortAction::Finished);
    assert_eq!(kernel_io::io::stdin::keyboard::read_scancode(0x02), PortAction::Finished);
}
