//! The PS/2 keyboard controller, driven by polling.
//!
//! The controller is reached through two ports. This file never touches
//! them: it decides what is to be read or written next, and is told what
//! each read gave. Whoever owns the ports carries the decisions out.

use vstd::prelude::*;

verus! {

/// The port that data is read from and written to.
pub const DATA_PORT: u16 = 0x60;

/// The port that the status is read from and commands are written to.
pub const STATUS_CMD_PORT: u16 = 0x64;

/// Status bit: the controller holds a byte for us to read.
pub const OUTPUT_BUFFER_FULL: u8 = 0x01;

/// Status bit: the controller has not yet taken the last byte we wrote.
pub const INPUT_BUFFER_FULL: u8 = 0x02;

pub const READ_CONFIG: u8 = 0x20;
pub const WRITE_CONFIG: u8 = 0x60;
pub const DISABLE_KEYBOARD: u8 = 0xAD;
pub const ENABLE_KEYBOARD: u8 = 0xAE;

/// Configuration bit: the keyboard raises an interrupt for each byte.
pub const CONFIG_KEYBOARD_INTERRUPT: u8 = 0x01;

/// Configuration bit: the mouse.
pub const CONFIG_MOUSE: u8 = 0x20;

/// How often a wait looks at the status again before it gives up.
pub const MAX_SPINS: u32 = 1000000;

/// Whether a status byte says that the controller holds a byte to read:
/// its lowest bit is set.
pub open spec fn output_ready(status: u8) -> bool {
    status % 2 == 1
}

/// Whether a status byte says that the controller can take a byte: its
/// second lowest bit is clear.
pub open spec fn input_ready(status: u8) -> bool {
    (status / 2) % 2 == 0
}

/// Whether `status` says that the controller holds a byte to read.
pub fn is_output_ready(status: u8) -> (ready: bool)
    ensures
        ready == output_ready(status),
{
    assert(((status & 0x01) != 0) == (status % 2 == 1)) by (bit_vector);
    (status & OUTPUT_BUFFER_FULL) != 0
}

/// Whether `status` says that the controller can take a command or data.
pub fn is_input_ready(status: u8) -> (ready: bool)
    ensures
        ready == input_ready(status),
{
    assert(((status & 0x02) == 0) == ((status / 2) % 2 == 0)) by (bit_vector);
    (status & INPUT_BUFFER_FULL) == 0
}

/// One turn of the wait for the controller to take a byte. `status` is the
/// status just read and `timeout` the number of turns already spent. The
/// wait goes on, with one turn more spent, while the controller is not ready
/// and fewer than `MAX_SPINS` turns were spent; else it is over, whether
/// the controller is ready or not.
pub fn wait_for_input_ready(status: u8, timeout: u32) -> (again: Option<u32>)
    ensures
        again == if !input_ready(status) && timeout < MAX_SPINS {
            Some((timeout + 1) as u32)
        } else {
            None
        },
{
    if !is_input_ready(status) && timeout < MAX_SPINS {
        Some(timeout + 1)
    } else {
        None
    }
}

/// One turn of the wait for the controller to hold a byte to read, with the
/// same limit and the same way of giving up as `wait_for_input_ready`.
pub fn wait_for_output_ready(status: u8, timeout: u32) -> (again: Option<u32>)
    ensures
        again == if !output_ready(status) && timeout < MAX_SPINS {
            Some((timeout + 1) as u32)
        } else {
            None
        },
{
    if !is_output_ready(status) && timeout < MAX_SPINS {
        Some(timeout + 1)
    } else {
        None
    }
}

/// What is to be done with the ports next.
#[derive(Debug, Clone, Copy, PartialEq, Eq, Structural)]
pub enum PortAction {
    /// Read the status port and hand the byte back.
    ReadStatus,
    /// Read the data port and hand the byte back.
    ReadData,
    /// Write `value` to `port`.
    Write { port: u16, value: u8 },
    /// Nothing is left to do.
    Finished,
}

/// What a poll for a scancode does once it has read `status`: it reads the
/// data port where the controller holds a byte, and is over where it holds
/// none.
pub fn read_scancode(status: u8) -> (action: PortAction)
    ensures
        action == if output_ready(status) {
            PortAction::ReadData
        } else {
            PortAction::Finished
        },
{
    if is_output_ready(status) {
        PortAction::ReadData
    } else {
        PortAction::Finished
    }
}

/// The write that sends `cmd` to the controller as a command.
pub fn send_command(cmd: u8) -> (action: PortAction)
    ensures
        action == (PortAction::Write { port: STATUS_CMD_PORT, value: cmd }),
{
    PortAction::Write { port: STATUS_CMD_PORT, value: cmd }
}

/// The write that sends `data` to the controller as data.
pub fn send_data(data: u8) -> (action: PortAction)
    ensures
        action == (PortAction::Write { port: DATA_PORT, value: data }),
{
    PortAction::Write { port: DATA_PORT, value: data }
}

/// The configuration that initialisation writes back, given the one it
/// read: the same with the keyboard interrupt bit set and the mouse bit
/// clear.
pub open spec fn configured(config: u8) -> u8 {
    (config | 0x01) & !0x20u8
}

/// The configuration to write back, given the one that was read.
pub fn new_config(config: u8) -> (updated: u8)
    ensures
        updated == configured(config),
        updated & CONFIG_KEYBOARD_INTERRUPT == CONFIG_KEYBOARD_INTERRUPT,
        updated & CONFIG_MOUSE == 0,
        updated & !0x21u8 == config & !0x21u8,
{
    let updated = (config | CONFIG_KEYBOARD_INTERRUPT) & !CONFIG_MOUSE;
    assert(updated & 0x01 == 0x01 && updated & 0x20 == 0 && updated & !0x21u8 == config & !0x21u8)
        by (bit_vector)
        requires
            updated == (config | 0x01) & !0x20u8,
    ;
    updated
}

/// The steps of initialisation. Each is one access to a port, made once the
/// controller is ready for it or the wait for that has been given up.
#[derive(Debug, Clone, Copy, PartialEq, Eq, Structural)]
pub enum InitPhase {
    /// The command that enables the keyboard.
    EnableKeyboard,
    /// The command that asks for the configuration byte.
    RequestConfig,
    /// The read of the configuration byte.
    ReadConfig,
    /// The command that announces a new configuration byte.
    AnnounceConfig { config: u8 },
    /// The new configuration byte, written as data.
    SendConfig { config: u8 },
}

impl InitPhase {
    /// A number of actions that the steps after this one never exceed.
    pub open spec fn steps_after(self) -> int {
        match self {
            InitPhase::EnableKeyboard => 4 * (MAX_SPINS + 2),
            InitPhase::RequestConfig => 3 * (MAX_SPINS + 2),
            InitPhase::ReadConfig => 2 * (MAX_SPINS + 2),
            InitPhase::AnnounceConfig { .. } => MAX_SPINS + 2,
            InitPhase::SendConfig { .. } => 0,
        }
    }

    /// The accesses of this step and of those after it, in order, where
    /// `read` is what the read of the configuration gives.
    pub open spec fn accesses_from(self, read: u8) -> Seq<PortAction> {
        let enable = PortAction::Write { port: STATUS_CMD_PORT, value: ENABLE_KEYBOARD };
        let request = PortAction::Write { port: STATUS_CMD_PORT, value: READ_CONFIG };
        let announce = PortAction::Write { port: STATUS_CMD_PORT, value: WRITE_CONFIG };
        match self {
            InitPhase::EnableKeyboard => seq![
                enable,
                request,
                PortAction::ReadData,
                announce,
                PortAction::Write { port: DATA_PORT, value: configured(read) },
            ],
            InitPhase::RequestConfig => seq![
                request,
                PortAction::ReadData,
                announce,
                PortAction::Write { port: DATA_PORT, value: configured(read) },
            ],
            InitPhase::ReadConfig => seq![
                PortAction::ReadData,
                announce,
                PortAction::Write { port: DATA_PORT, value: configured(read) },
            ],
            InitPhase::AnnounceConfig { config } => seq![
                announce,
                PortAction::Write { port: DATA_PORT, value: config },
            ],
            InitPhase::SendConfig { config } => seq![
                PortAction::Write { port: DATA_PORT, value: config },
            ],
        }
    }

    /// The access that the step makes.
    pub open spec fn access(self) -> PortAction {
        match self {
            InitPhase::EnableKeyboard => PortAction::Write {
                port: STATUS_CMD_PORT,
                value: ENABLE_KEYBOARD,
            },
            InitPhase::RequestConfig => PortAction::Write {
                port: STATUS_CMD_PORT,
                value: READ_CONFIG,
            },
            InitPhase::ReadConfig => PortAction::ReadData,
            InitPhase::AnnounceConfig { .. } => PortAction::Write {
                port: STATUS_CMD_PORT,
                value: WRITE_CONFIG,
            },
            InitPhase::SendConfig { config } => PortAction::Write { port: DATA_PORT, value: config },
        }
    }

    /// Whether a status byte lets the step go ahead: a read needs a byte to
    /// read, a write needs room for a byte.
    pub open spec fn may_go(self, status: u8) -> bool {
        if self is ReadConfig {
            output_ready(status)
        } else {
            input_ready(status)
        }
    }

    /// The step after this one, if there is one. `reply` is what the access
    /// of this step gave; only the read looks at it.
    pub open spec fn following(self, reply: u8) -> Option<InitPhase> {
        match self {
            InitPhase::EnableKeyboard => Some(InitPhase::RequestConfig),
            InitPhase::RequestConfig => Some(InitPhase::ReadConfig),
            InitPhase::ReadConfig => Some(InitPhase::AnnounceConfig { config: configured(reply) }),
            InitPhase::AnnounceConfig { config } => Some(InitPhase::SendConfig { config }),
            InitPhase::SendConfig { .. } => None,
        }
    }
}

/// How far the initialisation of the keyboard has come.
#[derive(Debug, Clone, Copy, PartialEq, Eq, Structural)]
pub enum KeyboardInit {
    /// Waiting for the controller before the access of `phase`; the status
    /// was looked at `timeout` times in vain.
    Waiting { phase: InitPhase, timeout: u32 },
    /// The wait is over and the access of `phase` is next.
    Ready { phase: InitPhase },
    /// All five steps are made.
    Done,
}

impl KeyboardInit {
    /// What is to be done with the ports in this state.
    pub open spec fn pending(self) -> PortAction {
        match self {
            KeyboardInit::Waiting { .. } => PortAction::ReadStatus,
            KeyboardInit::Ready { phase } => phase.access(),
            KeyboardInit::Done => PortAction::Finished,
        }
    }

    /// The state after the pending action was carried out and gave `reply`
    /// (a write gives nothing, and then `reply` is not looked at).
    pub open spec fn after(self, reply: u8) -> KeyboardInit {
        match self {
            KeyboardInit::Waiting { phase, timeout } => if !phase.may_go(reply) && timeout
                < MAX_SPINS {
                KeyboardInit::Waiting { phase, timeout: (timeout + 1) as u32 }
            } else {
                KeyboardInit::Ready { phase }
            },
            KeyboardInit::Ready { phase } => match phase.following(reply) {
                Some(next) => KeyboardInit::Waiting { phase: next, timeout: 0 },
                None => KeyboardInit::Done,
            },
            KeyboardInit::Done => KeyboardInit::Done,
        }
    }

    /// The state after each of `replies` in turn.
    pub open spec fn after_all(self, replies: Seq<u8>) -> KeyboardInit
        decreases replies.len(),
    {
        if replies.len() == 0 {
            self
        } else {
            self.after(replies[0]).after_all(replies.drop_first())
        }
    }

    /// The accesses to the ports, reads of the status left aside, that are
    /// made while `replies` come in, in order.
    pub open spec fn accesses(self, replies: Seq<u8>) -> Seq<PortAction>
        decreases replies.len(),
    {
        if replies.len() == 0 {
            Seq::empty()
        } else if self is Ready {
            seq![self.pending()] + self.after(replies[0]).accesses(replies.drop_first())
        } else {
            self.after(replies[0]).accesses(replies.drop_first())
        }
    }

    /// What the read of the configuration gives while `replies` come in:
    /// the reply to that read. Where the read is not among the actions that
    /// `replies` answer, this is 0.
    pub open spec fn config_read(self, replies: Seq<u8>) -> u8
        decreases replies.len(),
    {
        if replies.len() == 0 {
            0
        } else if self == (KeyboardInit::Ready { phase: InitPhase::ReadConfig }) {
            replies[0]
        } else {
            self.after(replies[0]).config_read(replies.drop_first())
        }
    }

    /// The accesses that are still to be made in this state, where `read` is
    /// what the read of the configuration gives.
    pub open spec fn accesses_left(self, read: u8) -> Seq<PortAction> {
        match self {
            KeyboardInit::Waiting { phase, .. } => phase.accesses_from(read),
            KeyboardInit::Ready { phase } => phase.accesses_from(read),
            KeyboardInit::Done => Seq::empty(),
        }
    }

    /// A number of actions that is never exceeded before the state is
    /// `Done`, whatever the controller replies.
    pub open spec fn steps_left(self) -> nat {
        match self {
            KeyboardInit::Waiting { phase, timeout } => (phase.steps_after() + 1 + if timeout
                < MAX_SPINS {
                MAX_SPINS - timeout + 1
            } else {
                1
            }) as nat,
            KeyboardInit::Ready { phase } => (phase.steps_after() + 1) as nat,
            KeyboardInit::Done => 0,
        }
    }

    /// What is to be done with the ports next.
    pub fn action(&self) -> (action: PortAction)
        ensures
            action == self.pending(),
            action == PortAction::Finished <==> *self == KeyboardInit::Done,
    {
        match self {
            KeyboardInit::Waiting { .. } => PortAction::ReadStatus,
            KeyboardInit::Ready { phase } => match phase {
                InitPhase::EnableKeyboard => send_command(ENABLE_KEYBOARD),
                InitPhase::RequestConfig => send_command(READ_CONFIG),
                InitPhase::ReadConfig => PortAction::ReadData,
                InitPhase::AnnounceConfig { .. } => send_command(WRITE_CONFIG),
                InitPhase::SendConfig { config } => send_data(*config),
            },
            KeyboardInit::Done => PortAction::Finished,
        }
    }

    /// Takes what the last action gave and moves on. After a write, which
    /// gives nothing, any byte will do.
    pub fn reply(self, reply: u8) -> (next: KeyboardInit)
        ensures
            next == self.after(reply),
            self != KeyboardInit::Done ==> next.steps_left() < self.steps_left(),
    {
        match self {
            KeyboardInit::Waiting { phase, timeout } => {
                let again = match phase {
                    InitPhase::ReadConfig => wait_for_output_ready(reply, timeout),
                    _ => wait_for_input_ready(reply, timeout),
                };
                match again {
                    Some(timeout) => KeyboardInit::Waiting { phase, timeout },
                    None => KeyboardInit::Ready { phase },
                }
            },
            KeyboardInit::Ready { phase } => match phase {
                InitPhase::EnableKeyboard => KeyboardInit::Waiting {
                    phase: InitPhase::RequestConfig,
                    timeout: 0,
                },
                InitPhase::RequestConfig => KeyboardInit::Waiting {
                    phase: InitPhase::ReadConfig,
                    timeout: 0,
                },
                InitPhase::ReadConfig => KeyboardInit::Waiting {
                    phase: InitPhase::AnnounceConfig { config: new_config(reply) },
                    timeout: 0,
                },
                InitPhase::AnnounceConfig { config } => KeyboardInit::Waiting {
                    phase: InitPhase::SendConfig { config },
                    timeout: 0,
                },
                InitPhase::SendConfig { .. } => KeyboardInit::Done,
            },
            KeyboardInit::Done => KeyboardInit::Done,
        }
    }
}

/// Begins the initialisation of the keyboard: enable it, read the
/// configuration byte, and write it back with the keyboard interrupt on and
/// the mouse off. The state returned says what to do first.
pub fn init_keyboard() -> (state: KeyboardInit)
    ensures
        state == (KeyboardInit::Waiting { phase: InitPhase::EnableKeyboard, timeout: 0 }),
        state.steps_left() == 5 * (MAX_SPINS + 2),
{
    KeyboardInit::Waiting { phase: InitPhase::EnableKeyboard, timeout: 0 }
}

/// Each action brings initialisation nearer to its end, whatever it gives.
pub proof fn lemma_init_progress(state: KeyboardInit, reply: u8)
    requires
        state != KeyboardInit::Done,
    ensures
        state.after(reply).steps_left() < state.steps_left(),
{
}

/// Initialisation is over once `steps_left` actions were carried out,
/// whatever they gave: no wait lasts for ever.
pub proof fn lemma_init_terminates(state: KeyboardInit, replies: Seq<u8>)
    requires
        replies.len() >= state.steps_left(),
    ensures
        state.after_all(replies) == KeyboardInit::Done,
    decreases replies.len(),
{
    if replies.len() == 0 {
    } else if state == KeyboardInit::Done {
        lemma_init_terminates(KeyboardInit::Done, replies.drop_first());
    } else {
        lemma_init_progress(state, replies[0]);
        lemma_init_terminates(state.after(replies[0]), replies.drop_first());
    }
}

/// From any state on, an initialisation that comes to its end makes the
/// accesses that are left in that state, each once and in order.
pub proof fn lemma_accesses_left(state: KeyboardInit, replies: Seq<u8>)
    requires
        state.after_all(replies) == KeyboardInit::Done,
    ensures
        state.accesses(replies) == state.accesses_left(state.config_read(replies)),
    decreases replies.len(),
{
    if replies.len() != 0 {
        let next = state.after(replies[0]);
        let rest = replies.drop_first();
        lemma_accesses_left(next, rest);
        let read = state.config_read(replies);
        match state {
            KeyboardInit::Ready { phase } => {
                assert(state.accesses(replies) == seq![phase.access()] + next.accesses(rest));
                assert(seq![phase.access()] + next.accesses_left(next.config_read(rest))
                    =~= phase.accesses_from(read));
            },
            _ => {},
        }
    }
}

/// An initialisation that comes to its end has enabled the keyboard, asked
/// for the configuration, read it, announced a new one, and written back
/// what it read with the keyboard interrupt on and the mouse off: these five
/// accesses, in this order, and no other but reads of the status.
pub proof fn lemma_init_accesses(replies: Seq<u8>)
    requires
        (KeyboardInit::Waiting { phase: InitPhase::EnableKeyboard, timeout: 0 }).after_all(replies)
            == KeyboardInit::Done,
    ensures
        (KeyboardInit::Waiting { phase: InitPhase::EnableKeyboard, timeout: 0 }).accesses(replies)
            == seq![
            PortAction::Write { port: STATUS_CMD_PORT, value: ENABLE_KEYBOARD },
            PortAction::Write { port: STATUS_CMD_PORT, value: READ_CONFIG },
            PortAction::ReadData,
            PortAction::Write { port: STATUS_CMD_PORT, value: WRITE_CONFIG },
            PortAction::Write {
                port: DATA_PORT,
                value: configured(
                    (KeyboardInit::Waiting {
                        phase: InitPhase::EnableKeyboard,
                        timeout: 0,
                    }).config_read(replies),
                ),
            },
        ],
{
    lemma_accesses_left(
        KeyboardInit::Waiting { phase: InitPhase::EnableKeyboard, timeout: 0 },
        replies,
    );
}

/// The keys of the digit row, from scancode 0x02 on.
pub open spec fn digit_row() -> Seq<char> {
    seq!['1', '2', '3', '4', '5', '6', '7', '8', '9', '0']
}

/// The keys of the upper letter row, from scancode 0x10 on.
pub open spec fn upper_row() -> Seq<char> {
    seq!['q', 'w', 'e', 'r', 't', 'y', 'u', 'i', 'o', 'p']
}

/// The keys of the home row, from scancode 0x1E on.
pub open spec fn home_row() -> Seq<char> {
    seq!['a', 's', 'd', 'f', 'g', 'h', 'j', 'k', 'l']
}

/// The keys of the lower letter row, from scancode 0x2C on.
pub open spec fn lower_row() -> Seq<char> {
    seq!['z', 'x', 'c', 'v', 'b', 'n', 'm']
}

/// The character of the key with scancode `scancode`, for the keys that
/// have one: the digits, the twenty-six letters, the space bar and enter.
pub open spec fn key_char(scancode: u8) -> Option<char> {
    if 0x02 <= scancode <= 0x0B {
        Some(digit_row()[scancode - 0x02])
    } else if 0x10 <= scancode <= 0x19 {
        Some(upper_row()[scancode - 0x10])
    } else if 0x1E <= scancode <= 0x26 {
        Some(home_row()[scancode - 0x1E])
    } else if 0x2C <= scancode <= 0x32 {
        Some(lower_row()[scancode - 0x2C])
    } else if scancode == 0x39 {
        Some(' ')
    } else if scancode == 0x1C {
        Some('\n')
    } else {
        None
    }
}

/// What a poll of the keyboard yields, given the scancode that was read, if
/// one was: the character of a key that went down, and nothing for a key
/// that came up (a scancode from 0x80 on) or has no character.
pub open spec fn polled(scancode: Option<u8>) -> Option<char> {
    match scancode {
        Some(code) => if code < 0x80 {
            key_char(code)
        } else {
            None
        },
        None => None,
    }
}

/// The character of the key with scancode `scancode`, if it has one.
pub fn scancode_to_char(scancode: u8) -> (key: Option<char>)
    ensures
        key == key_char(scancode),
{
    match scancode {
        0x02 => Some('1'),
        0x03 => Some('2'),
        0x04 => Some('3'),
        0x05 => Some('4'),
        0x06 => Some('5'),
        0x07 => Some('6'),
        0x08 => Some('7'),
        0x09 => Some('8'),
        0x0A => Some('9'),
        0x0B => Some('0'),
        0x10 => Some('q'),
        0x11 => Some('w'),
        0x12 => Some('e'),
        0x13 => Some('r'),
        0x14 => Some('t'),
        0x15 => Some('y'),
        0x16 => Some('u'),
        0x17 => Some('i'),
        0x18 => Some('o'),
        0x19 => Some('p'),
        0x1E => Some('a'),
        0x1F => Some('s'),
        0x20 => Some('d'),
        0x21 => Some('f'),
        0x22 => Some('g'),
        0x23 => Some('h'),
        0x24 => Some('j'),
        0x25 => Some('k'),
        0x26 => Some('l'),
        0x2C => Some('z'),
        0x2D => Some('x'),
        0x2E => Some('c'),
        0x2F => Some('v'),
        0x30 => Some('b'),
        0x31 => Some('n'),
        0x32 => Some('m'),
        0x39 => Some(' '),
        0x1C => Some('\n'),
        _ => None,
    }
}

/// What a poll of the keyboard yields, given the scancode that was read, if
/// one was.
pub fn poll_keyboard(scancode: Option<u8>) -> (key: Option<char>)
    ensures
        key == polled(scancode),
{
    if let Some(scancode) = scancode {
        assert((scancode & 0x80 == 0) == (scancode < 0x80)) by (bit_vector);
        if scancode & 0x80 == 0 {
            return scancode_to_char(scancode);
        }
    }
    None
}

} // verus!
