//! The File Transfer over TCP (FTCP) protocol: its commands, their four-byte
//! wire form, and the protocol frame.

use vstd::prelude::*;

verus! {

/// Length in bytes of a command on the wire.
pub const CMD_LEN: usize = 4;

/// A protocol command.
#[derive(Clone, Copy, Debug, PartialEq, Eq, Structural)]
pub enum Command {
    List,
    Get,
    Send,
    Okay,
    Error,
}

/// The four ASCII bytes that stand for `cmd` on the wire:
/// `LIST`, `GET `, `SEND`, `OKAY` and `ERR ` (the short ones padded with a space).
pub open spec fn command_bytes(cmd: Command) -> Seq<u8> {
    match cmd {
        Command::List => seq![0x4cu8, 0x49u8, 0x53u8, 0x54u8],
        Command::Get => seq![0x47u8, 0x45u8, 0x54u8, 0x20u8],
        Command::Send => seq![0x53u8, 0x45u8, 0x4eu8, 0x44u8],
        Command::Okay => seq![0x4fu8, 0x4bu8, 0x41u8, 0x59u8],
        Command::Error => seq![0x45u8, 0x52u8, 0x52u8, 0x20u8],
    }
}

/// The command whose wire form is `bytes`, if there is one.
pub open spec fn command_of_bytes(bytes: Seq<u8>) -> Option<Command> {
    if bytes == command_bytes(Command::List) {
        Some(Command::List)
    } else if bytes == command_bytes(Command::Get) {
        Some(Command::Get)
    } else if bytes == command_bytes(Command::Send) {
        Some(Command::Send)
    } else if bytes == command_bytes(Command::Okay) {
        Some(Command::Okay)
    } else if bytes == command_bytes(Command::Error) {
        Some(Command::Error)
    } else {
        None
    }
}

impl Command {
    /// The wire form of the command.
    pub fn to_bytes(&self) -> (bytes: [u8; CMD_LEN])
        ensures
            bytes@ == command_bytes(*self),
    {
        let bytes: [u8; CMD_LEN] = match self {
            Command::List => [0x4c, 0x49, 0x53, 0x54],
            Command::Get => [0x47, 0x45, 0x54, 0x20],
            Command::Send => [0x53, 0x45, 0x4e, 0x44],
            Command::Okay => [0x4f, 0x4b, 0x41, 0x59],
            Command::Error => [0x45, 0x52, 0x52, 0x20],
        };
        assert(bytes@ == command_bytes(*self));
        bytes
    }

    /// Reads a command from its wire form; any other four bytes are refused
    /// with the message `Unknown command`.
    pub fn from_bytes(bytes: [u8; CMD_LEN]) -> (res: Result<Command, String>)
        ensures
            command_of_bytes(bytes@) matches Some(c) ==> res == Ok::<Command, String>(c),
            command_of_bytes(bytes@) is None ==> (res matches Err(e) && e@ == "Unknown command"@),
    {
        let b0 = bytes[0];
        let b1 = bytes[1];
        let b2 = bytes[2];
        let b3 = bytes[3];
        assert(bytes@ == seq![b0, b1, b2, b3]);
        if b0 == 0x4c && b1 == 0x49 && b2 == 0x53 && b3 == 0x54 {
            Ok(Command::List)
        } else if b0 == 0x47 && b1 == 0x45 && b2 == 0x54 && b3 == 0x20 {
            Ok(Command::Get)
        } else if b0 == 0x53 && b1 == 0x45 && b2 == 0x4e && b3 == 0x44 {
            Ok(Command::Send)
        } else if b0 == 0x4f && b1 == 0x4b && b2 == 0x41 && b3 == 0x59 {
            Ok(Command::Okay)
        } else if b0 == 0x45 && b1 == 0x52 && b2 == 0x52 && b3 == 0x20 {
            Ok(Command::Error)
        } else {
            Err(String::from_str("Unknown command"))
        }
    }
}

/// Reading the wire form of any command gives that command back.
pub proof fn lemma_command_bytes_roundtrip(cmd: Command)
    ensures
        command_of_bytes(command_bytes(cmd)) == Some(cmd),
{
}

/// Four bytes that read as a command are exactly that command's wire form, so
/// no two byte patterns stand for the same command.
pub proof fn lemma_command_bytes_unique(bytes: Seq<u8>, cmd: Command)
    requires
        command_of_bytes(bytes) == Some(cmd),
    ensures
        bytes == command_bytes(cmd),
{
}

/// An FTCP frame: a command, the length of its payload, and the payload.
pub struct Ftcp {
    cmd: Command,
    len: u32,
    payload: Vec<u8>,
}

impl Ftcp {
    /// A frame that carries `payload` under `cmd`; its length field is the
    /// payload's length cut to 32 bits.
    pub fn new(cmd: Command, payload: Vec<u8>) -> (frame: Self)
        ensures
            frame.cmd() == cmd,
            frame.payload() == payload@,
            frame.len() == payload@.len() as u32,
            payload@.len() <= u32::MAX ==> frame.len() == payload@.len(),
    {
        let len = payload.len() as u32;
        Self { cmd, len, payload }
    }

    pub closed spec fn cmd(&self) -> Command {
        self.cmd
    }

    pub closed spec fn len(&self) -> u32 {
        self.len
    }

    pub closed spec fn payload(&self) -> Seq<u8> {
        self.payload@
    }
}

} // verus!
