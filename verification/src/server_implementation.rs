//! The decisions of the server's per-client tasks.
//!
//! The reader task reads a request from the client in three steps: a
//! four-byte command, a four-byte big-endian payload length, then the
//! payload; it turns the request into a `Control` for the writer task.
//! `reader_step` makes those decisions: from the state of the reader and what
//! a read brought, it gives the next state and what to do. The writer task
//! answers requests; `writer_decide` says what it does with what it receives,
//! and `file_list_response` builds the bytes of its answer to a list request.

use crate::client::{ClientID, Control, ControlView, RequestType};
use crate::externs::{string_from_utf8_lossy, utf8_lossy};
use crate::ftcp::{
    CMD_LEN, Command, command_bytes, command_of_bytes, lemma_command_bytes_roundtrip,
    lemma_command_bytes_unique,
};
use crate::wire::{
    be_u32_bytes, be_u32_value, be_u64_bytes, lemma_be_u32_roundtrip, read_be_u32, write_be_u64,
};
use vstd::prelude::*;

verus! {

/// The largest payload, in bytes, that a client may send with a request.
pub const MAX_PAYLOAD_SIZE: usize = 1024;

/// The request that a command asks for. An `ERR ` command is passed on as a
/// list request.
pub open spec fn request_type_of(cmd: Command) -> RequestType {
    match cmd {
        Command::List => RequestType::GetList,
        Command::Get => RequestType::GetFile,
        Command::Send => RequestType::SendMessage,
        Command::Okay => RequestType::GetOkay,
        Command::Error => RequestType::GetList,
    }
}

/// The control that passes a request `cmd` with `text` from `client_id` on to
/// the writer task.
pub fn dispatch_command(cmd: Command, text: String, client_id: ClientID) -> (c: Control)
    ensures
        c@ == (ControlView::Request { request_type: request_type_of(cmd), text: text@, client_id }),
{
    match cmd {
        Command::List => Control::request_from(RequestType::GetList, text, client_id),
        Command::Get => Control::request_from(RequestType::GetFile, text, client_id),
        Command::Send => Control::request_from(RequestType::SendMessage, text, client_id),
        Command::Okay => Control::request_from(RequestType::GetOkay, text, client_id),
        Command::Error => Control::request_from(RequestType::GetList, text, client_id),
    }
}

/// Where the reader task stands in reading a request.
#[derive(Clone, Copy, Debug, PartialEq, Eq, Structural)]
pub enum ReaderState {
    /// Waiting for the four bytes of a command; cancelling the client ends the
    /// task here.
    AwaitCommand,
    /// Waiting for the four bytes of the payload length of `cmd`.
    AwaitLength { cmd: Command },
    /// Waiting for the `len` bytes of the payload of `cmd`.
    AwaitPayload { cmd: Command, len: u32 },
    /// The task has ended.
    Finished,
}

/// What came of the reader task's wait.
pub enum ReaderEvent {
    /// The client's cancellation token was cancelled.
    Cancelled,
    /// The bytes that were asked for.
    Bytes(Vec<u8>),
    /// The stream ended before the bytes asked for.
    EndOfStream,
    /// The read failed otherwise.
    ReadFailed,
}

/// A `ReaderEvent` as a mathematical value.
pub enum ReaderEventView {
    Cancelled,
    Bytes(Seq<u8>),
    EndOfStream,
    ReadFailed,
}

impl View for ReaderEvent {
    type V = ReaderEventView;

    open spec fn view(&self) -> ReaderEventView {
        match self {
            ReaderEvent::Cancelled => ReaderEventView::Cancelled,
            ReaderEvent::Bytes(b) => ReaderEventView::Bytes(b@),
            ReaderEvent::EndOfStream => ReaderEventView::EndOfStream,
            ReaderEvent::ReadFailed => ReaderEventView::ReadFailed,
        }
    }
}

/// Why the reader task gave up on a client.
#[derive(Clone, Copy, Debug, PartialEq, Eq, Structural)]
pub enum ReaderError {
    /// Reading a command failed.
    ReadCommand,
    /// The four bytes are no command.
    UnknownCommand,
    /// Reading the payload length failed.
    ReadLength,
    /// The payload length, given here, is above `MAX_PAYLOAD_SIZE`.
    PayloadTooLarge(u32),
    /// Reading the payload failed.
    ReadPayload,
}

/// What the reader task does next.
pub enum ReaderAction {
    /// Read the bytes that the next state waits for.
    Continue,
    /// Send the control to the writer task, then read on.
    Dispatch(Control),
    /// The client closed its stream: cancel its token, tell the server that
    /// the client disconnected, and end.
    Disconnect,
    /// The client was cancelled: drop the stream and end.
    Close,
    /// Report the error and end.
    Fail(ReaderError),
    /// Nothing: the task has ended.
    Halt,
}

/// A `ReaderAction` as a mathematical value.
pub enum ReaderActionView {
    Continue,
    Dispatch(ControlView),
    Disconnect,
    Close,
    Fail(ReaderError),
    Halt,
}

impl View for ReaderAction {
    type V = ReaderActionView;

    open spec fn view(&self) -> ReaderActionView {
        match self {
            ReaderAction::Continue => ReaderActionView::Continue,
            ReaderAction::Dispatch(c) => ReaderActionView::Dispatch(c@),
            ReaderAction::Disconnect => ReaderActionView::Disconnect,
            ReaderAction::Close => ReaderActionView::Close,
            ReaderAction::Fail(e) => ReaderActionView::Fail(*e),
            ReaderAction::Halt => ReaderActionView::Halt,
        }
    }
}

/// How many bytes the reader reads in `state`.
pub open spec fn spec_bytes_wanted(state: ReaderState) -> nat {
    match state {
        ReaderState::AwaitCommand => CMD_LEN as nat,
        ReaderState::AwaitLength { .. } => 4,
        ReaderState::AwaitPayload { len, .. } => len as nat,
        ReaderState::Finished => 0,
    }
}

/// What the reader does in `state` when `event` comes, for client
/// `client_id`: the next state and the action.
pub open spec fn reader_transition(
    state: ReaderState,
    event: ReaderEventView,
    client_id: ClientID,
) -> (ReaderState, ReaderActionView) {
    match state {
        ReaderState::AwaitCommand => match event {
            ReaderEventView::Cancelled => (ReaderState::Finished, ReaderActionView::Close),
            ReaderEventView::Bytes(b) => match command_of_bytes(b) {
                Some(cmd) => (ReaderState::AwaitLength { cmd }, ReaderActionView::Continue),
                None => (
                    ReaderState::Finished,
                    ReaderActionView::Fail(ReaderError::UnknownCommand),
                ),
            },
            ReaderEventView::EndOfStream => (ReaderState::Finished, ReaderActionView::Disconnect),
            ReaderEventView::ReadFailed => (
                ReaderState::Finished,
                ReaderActionView::Fail(ReaderError::ReadCommand),
            ),
        },
        ReaderState::AwaitLength { cmd } => match event {
            ReaderEventView::Cancelled => (state, ReaderActionView::Continue),
            ReaderEventView::Bytes(b) => {
                let len = be_u32_value(b);
                if len > MAX_PAYLOAD_SIZE {
                    (
                        ReaderState::Finished,
                        ReaderActionView::Fail(ReaderError::PayloadTooLarge(len)),
                    )
                } else {
                    (ReaderState::AwaitPayload { cmd, len }, ReaderActionView::Continue)
                }
            },
            _ => (ReaderState::Finished, ReaderActionView::Fail(ReaderError::ReadLength)),
        },
        ReaderState::AwaitPayload { cmd, len } => match event {
            ReaderEventView::Cancelled => (state, ReaderActionView::Continue),
            ReaderEventView::Bytes(b) => (
                ReaderState::AwaitCommand,
                ReaderActionView::Dispatch(
                    ControlView::Request {
                        request_type: request_type_of(cmd),
                        text: utf8_lossy(b),
                        client_id,
                    },
                ),
            ),
            _ => (ReaderState::Finished, ReaderActionView::Fail(ReaderError::ReadPayload)),
        },
        ReaderState::Finished => (ReaderState::Finished, ReaderActionView::Halt),
    }
}

/// How many bytes the reader reads in `state`: the bytes of a `Bytes` event
/// must be that many.
pub fn bytes_wanted(state: ReaderState) -> (n: usize)
    ensures
        n == spec_bytes_wanted(state),
{
    match state {
        ReaderState::AwaitCommand => CMD_LEN,
        ReaderState::AwaitLength { .. } => 4,
        ReaderState::AwaitPayload { len, .. } => len as usize,
        ReaderState::Finished => 0,
    }
}

/// Whether the reader, in `state`, waits for cancellation besides its read.
pub fn accepts_cancellation(state: ReaderState) -> (r: bool)
    ensures
        r == (state == ReaderState::AwaitCommand),
{
    match state {
        ReaderState::AwaitCommand => true,
        _ => false,
    }
}

/// One step of the reader task of client `client_id`: in `state`, after
/// `event`, the next state and what to do.
pub fn reader_step(state: ReaderState, event: ReaderEvent, client_id: ClientID) -> (r: (
    ReaderState,
    ReaderAction,
))
    requires
        event matches ReaderEvent::Bytes(b) ==> b@.len() == spec_bytes_wanted(state),
    ensures
        (r.0, r.1@) == reader_transition(state, event@, client_id),
{
    match state {
        ReaderState::AwaitCommand => match event {
            ReaderEvent::Cancelled => (ReaderState::Finished, ReaderAction::Close),
            ReaderEvent::Bytes(b) => {
                let bytes: [u8; CMD_LEN] = [b[0], b[1], b[2], b[3]];
                assert(bytes@ == b@);
                match Command::from_bytes(bytes) {
                    Ok(cmd) => (ReaderState::AwaitLength { cmd }, ReaderAction::Continue),
                    Err(_) => (ReaderState::Finished, ReaderAction::Fail(ReaderError::UnknownCommand)),
                }
            },
            ReaderEvent::EndOfStream => (ReaderState::Finished, ReaderAction::Disconnect),
            ReaderEvent::ReadFailed => (
                ReaderState::Finished,
                ReaderAction::Fail(ReaderError::ReadCommand),
            ),
        },
        ReaderState::AwaitLength { cmd } => match event {
            ReaderEvent::Cancelled => (state, ReaderAction::Continue),
            ReaderEvent::Bytes(b) => {
                assert(b@ == seq![b@[0], b@[1], b@[2], b@[3]]);
                let len = read_be_u32(b[0], b[1], b[2], b[3]);
                if len as usize > MAX_PAYLOAD_SIZE {
                    (ReaderState::Finished, ReaderAction::Fail(ReaderError::PayloadTooLarge(len)))
                } else {
                    (ReaderState::AwaitPayload { cmd, len }, ReaderAction::Continue)
                }
            },
            _ => (ReaderState::Finished, ReaderAction::Fail(ReaderError::ReadLength)),
        },
        ReaderState::AwaitPayload { cmd, len } => match event {
            ReaderEvent::Cancelled => (state, ReaderAction::Continue),
            ReaderEvent::Bytes(b) => {
                let text = string_from_utf8_lossy(b.as_slice());
                let control = dispatch_command(cmd, text, client_id);
                (ReaderState::AwaitCommand, ReaderAction::Dispatch(control))
            },
            _ => (ReaderState::Finished, ReaderAction::Fail(ReaderError::ReadPayload)),
        },
        ReaderState::Finished => (ReaderState::Finished, ReaderAction::Halt),
    }
}

/// A request sent as a frame (the command's four bytes, the payload length
/// as four big-endian bytes, then the payload) to a reader that waits for a
/// command is read in three steps, each asking for the next part, and then
/// passed on as that request with the payload's text from that client; the
/// reader then waits for the next command.
pub proof fn lemma_frame_dispatched(cmd: Command, payload: Seq<u8>, client_id: ClientID)
    requires
        payload.len() <= MAX_PAYLOAD_SIZE,
    ensures
        ({
            let (s1, a1) = reader_transition(
                ReaderState::AwaitCommand,
                ReaderEventView::Bytes(command_bytes(cmd)),
                client_id,
            );
            let (s2, a2) = reader_transition(
                s1,
                ReaderEventView::Bytes(be_u32_bytes(payload.len() as u32)),
                client_id,
            );
            let (s3, a3) = reader_transition(s2, ReaderEventView::Bytes(payload), client_id);
            &&& spec_bytes_wanted(ReaderState::AwaitCommand) == command_bytes(cmd).len()
            &&& a1 == ReaderActionView::Continue
            &&& spec_bytes_wanted(s1) == be_u32_bytes(payload.len() as u32).len()
            &&& a2 == ReaderActionView::Continue
            &&& spec_bytes_wanted(s2) == payload.len()
            &&& a3 == ReaderActionView::Dispatch(
                ControlView::Request {
                    request_type: request_type_of(cmd),
                    text: utf8_lossy(payload),
                    client_id,
                },
            )
            &&& s3 == ReaderState::AwaitCommand
        }),
{
    lemma_command_bytes_roundtrip(cmd);
    lemma_be_u32_roundtrip(payload.len() as u32);
}

/// A reader that waits for a command goes on to read a length only on four
/// bytes that are exactly the wire form of a command, and then for that very
/// command; any other four bytes end it with `UnknownCommand`.
pub proof fn lemma_only_exact_commands_read(b: Seq<u8>, client_id: ClientID)
    requires
        b.len() == CMD_LEN,
    ensures
        forall|cmd: Command|
            #![trigger command_bytes(cmd)]
            (reader_transition(ReaderState::AwaitCommand, ReaderEventView::Bytes(b), client_id).0
                == ReaderState::AwaitLength { cmd }) <==> b == command_bytes(cmd),
        (forall|cmd: Command| #![trigger command_bytes(cmd)] b != command_bytes(cmd))
            ==> reader_transition(ReaderState::AwaitCommand, ReaderEventView::Bytes(b), client_id)
            == (ReaderState::Finished, ReaderActionView::Fail(ReaderError::UnknownCommand)),
{
    assert forall|cmd: Command|
        #![trigger command_bytes(cmd)]
        (reader_transition(ReaderState::AwaitCommand, ReaderEventView::Bytes(b), client_id).0
            == ReaderState::AwaitLength { cmd }) <==> b == command_bytes(cmd) by {
        lemma_command_bytes_roundtrip(cmd);
        if command_of_bytes(b) is Some {
            lemma_command_bytes_unique(b, command_of_bytes(b).unwrap());
        }
    }
    if command_of_bytes(b) is Some {
        lemma_command_bytes_unique(b, command_of_bytes(b).unwrap());
    }
}

/// A frame whose length field is above `MAX_PAYLOAD_SIZE` ends the reader
/// with `PayloadTooLarge`, before any payload is read.
pub proof fn lemma_oversized_frame_refused(cmd: Command, len: u32, client_id: ClientID)
    requires
        len > MAX_PAYLOAD_SIZE,
    ensures
        reader_transition(
            ReaderState::AwaitLength { cmd },
            ReaderEventView::Bytes(be_u32_bytes(len)),
            client_id,
        ) == (ReaderState::Finished, ReaderActionView::Fail(ReaderError::PayloadTooLarge(len))),
{
    lemma_be_u32_roundtrip(len);
}

/// The reader waits for no payload above `MAX_PAYLOAD_SIZE`.
pub open spec fn payload_within_limit(state: ReaderState) -> bool {
    state matches ReaderState::AwaitPayload { len, .. } ==> len <= MAX_PAYLOAD_SIZE
}

/// Every step keeps the reader from waiting for a payload above
/// `MAX_PAYLOAD_SIZE`, so the task never reads (or allocates for) more than
/// that many bytes at once.
pub proof fn lemma_reader_keeps_payload_limit(
    state: ReaderState,
    event: ReaderEventView,
    client_id: ClientID,
)
    requires
        payload_within_limit(state),
    ensures
        payload_within_limit(reader_transition(state, event, client_id).0),
        spec_bytes_wanted(reader_transition(state, event, client_id).0) <= MAX_PAYLOAD_SIZE,
{
}

/// What came of the writer task's wait.
pub enum WriterEvent {
    /// The client's cancellation token was cancelled.
    Cancelled,
    /// A control arrived on the client's control channel.
    Received(Control),
    /// The control channel is closed and empty.
    ChannelClosed,
}

/// What the writer task does next.
#[derive(Clone, Copy, Debug, PartialEq, Eq, Structural)]
pub enum WriterAction {
    /// Drop the stream and end.
    Stop,
    /// Send the client the list of files.
    SendFileList,
    /// Nothing; wait again.
    Ignore,
}

/// Whether a control is a list request.
pub open spec fn is_list_request(c: ControlView) -> bool {
    c matches ControlView::Request { request_type: RequestType::GetList, .. }
}

/// What the writer task does on `event`: it ends when the client is
/// cancelled, answers a list request with the list of files, and lets every
/// other control, and a closed channel, pass.
pub fn writer_decide(event: &WriterEvent) -> (a: WriterAction)
    ensures
        a == (match *event {
            WriterEvent::Cancelled => WriterAction::Stop,
            WriterEvent::Received(c) => if is_list_request(c@) {
                WriterAction::SendFileList
            } else {
                WriterAction::Ignore
            },
            WriterEvent::ChannelClosed => WriterAction::Ignore,
        }),
{
    match event {
        WriterEvent::Cancelled => WriterAction::Stop,
        WriterEvent::Received(control) => match control {
            Control::Request { request_type, .. } => match request_type {
                RequestType::GetList => WriterAction::SendFileList,
                _ => WriterAction::Ignore,
            },
            Control::Bytes(_) => WriterAction::Ignore,
        },
        WriterEvent::ChannelClosed => WriterAction::Ignore,
    }
}

/// A request is answered with the list of files exactly when its type is
/// `GetList`, whatever its text and whichever client made it; raw bytes are
/// never answered.
pub proof fn lemma_list_requests_answered(
    request_type: RequestType,
    text: Seq<char>,
    client_id: ClientID,
    bytes: Seq<u8>,
)
    ensures
        is_list_request(ControlView::Request { request_type, text, client_id }) <==> request_type
            == RequestType::GetList,
        !is_list_request(ControlView::Bytes(bytes)),
{
}

/// The names joined into one byte sequence, a newline (byte 10) between each
/// two.
pub open spec fn join_lines(names: Seq<Seq<u8>>) -> Seq<u8>
    decreases names.len(),
{
    if names.len() == 0 {
        Seq::empty()
    } else if names.len() == 1 {
        names[0]
    } else {
        join_lines(names.drop_last()) + seq![10u8] + names.last()
    }
}

/// The answer to a list request: the byte length of the joined names as
/// eight big-endian bytes, then the joined names.
pub open spec fn file_list_bytes(names: Seq<Seq<u8>>) -> Seq<u8> {
    be_u64_bytes(join_lines(names).len() as u64) + join_lines(names)
}

/// The sum of the lengths of the names.
pub open spec fn total_len(names: Seq<Seq<u8>>) -> nat
    decreases names.len(),
{
    if names.len() == 0 {
        0
    } else {
        total_len(names.drop_last()) + names.last().len()
    }
}

/// Joining keeps every name, in order, with one newline between neighbours:
/// no names give nothing, one name gives itself, and one more name after a
/// non-empty list adds a newline and that name at the end. So the joined
/// bytes are as long as the names together plus one newline fewer than there
/// are names.
pub proof fn lemma_join_lines_keeps_every_name(names: Seq<Seq<u8>>, x: Seq<u8>)
    ensures
        join_lines(Seq::<Seq<u8>>::empty()) == Seq::<u8>::empty(),
        join_lines(seq![x]) == x,
        names.len() > 0 ==> join_lines(names.push(x)) == join_lines(names) + seq![10u8] + x,
        names.len() > 0 ==> join_lines(names).len() == total_len(names) + names.len() - 1,
    decreases names.len(),
{
    assert(seq![x].len() == 1 && seq![x][0] == x);
    if names.len() > 0 {
        assert(names.push(x).drop_last() == names);
        assert(names.push(x).last() == x);
        if names.len() > 1 {
            lemma_join_lines_keeps_every_name(names.drop_last(), names.last());
            assert(names.drop_last().push(names.last()) == names);
        }
    }
}

/// The bytes of each name in `names`.
pub open spec fn name_bytes(names: Seq<Vec<u8>>) -> Seq<Seq<u8>> {
    names.map_values(|n: Vec<u8>| n@)
}

/// The names joined by newlines.
fn join_names(names: &Vec<Vec<u8>>) -> (joined: Vec<u8>)
    ensures
        joined@ == join_lines(name_bytes(names@)),
{
    let ghost all = name_bytes(names@);
    let mut joined: Vec<u8> = Vec::new();
    let mut i: usize = 0;
    while i < names.len()
        invariant
            i <= names@.len(),
            all == name_bytes(names@),
            joined@ == join_lines(all.take(i as int)),
        decreases names@.len() - i,
    {
        let ghost prefix = joined@;
        if i > 0 {
            joined.push(10u8);
        }
        let name = &names[i];
        let mut j: usize = 0;
        while j < name.len()
            invariant
                j <= name@.len(),
                joined@ == (if i > 0 {
                    prefix + seq![10u8]
                } else {
                    prefix
                }) + name@.take(j as int),
            decreases name@.len() - j,
        {
            joined.push(name[j]);
            assert(name@.take(j + 1) == name@.take(j as int).push(name@[j as int]));
            j += 1;
        }
        assert(name@.take(j as int) == name@);
        assert(all[i as int] == name@);
        assert(all.take(i + 1).drop_last() == all.take(i as int));
        if i == 0 {
            assert(prefix == Seq::<u8>::empty());
            assert(joined@ == name@);
        }
        i += 1;
    }
    assert(all.take(i as int) == all);
    joined
}

/// The bytes the writer task sends in answer to a list request, given the
/// name of each file: the byte length of the names joined by newlines, as
/// eight big-endian bytes, then the joined names.
pub fn file_list_response(names: &Vec<Vec<u8>>) -> (response: Vec<u8>)
    ensures
        response@ == file_list_bytes(name_bytes(names@)),
{
    let mut payload = join_names(names);
    let header = write_be_u64(payload.len() as u64);
    let mut response: Vec<u8> = Vec::new();
    let mut k: usize = 0;
    while k < 8
        invariant
            k <= 8,
            header@ == be_u64_bytes(payload@.len() as u64),
            response@ == header@.take(k as int),
        decreases 8 - k,
    {
        response.push(header[k]);
        assert(header@.take(k + 1) == header@.take(k as int).push(header@[k as int]));
        k += 1;
    }
    assert(header@.take(8) == header@);
    response.append(&mut payload);
    response
}

/// The first eight bytes of the answer to a list request read, as a
/// big-endian number, the number of bytes that follow them.
pub proof fn lemma_file_list_length_prefix(names: Seq<Seq<u8>>)
    requires
        join_lines(names).len() <= u64::MAX,
    ensures
        file_list_bytes(names).len() >= 8,
        crate::wire::be_u64_value(file_list_bytes(names).take(8)) == file_list_bytes(names).len()
            - 8,
        file_list_bytes(names).skip(8) == join_lines(names),
{
    let n = join_lines(names).len() as u64;
    crate::wire::lemma_be_u64_roundtrip(n);
    assert(file_list_bytes(names).take(8) == be_u64_bytes(n));
    assert(file_list_bytes(names).skip(8) == join_lines(names));
}

} // verus!
