use ftcp_server::client::{Control, RequestType};
use ftcp_server::ftcp::{Command, Ftcp, CMD_LEN};
use ftcp_server::server_implementation::{
    accepts_cancellation, bytes_wanted, dispatch_command, file_list_response, reader_step,
    writer_decide, ReaderAction, ReaderError, ReaderEvent, ReaderState, WriterAction, WriterEvent,
    MAX_PAYLOAD_SIZE,
};
use ftcp_server::wire::{read_be_u32, write_be_u64};

fn all_commands() -> Vec<Command> {
    vec![Command::List, Command::Get, Command::Send, Command::Okay, Command::Error]
}

fn request_parts(c: &Control) -> (RequestType, String, u16) {
    match c {
        Control::Request { request_type, text, client_id } => (*request_type, text.clone(), *client_id),
        Control::Bytes(_) => panic!("expected a request"),
    }
}

#[test]
fn command_to_bytes_gives_wire_names() {
    assert_eq!(CMD_LEN, 4);
    assert_eq!(&Command::List.to_bytes(), b"LIST");
    assert_eq!(&Command::Get.to_bytes(), b"GET ");
    assert_eq!(&Command::Send.to_bytes(), b"SEND");
    assert_eq!(&Command::Okay.to_bytes(), b"OKAY");
    assert_eq!(&Command::Error.to_bytes(), b"ERR ");
}

#[test]
fn command_from_bytes_reads_wire_names() {
    assert_eq!(Command::from_bytes(*b"LIST"), Ok(Command::List));
    assert_eq!(Command::from_bytes(*b"GET "), Ok(Command::Get));
    assert_eq!(Command::from_bytes(*b"SEND"), Ok(Command::Send));
    assert_eq!(Command::from_bytes(*b"OKAY"), Ok(Command::Okay));
    assert_eq!(Command::from_bytes(*b"ERR "), Ok(Command::Error));
}

#[test]
fn command_from_bytes_refuses_unknown() {
    assert_eq!(Command::from_bytes(*b"GET!"), Err("Unknown command".to_string()));
    assert_eq!(Command::from_bytes(*b"list"), Err("Unknown command".to_string()));
    assert_eq!(Command::from_bytes(*b"GET\0"), Err("Unknown command".to_string()));
    assert_eq!(Command::from_bytes([0, 0, 0, 0]), Err("Unknown command".to_string()));
}

#[test]
fn command_bytes_roundtrip() {
    for c in all_commands() {
        assert_eq!(Command::from_bytes(c.to_bytes()), Ok(c));
    }
}

#[test]
fn ftcp_new_builds_frame() {
    let _frame = Ftcp::new(Command::Send, vec![1, 2, 3]);
    let _empty = Ftcp::new(Command::List, Vec::new());
}

#[test]
fn request_from_keeps_fields() {
    let c = Control::request_from(RequestType::GetFile, "notes.txt".to_string(), 4242);
    assert_eq!(request_parts(&c), (RequestType::GetFile, "notes.txt".to_string(), 4242));
}

#[test]
fn dispatch_maps_each_command() {
    let expected = [
        (Command::List, RequestType::GetList),
        (Command::Get, RequestType::GetFile),
        (Command::Send, RequestType::SendMessage),
        (Command::Okay, RequestType::GetOkay),
        (Command::Error, RequestType::GetList),
    ];
    for (cmd, rt) in expected {
        let c = dispatch_command(cmd, "x".to_string(), 1001);
        assert_eq!(request_parts(&c), (rt, "x".to_string(), 1001));
    }
}

#[test]
fn be_u32_reads_big_endian() {
    assert_eq!(read_be_u32(0, 0, 0, 0), 0);
    assert_eq!(read_be_u32(0, 0, 4, 0), 1024);
    assert_eq!(read_be_u32(0x12, 0x34, 0x56, 0x78), 0x1234_5678);
    assert_eq!(read_be_u32(0xff, 0xff, 0xff, 0xff), u32::MAX);
    assert_eq!(read_be_u32(0x12, 0x34, 0x56, 0x78), u32::from_be_bytes([0x12, 0x34, 0x56, 0x78]));
}

#[test]
fn be_u64_writes_big_endian() {
    assert_eq!(write_be_u64(0), [0; 8]);
    assert_eq!(write_be_u64(0x0102_0304_0506_0708), [1, 2, 3, 4, 5, 6, 7, 8]);
    assert_eq!(write_be_u64(u64::MAX), [0xff; 8]);
    assert_eq!(write_be_u64(987_654_321), 987_654_321u64.to_be_bytes());
}

#[test]
fn reader_wants_the_right_sizes() {
    assert_eq!(bytes_wanted(ReaderState::AwaitCommand), 4);
    assert_eq!(bytes_wanted(ReaderState::AwaitLength { cmd: Command::Get }), 4);
    assert_eq!(bytes_wanted(ReaderState::AwaitPayload { cmd: Command::Get, len: 17 }), 17);
    assert_eq!(bytes_wanted(ReaderState::Finished), 0);
    assert!(accepts_cancellation(ReaderState::AwaitCommand));
    assert!(!accepts_cancellation(ReaderState::AwaitLength { cmd: Command::Get }));
    assert!(!accepts_cancellation(ReaderState::AwaitPayload { cmd: Command::Get, len: 1 }));
    assert!(!accepts_cancellation(ReaderState::Finished));
}

#[test]
fn reader_reads_a_whole_frame() {
    let (s1, a1) = reader_step(ReaderState::AwaitCommand, ReaderEvent::Bytes(b"GET ".to_vec()), 1234);
    assert_eq!(s1, ReaderState::AwaitLength { cmd: Command::Get });
    assert!(matches!(a1, ReaderAction::Continue));
    let (s2, a2) = reader_step(s1, ReaderEvent::Bytes(9u32.to_be_bytes().to_vec()), 1234);
    assert_eq!(s2, ReaderState::AwaitPayload { cmd: Command::Get, len: 9 });
    assert!(matches!(a2, ReaderAction::Continue));
    let (s3, a3) = reader_step(s2, ReaderEvent::Bytes(b"notes.txt".to_vec()), 1234);
    assert_eq!(s3, ReaderState::AwaitCommand);
    match a3 {
        ReaderAction::Dispatch(c) => {
            assert_eq!(request_parts(&c), (RequestType::GetFile, "notes.txt".to_string(), 1234))
        }
        _ => panic!("expected a dispatch"),
    }
}

#[test]
fn reader_passes_err_command_as_list_request() {
    let (s1, _) = reader_step(ReaderState::AwaitCommand, ReaderEvent::Bytes(b"ERR ".to_vec()), 7);
    let (s2, _) = reader_step(s1, ReaderEvent::Bytes(vec![0, 0, 0, 0]), 7);
    assert_eq!(s2, ReaderState::AwaitPayload { cmd: Command::Error, len: 0 });
    let (_, a3) = reader_step(s2, ReaderEvent::Bytes(Vec::new()), 7);
    match a3 {
        ReaderAction::Dispatch(c) => assert_eq!(request_parts(&c), (RequestType::GetList, String::new(), 7)),
        _ => panic!("expected a dispatch"),
    }
}

#[test]
fn reader_replaces_invalid_utf8() {
    let state = ReaderState::AwaitPayload { cmd: Command::Send, len: 3 };
    let (_, a) = reader_step(state, ReaderEvent::Bytes(vec![b'h', 0xff, b'i']), 5);
    match a {
        ReaderAction::Dispatch(c) => {
            assert_eq!(request_parts(&c), (RequestType::SendMessage, "h\u{FFFD}i".to_string(), 5))
        }
        _ => panic!("expected a dispatch"),
    }
}

#[test]
fn reader_refuses_unknown_command() {
    let (s, a) = reader_step(ReaderState::AwaitCommand, ReaderEvent::Bytes(b"PUT ".to_vec()), 1);
    assert_eq!(s, ReaderState::Finished);
    assert!(matches!(a, ReaderAction::Fail(ReaderError::UnknownCommand)));
}

#[test]
fn reader_refuses_oversized_payload() {
    let state = ReaderState::AwaitLength { cmd: Command::Send };
    let (s, a) = reader_step(state, ReaderEvent::Bytes(1025u32.to_be_bytes().to_vec()), 1);
    assert_eq!(s, ReaderState::Finished);
    assert!(matches!(a, ReaderAction::Fail(ReaderError::PayloadTooLarge(1025))));
    let max = MAX_PAYLOAD_SIZE as u32;
    let (s, a) = reader_step(state, ReaderEvent::Bytes(max.to_be_bytes().to_vec()), 1);
    assert_eq!(s, ReaderState::AwaitPayload { cmd: Command::Send, len: 1024 });
    assert!(matches!(a, ReaderAction::Continue));
    let (s, a) = reader_step(state, ReaderEvent::Bytes(vec![0xff; 4]), 1);
    assert_eq!(s, ReaderState::Finished);
    assert!(matches!(a, ReaderAction::Fail(ReaderError::PayloadTooLarge(u32::MAX))));
}

#[test]
fn reader_disconnects_on_end_of_stream() {
    let (s, a) = reader_step(ReaderState::AwaitCommand, ReaderEvent::EndOfStream, 1);
    assert_eq!(s, ReaderState::Finished);
    assert!(matches!(a, ReaderAction::Disconnect));
}

#[test]
fn reader_closes_on_cancel_only_between_requests() {
    let (s, a) = reader_step(ReaderState::AwaitCommand, ReaderEvent::Cancelled, 1);
    assert_eq!(s, ReaderState::Finished);
    assert!(matches!(a, ReaderAction::Close));
    let mid = ReaderState::AwaitPayload { cmd: Command::Get, len: 2 };
    let (s, a) = reader_step(mid, ReaderEvent::Cancelled, 1);
    assert_eq!(s, mid);
    assert!(matches!(a, ReaderAction::Continue));
}

#[test]
fn reader_reports_failed_reads() {
    let (s, a) = reader_step(ReaderState::AwaitCommand, ReaderEvent::ReadFailed, 1);
    assert_eq!(s, ReaderState::Finished);
    assert!(matches!(a, ReaderAction::Fail(ReaderError::ReadCommand)));
    let (s, a) = reader_step(ReaderState::AwaitLength { cmd: Command::List }, ReaderEvent::EndOfStream, 1);
    assert_eq!(s, ReaderState::Finished);
    assert!(matches!(a, ReaderAction::Fail(ReaderError::ReadLength)));
    let (s, a) = reader_step(ReaderState::AwaitPayload { cmd: Command::List, len: 3 }, ReaderEvent::ReadFailed, 1);
    assert_eq!(s, ReaderState::Finished);
    assert!(matches!(a, ReaderAction::Fail(ReaderError::ReadPayload)));
}

#[test]
fn reader_stays_finished() {
    let (s, a) = reader_step(ReaderState::Finished, ReaderEvent::ReadFailed, 1);
    assert_eq!(s, ReaderState::Finished);
    assert!(matches!(a, ReaderAction::Halt));
}

#[test]
fn writer_answers_only_list_requests() {
    let list = WriterEvent::Received(Control::request_from(RequestType::GetList, String::new(), 1));
    assert_eq!(writer_decide(&list), WriterAction::SendFileList);
    for rt in [RequestType::GetFile, RequestType::SendMessage, RequestType::GetOkay, RequestType::GetErr] {
        let ev = WriterEvent::Received(Control::request_from(rt, String::new(), 1));
        assert_eq!(writer_decide(&ev), WriterAction::Ignore);
    }
    assert_eq!(writer_decide(&WriterEvent::Received(Control::Bytes(vec![1]))), WriterAction::Ignore);
    assert_eq!(writer_decide(&WriterEvent::ChannelClosed), WriterAction::Ignore);
    assert_eq!(writer_decide(&WriterEvent::Cancelled), WriterAction::Stop);
}

#[test]
fn file_list_response_prefixes_length() {
    let names = vec![b"a.txt".to_vec(), b"bb".to_vec()];
    let r = file_list_response(&names);
    let mut expected = 8u64.to_be_bytes().to_vec();
    expected.extend_from_slice(b"a.txt\nbb");
    assert_eq!(r, expected);
}

#[test]
fn file_list_response_edge_cases() {
    assert_eq!(file_list_response(&Vec::new()), vec![0u8; 8]);
    let one = file_list_response(&vec![b"only".to_vec()]);
    let mut expected = 4u64.to_be_bytes().to_vec();
    expected.extend_from_slice(b"only");
    assert_eq!(one, expected);
    let empties = file_list_response(&vec![Vec::new(), Vec::new(), Vec::new()]);
    let mut expected = 2u64.to_be_bytes().to_vec();
    expected.extend_from_slice(b"\n\n");
    assert_eq!(empties, expected);
}

#[test]
fn file_list_response_matches_string_join() {
    let names = vec!["report.pdf".to_string(), "ünïcode.txt".to_string(), "c".to_string()];
    let payload = names.join("\n");
    let mut expected = (payload.len() as u64).to_be_bytes().to_vec();
    expected.extend_from_slice(payload.as_bytes());
    let bytes: Vec<Vec<u8>> = names.iter().map(|n| n.clone().into_bytes()).collect();
    assert_eq!(file_list_response(&bytes), expected);
}
