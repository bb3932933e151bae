use nexigon::rpc::decode_output_size;
use nexigon::rpc::encode_action;
use nexigon::rpc::encode_output_size;
use nexigon::rpc::ActionReader;
use nexigon::rpc::ExecuteError;
use nexigon::rpc::ReadError;
use nexigon::rpc::SerializedAction;
use nexigon::rpc::MAX_ACTION_NAME_SIZE;
use nexigon::rpc::MAX_INPUT_SIZE;
use nexigon::rpc::MAX_OUTPUT_SIZE;

/// Reads one request from the bytes as the server does: piece by piece, as
/// many bytes at a time as the reader wants.
fn read_action(mut bytes: &[u8]) -> Result<SerializedAction, ReadError> {
    let mut reader = ActionReader::new();
    loop {
        let wanted = reader.wanted();
        if wanted > bytes.len() {
            return Err(ReadError::Read(std::io::ErrorKind::UnexpectedEof.into()));
        }
        let (piece, rest) = bytes.split_at(wanted);
        bytes = rest;
        reader = reader.feed(piece.to_vec())?;
        if matches!(reader, ActionReader::Done(_)) {
            return Ok(reader.finish().unwrap());
        }
    }
}

#[test]
fn request_layout() {
    let request = encode_action("ping", br#"{"seq":1}"#);
    assert_eq!(
        &request[..],
        b"\x00\x04ping\x00\x00\x00\x09{\"seq\":1}"
    );
}

#[test]
fn rpc_round_trip() {
    // The client sends the action.
    let request = encode_action("ping", br#"{"seq":1}"#);
    // The server reads it.
    let action = read_action(&request).unwrap();
    assert_eq!(action.name, "ping");
    let input: serde_json::Value = serde_json::from_slice(&action.input).unwrap();
    assert_eq!(input["seq"], 1);
    // The server answers, and the client reads the answer.
    for output in [
        &br#"{"ok":{"seq":1}}"#[..],
        &br#"{"error":{"kind":"NotFound","message":"x"}}"#[..],
    ] {
        let mut response = encode_output_size(output.len()).to_vec();
        response.extend_from_slice(output);
        let size = decode_output_size([response[0], response[1], response[2], response[3]]).unwrap();
        assert_eq!(size, output.len());
        let result: serde_json::Value = serde_json::from_slice(&response[4..4 + size]).unwrap();
        if let Some(ok) = result.get("ok") {
            assert_eq!(ok["seq"], 1);
        } else {
            assert_eq!(result["error"]["kind"], "NotFound");
            assert_eq!(result["error"]["message"], "x");
        }
    }
}

#[test]
fn reader_wants_sizes_and_contents_in_turn() {
    let reader = ActionReader::new();
    assert_eq!(reader.wanted(), 2);
    let reader = reader.feed(vec![0, 3]).unwrap();
    assert_eq!(reader.wanted(), 3);
    let reader = reader.feed(b"act".to_vec()).unwrap();
    assert_eq!(reader.wanted(), 4);
    let reader = reader.feed(vec![0, 0, 0, 2]).unwrap();
    assert_eq!(reader.wanted(), 2);
    let reader = reader.feed(b"{}".to_vec()).unwrap();
    assert_eq!(reader.wanted(), 0);
    let action = reader.finish().unwrap();
    assert_eq!((action.name.as_str(), &action.input[..]), ("act", &b"{}"[..]));
    assert!(ActionReader::new().finish().is_none());
}

#[test]
fn empty_name_and_input_are_read() {
    let action = read_action(&encode_action("", b"")).unwrap();
    assert_eq!((action.name.as_str(), action.input.len()), ("", 0));
}

#[test]
fn largest_name_is_read() {
    let name = "n".repeat(MAX_ACTION_NAME_SIZE as usize);
    let action = read_action(&encode_action(&name, b"1")).unwrap();
    assert_eq!(action.name, name);
}

#[test]
fn name_over_255_bytes_is_too_large() {
    assert!(matches!(
        read_action(&[0x01, 0x00]),
        Err(ReadError::ActionNameTooLarge(256))
    ));
    assert!(matches!(
        read_action(&[0xFF, 0xFF]),
        Err(ReadError::ActionNameTooLarge(65535))
    ));
}

#[test]
fn name_that_is_not_utf8_is_invalid() {
    assert!(matches!(
        read_action(&[0x00, 0x02, 0xC3, 0x28]),
        Err(ReadError::InvalidActionName(_))
    ));
    let action = read_action(b"\x00\x02\xC3\xA9\x00\x00\x00\x00").unwrap();
    assert_eq!(action.name, "é");
}

#[test]
fn input_over_8_mib_is_too_large() {
    assert_eq!(MAX_INPUT_SIZE, 8 * 1024 * 1024);
    assert!(matches!(
        read_action(b"\x00\x01a\x00\x80\x00\x01"),
        Err(ReadError::ActionInputTooLarge(8388609))
    ));
    let at_limit = read_action(b"\x00\x01a\x00\x80\x00\x00");
    assert!(matches!(at_limit, Err(ReadError::Read(_))));
}

#[test]
fn output_over_8_mib_is_too_large() {
    assert_eq!(MAX_OUTPUT_SIZE, 8 * 1024 * 1024);
    assert_eq!(encode_output_size(0x0102), [0, 0, 1, 2]);
    assert!(matches!(decode_output_size([0, 0x80, 0, 0]), Ok(8388608)));
    assert!(matches!(
        decode_output_size([0, 0x80, 0, 1]),
        Err(ExecuteError::OutputTooLarge(8388609))
    ));
    assert!(matches!(
        decode_output_size([0xFF; 4]),
        Err(ExecuteError::OutputTooLarge(u32::MAX))
    ));
}
