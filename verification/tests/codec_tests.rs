use tdisp::codec::TdispMessage;
use tdisp::codec::TdispMessageHeader;
use tdisp::codec::TdispMessagePayload;
use tdisp::codec::TdispRequestResponseCode;
use tdisp::codec::decode_message;
use tdisp::codec::encode_message;

fn msg(
    message_type: TdispRequestResponseCode,
    payload: TdispMessagePayload,
) -> TdispMessage {
    TdispMessage {
        header: TdispMessageHeader {
            tdisp_version: 0x10,
            message_type,
            interface_id: 0x01020304,
        },
        payload,
    }
}

fn round_trip(m: TdispMessage) {
    let bytes = encode_message(&m);
    let len = bytes.len();
    let decoded = decode_message(&bytes, len);
    assert_eq!(decoded, Some(m));
}

#[test]
fn encode_stop_interface_request_exact_bytes() {
    let m = msg(
        TdispRequestResponseCode::RequestStopInterface,
        TdispMessagePayload::RequestStopInterface,
    );
    let bytes = encode_message(&m);
    assert_eq!(bytes, vec![0x10, 0x87, 0x04, 0x03, 0x02, 0x01]);
}

#[test]
fn encode_lock_interface_request_exact_bytes() {
    let m = msg(
        TdispRequestResponseCode::RequestLockInterface,
        TdispMessagePayload::RequestLockInterface { flags: 0xa1b2c3d4 },
    );
    let bytes = encode_message(&m);
    assert_eq!(
        bytes,
        vec![0x10, 0x83, 0x04, 0x03, 0x02, 0x01, 0xd4, 0xc3, 0xb2, 0xa1]
    );
}

#[test]
fn encode_error_response_exact_bytes() {
    let m = msg(
        TdispRequestResponseCode::ResponseTdispError,
        TdispMessagePayload::ResponseTdispError { error_code: 0x101 },
    );
    let bytes = encode_message(&m);
    assert_eq!(
        bytes,
        vec![0x10, 0x7f, 0x04, 0x03, 0x02, 0x01, 0x01, 0x01, 0x00, 0x00]
    );
}

#[test]
fn encode_get_interface_state_response_exact_bytes() {
    let m = msg(
        TdispRequestResponseCode::ResponseGetInterfaceState,
        TdispMessagePayload::ResponseGetInterfaceState { tdi_state: 2 },
    );
    let bytes = encode_message(&m);
    assert_eq!(bytes, vec![0x10, 0x05, 0x04, 0x03, 0x02, 0x01, 0x02]);
}

#[test]
fn round_trip_every_message_type() {
    round_trip(msg(
        TdispRequestResponseCode::RequestGetVersion,
        TdispMessagePayload::RequestGetVersion,
    ));
    round_trip(msg(
        TdispRequestResponseCode::RequestGetCapabilities,
        TdispMessagePayload::RequestGetCapabilities,
    ));
    round_trip(msg(
        TdispRequestResponseCode::RequestLockInterface,
        TdispMessagePayload::RequestLockInterface { flags: 0xdeadbeef },
    ));
    round_trip(msg(
        TdispRequestResponseCode::RequestGetInterfaceState,
        TdispMessagePayload::RequestGetInterfaceState,
    ));
    round_trip(msg(
        TdispRequestResponseCode::RequestStartInterface,
        TdispMessagePayload::RequestStartInterface,
    ));
    round_trip(msg(
        TdispRequestResponseCode::RequestStopInterface,
        TdispMessagePayload::RequestStopInterface,
    ));
    round_trip(msg(
        TdispRequestResponseCode::ResponseGetVersion,
        TdispMessagePayload::ResponseGetVersion { version: 0x10 },
    ));
    round_trip(msg(
        TdispRequestResponseCode::ResponseGetCapabilities,
        TdispMessagePayload::ResponseGetCapabilities { dsm_caps: 0x55aa55aa },
    ));
    round_trip(msg(
        TdispRequestResponseCode::ResponseLockInterface,
        TdispMessagePayload::ResponseLockInterface,
    ));
    round_trip(msg(
        TdispRequestResponseCode::ResponseGetInterfaceState,
        TdispMessagePayload::ResponseGetInterfaceState { tdi_state: 3 },
    ));
    round_trip(msg(
        TdispRequestResponseCode::ResponseStartInterface,
        TdispMessagePayload::ResponseStartInterface,
    ));
    round_trip(msg(
        TdispRequestResponseCode::ResponseStopInterface,
        TdispMessagePayload::ResponseStopInterface,
    ));
    round_trip(msg(
        TdispRequestResponseCode::ResponseTdispError,
        TdispMessagePayload::ResponseTdispError { error_code: 0x104 },
    ));
}

#[test]
fn decode_empty_buffer_is_none() {
    let bytes: Vec<u8> = vec![];
    assert_eq!(decode_message(&bytes, 0), None);
}

#[test]
fn decode_truncated_header_is_none() {
    let bytes = vec![0x10, 0x87, 0x04];
    let len = bytes.len();
    assert_eq!(decode_message(&bytes, len), None);
}

#[test]
fn decode_unrecognized_type_code_is_none() {
    let bytes = vec![0x10, 0x99, 0x04, 0x03, 0x02, 0x01];
    let len = bytes.len();
    assert_eq!(decode_message(&bytes, len), None);
}

#[test]
fn decode_trailing_garbage_is_none() {
    let bytes = vec![0x10, 0x87, 0x04, 0x03, 0x02, 0x01, 0xff];
    let len = bytes.len();
    assert_eq!(decode_message(&bytes, len), None);
}

#[test]
fn decode_short_lock_payload_is_none() {
    let bytes = vec![0x10, 0x83, 0x04, 0x03, 0x02, 0x01, 0xd4, 0xc3];
    let len = bytes.len();
    assert_eq!(decode_message(&bytes, len), None);
}

#[test]
fn decode_is_total_on_arbitrary_bytes() {
    let mut bytes: Vec<u8> = Vec::new();
    let mut seed: u32 = 0x12345678;
    for _ in 0..64 {
        for len in 0..bytes.len() + 1 {
            // Must return, never panic; the content is free to be anything.
            let _ = decode_message(&bytes, len);
        }
        seed = seed.wrapping_mul(1664525).wrapping_add(1013904223);
        bytes.push((seed >> 24) as u8);
    }
}

#[test]
fn decode_respects_declared_length_only() {
    // A valid stop request followed by padding the declared length excludes.
    let bytes = vec![0x10, 0x87, 0x04, 0x03, 0x02, 0x01, 0xee, 0xee];
    let decoded = decode_message(&bytes, 6);
    let m = msg(
        TdispRequestResponseCode::RequestStopInterface,
        TdispMessagePayload::RequestStopInterface,
    );
    assert_eq!(decoded, Some(m));
}
