//! Binary message codec for TDISP request/response pairs.
//!
//! Every TDISP message is a fixed-layout header (protocol version, message
//! type code, interface id) followed by an operation-specific payload with a
//! fixed byte layout.  `spec_encode_message` is the authoritative wire
//! layout; `spec_decode_message` is its mathematical inverse on well-formed
//! byte strings and `None` on everything else.  The executable
//! `encode_message` / `decode_message` are proved to agree with them
//! exactly, so decoding is total and non-panicking: any byte string of any
//! length either yields a well-formed message or an explicit absence.

use vstd::prelude::*;

verus! {

/// Message type codes of the TDISP request/response pairs this responder
/// understands, one request and one response per operation, plus the
/// generic error response.
#[derive(Clone, Copy, PartialEq, Eq, Structural, Debug)]
pub enum TdispRequestResponseCode {
    RequestGetVersion,
    RequestGetCapabilities,
    RequestLockInterface,
    RequestGetInterfaceState,
    RequestStartInterface,
    RequestStopInterface,
    ResponseGetVersion,
    ResponseGetCapabilities,
    ResponseLockInterface,
    ResponseGetInterfaceState,
    ResponseStartInterface,
    ResponseStopInterface,
    ResponseTdispError,
}

/// Wire code of each message type.  Request codes carry the high bit, the
/// paired response clears it; the error response has a code of its own.
/// These codes are part of the wire contract and must stay stable.
pub open spec fn spec_message_type_code(t: TdispRequestResponseCode) -> u8 {
    match t {
        TdispRequestResponseCode::RequestGetVersion => 0x81,
        TdispRequestResponseCode::RequestGetCapabilities => 0x82,
        TdispRequestResponseCode::RequestLockInterface => 0x83,
        TdispRequestResponseCode::RequestGetInterfaceState => 0x85,
        TdispRequestResponseCode::RequestStartInterface => 0x86,
        TdispRequestResponseCode::RequestStopInterface => 0x87,
        TdispRequestResponseCode::ResponseGetVersion => 0x01,
        TdispRequestResponseCode::ResponseGetCapabilities => 0x02,
        TdispRequestResponseCode::ResponseLockInterface => 0x03,
        TdispRequestResponseCode::ResponseGetInterfaceState => 0x05,
        TdispRequestResponseCode::ResponseStartInterface => 0x06,
        TdispRequestResponseCode::ResponseStopInterface => 0x07,
        TdispRequestResponseCode::ResponseTdispError => 0x7f,
    }
}

/// Inverse of `spec_message_type_code`: `None` for an unrecognized code.
pub open spec fn spec_message_type_of_code(c: u8) -> Option<TdispRequestResponseCode> {
    if c == 0x81 {
        Some(TdispRequestResponseCode::RequestGetVersion)
    } else if c == 0x82 {
        Some(TdispRequestResponseCode::RequestGetCapabilities)
    } else if c == 0x83 {
        Some(TdispRequestResponseCode::RequestLockInterface)
    } else if c == 0x85 {
        Some(TdispRequestResponseCode::RequestGetInterfaceState)
    } else if c == 0x86 {
        Some(TdispRequestResponseCode::RequestStartInterface)
    } else if c == 0x87 {
        Some(TdispRequestResponseCode::RequestStopInterface)
    } else if c == 0x01 {
        Some(TdispRequestResponseCode::ResponseGetVersion)
    } else if c == 0x02 {
        Some(TdispRequestResponseCode::ResponseGetCapabilities)
    } else if c == 0x03 {
        Some(TdispRequestResponseCode::ResponseLockInterface)
    } else if c == 0x05 {
        Some(TdispRequestResponseCode::ResponseGetInterfaceState)
    } else if c == 0x06 {
        Some(TdispRequestResponseCode::ResponseStartInterface)
    } else if c == 0x07 {
        Some(TdispRequestResponseCode::ResponseStopInterface)
    } else if c == 0x7f {
        Some(TdispRequestResponseCode::ResponseTdispError)
    } else {
        None
    }
}

/// Executable twin of `spec_message_type_code`.
pub fn message_type_code(t: TdispRequestResponseCode) -> (c: u8)
    ensures
        c == spec_message_type_code(t),
{
    match t {
        TdispRequestResponseCode::RequestGetVersion => 0x81,
        TdispRequestResponseCode::RequestGetCapabilities => 0x82,
        TdispRequestResponseCode::RequestLockInterface => 0x83,
        TdispRequestResponseCode::RequestGetInterfaceState => 0x85,
        TdispRequestResponseCode::RequestStartInterface => 0x86,
        TdispRequestResponseCode::RequestStopInterface => 0x87,
        TdispRequestResponseCode::ResponseGetVersion => 0x01,
        TdispRequestResponseCode::ResponseGetCapabilities => 0x02,
        TdispRequestResponseCode::ResponseLockInterface => 0x03,
        TdispRequestResponseCode::ResponseGetInterfaceState => 0x05,
        TdispRequestResponseCode::ResponseStartInterface => 0x06,
        TdispRequestResponseCode::ResponseStopInterface => 0x07,
        TdispRequestResponseCode::ResponseTdispError => 0x7f,
    }
}

/// Executable twin of `spec_message_type_of_code`.
pub fn message_type_of_code(c: u8) -> (t: Option<TdispRequestResponseCode>)
    ensures
        t == spec_message_type_of_code(c),
{
    if c == 0x81 {
        Some(TdispRequestResponseCode::RequestGetVersion)
    } else if c == 0x82 {
        Some(TdispRequestResponseCode::RequestGetCapabilities)
    } else if c == 0x83 {
        Some(TdispRequestResponseCode::RequestLockInterface)
    } else if c == 0x85 {
        Some(TdispRequestResponseCode::RequestGetInterfaceState)
    } else if c == 0x86 {
        Some(TdispRequestResponseCode::RequestStartInterface)
    } else if c == 0x87 {
        Some(TdispRequestResponseCode::RequestStopInterface)
    } else if c == 0x01 {
        Some(TdispRequestResponseCode::ResponseGetVersion)
    } else if c == 0x02 {
        Some(TdispRequestResponseCode::ResponseGetCapabilities)
    } else if c == 0x03 {
        Some(TdispRequestResponseCode::ResponseLockInterface)
    } else if c == 0x05 {
        Some(TdispRequestResponseCode::ResponseGetInterfaceState)
    } else if c == 0x06 {
        Some(TdispRequestResponseCode::ResponseStartInterface)
    } else if c == 0x07 {
        Some(TdispRequestResponseCode::ResponseStopInterface)
    } else if c == 0x7f {
        Some(TdispRequestResponseCode::ResponseTdispError)
    } else {
        None
    }
}

/// Header present on every TDISP request and response.
#[derive(Clone, Copy, PartialEq, Eq, Structural, Debug)]
pub struct TdispMessageHeader {
    /// Protocol version the message speaks.
    pub tdisp_version: u8,
    /// Which request or response the payload carries.
    pub message_type: TdispRequestResponseCode,
    /// The TDI the message is about.
    pub interface_id: u32,
}

/// Operation-specific payload, one variant per message type.
#[derive(Clone, Copy, PartialEq, Eq, Structural, Debug)]
pub enum TdispMessagePayload {
    RequestGetVersion,
    RequestGetCapabilities,
    /// Lock-interface parameters requested by the host.
    RequestLockInterface { flags: u32 },
    RequestGetInterfaceState,
    RequestStartInterface,
    RequestStopInterface,
    /// The single protocol version the responder speaks.
    ResponseGetVersion { version: u8 },
    /// Capability bitmap of the device security manager.
    ResponseGetCapabilities { dsm_caps: u32 },
    ResponseLockInterface,
    /// Current lifecycle state, as its wire code.
    ResponseGetInterfaceState { tdi_state: u8 },
    ResponseStartInterface,
    ResponseStopInterface,
    /// One error code from the enumerated set.
    ResponseTdispError { error_code: u32 },
}

/// The message type a payload variant belongs to.
pub open spec fn spec_payload_code(p: TdispMessagePayload) -> TdispRequestResponseCode {
    match p {
        TdispMessagePayload::RequestGetVersion => TdispRequestResponseCode::RequestGetVersion,
        TdispMessagePayload::RequestGetCapabilities => TdispRequestResponseCode::RequestGetCapabilities,
        TdispMessagePayload::RequestLockInterface { .. } => TdispRequestResponseCode::RequestLockInterface,
        TdispMessagePayload::RequestGetInterfaceState => TdispRequestResponseCode::RequestGetInterfaceState,
        TdispMessagePayload::RequestStartInterface => TdispRequestResponseCode::RequestStartInterface,
        TdispMessagePayload::RequestStopInterface => TdispRequestResponseCode::RequestStopInterface,
        TdispMessagePayload::ResponseGetVersion { .. } => TdispRequestResponseCode::ResponseGetVersion,
        TdispMessagePayload::ResponseGetCapabilities { .. } => TdispRequestResponseCode::ResponseGetCapabilities,
        TdispMessagePayload::ResponseLockInterface => TdispRequestResponseCode::ResponseLockInterface,
        TdispMessagePayload::ResponseGetInterfaceState { .. } => TdispRequestResponseCode::ResponseGetInterfaceState,
        TdispMessagePayload::ResponseStartInterface => TdispRequestResponseCode::ResponseStartInterface,
        TdispMessagePayload::ResponseStopInterface => TdispRequestResponseCode::ResponseStopInterface,
        TdispMessagePayload::ResponseTdispError { .. } => TdispRequestResponseCode::ResponseTdispError,
    }
}

/// A complete TDISP message: header plus matching payload.
#[derive(Clone, Copy, PartialEq, Eq, Structural, Debug)]
pub struct TdispMessage {
    pub header: TdispMessageHeader,
    pub payload: TdispMessagePayload,
}

impl TdispMessage {
    /// A message is well formed when the payload variant is the one the
    /// header's message type announces.
    pub open spec fn wf(self) -> bool {
        self.header.message_type == spec_payload_code(self.payload)
    }
}

/// Little-endian byte image of a `u32`.
pub open spec fn spec_u32_le_bytes(v: u32) -> Seq<u8> {
    seq![
        (v & 0xff) as u8,
        ((v >> 8) & 0xff) as u8,
        ((v >> 16) & 0xff) as u8,
        ((v >> 24) & 0xff) as u8,
    ]
}

/// The `u32` read little-endian from four bytes.
pub open spec fn spec_u32_from_le_bytes(s: Seq<u8>) -> u32
    recommends
        s.len() == 4,
{
    (s[0] as u32) | ((s[1] as u32) << 8) | ((s[2] as u32) << 16) | ((s[3] as u32) << 24)
}

/// Reading back the little-endian image of a `u32` gives the value again.
pub proof fn lemma_u32_le_round_trip(v: u32)
    ensures
        spec_u32_from_le_bytes(spec_u32_le_bytes(v)) == v,
{
    assert(((v & 0xff) as u8 as u32) | ((((v >> 8) & 0xff) as u8 as u32) << 8)
        | ((((v >> 16) & 0xff) as u8 as u32) << 16) | ((((v >> 24) & 0xff) as u8 as u32) << 24)
        == v) by (bit_vector);
}

/// Writing back the `u32` read from four bytes reproduces those bytes.
pub proof fn lemma_u32_bytes_round_trip(s: Seq<u8>)
    requires
        s.len() == 4,
    ensures
        spec_u32_le_bytes(spec_u32_from_le_bytes(s)) == s,
{
    let b0 = s[0];
    let b1 = s[1];
    let b2 = s[2];
    let b3 = s[3];
    assert({
        let v = (b0 as u32) | ((b1 as u32) << 8) | ((b2 as u32) << 16) | ((b3 as u32) << 24);
        (v & 0xff) as u8 == b0 && ((v >> 8) & 0xff) as u8 == b1
            && ((v >> 16) & 0xff) as u8 == b2 && ((v >> 24) & 0xff) as u8 == b3
    }) by (bit_vector);
    assert(spec_u32_le_bytes(spec_u32_from_le_bytes(s)) =~= s);
}

/// Byte size of the message header on the wire.
pub const MESSAGE_HEADER_SIZE: usize = 6;

/// Largest wire image of any message: header plus a four-byte payload.
pub const MAX_MESSAGE_SIZE: usize = 10;

/// Wire image of a payload: the operation-specific bytes that follow the
/// header.  Trivial operations carry no bytes beyond the header.
pub open spec fn spec_payload_bytes(p: TdispMessagePayload) -> Seq<u8> {
    match p {
        TdispMessagePayload::RequestGetVersion => Seq::empty(),
        TdispMessagePayload::RequestGetCapabilities => Seq::empty(),
        TdispMessagePayload::RequestLockInterface { flags } => spec_u32_le_bytes(flags),
        TdispMessagePayload::RequestGetInterfaceState => Seq::empty(),
        TdispMessagePayload::RequestStartInterface => Seq::empty(),
        TdispMessagePayload::RequestStopInterface => Seq::empty(),
        TdispMessagePayload::ResponseGetVersion { version } => seq![version],
        TdispMessagePayload::ResponseGetCapabilities { dsm_caps } => spec_u32_le_bytes(dsm_caps),
        TdispMessagePayload::ResponseLockInterface => Seq::empty(),
        TdispMessagePayload::ResponseGetInterfaceState { tdi_state } => seq![tdi_state],
        TdispMessagePayload::ResponseStartInterface => Seq::empty(),
        TdispMessagePayload::ResponseStopInterface => Seq::empty(),
        TdispMessagePayload::ResponseTdispError { error_code } => spec_u32_le_bytes(error_code),
    }
}

/// Authoritative wire layout of a whole message: version byte, message type
/// code, little-endian interface id, then the payload bytes.
pub open spec fn spec_encode_message(m: TdispMessage) -> Seq<u8> {
    seq![m.header.tdisp_version, spec_message_type_code(m.header.message_type)]
        + spec_u32_le_bytes(m.header.interface_id) + spec_payload_bytes(m.payload)
}

/// Payload read back from the bytes that follow the header.  The byte count
/// must match the operation's layout exactly; anything else is malformed.
pub open spec fn spec_decode_payload(t: TdispRequestResponseCode, body: Seq<u8>) -> Option<
    TdispMessagePayload,
> {
    match t {
        TdispRequestResponseCode::RequestGetVersion => if body.len() == 0 {
            Some(TdispMessagePayload::RequestGetVersion)
        } else {
            None
        },
        TdispRequestResponseCode::RequestGetCapabilities => if body.len() == 0 {
            Some(TdispMessagePayload::RequestGetCapabilities)
        } else {
            None
        },
        TdispRequestResponseCode::RequestLockInterface => if body.len() == 4 {
            Some(TdispMessagePayload::RequestLockInterface { flags: spec_u32_from_le_bytes(body) })
        } else {
            None
        },
        TdispRequestResponseCode::RequestGetInterfaceState => if body.len() == 0 {
            Some(TdispMessagePayload::RequestGetInterfaceState)
        } else {
            None
        },
        TdispRequestResponseCode::RequestStartInterface => if body.len() == 0 {
            Some(TdispMessagePayload::RequestStartInterface)
        } else {
            None
        },
        TdispRequestResponseCode::RequestStopInterface => if body.len() == 0 {
            Some(TdispMessagePayload::RequestStopInterface)
        } else {
            None
        },
        TdispRequestResponseCode::ResponseGetVersion => if body.len() == 1 {
            Some(TdispMessagePayload::ResponseGetVersion { version: body[0] })
        } else {
            None
        },
        TdispRequestResponseCode::ResponseGetCapabilities => if body.len() == 4 {
            Some(TdispMessagePayload::ResponseGetCapabilities { dsm_caps: spec_u32_from_le_bytes(body) })
        } else {
            None
        },
        TdispRequestResponseCode::ResponseLockInterface => if body.len() == 0 {
            Some(TdispMessagePayload::ResponseLockInterface)
        } else {
            None
        },
        TdispRequestResponseCode::ResponseGetInterfaceState => if body.len() == 1 {
            Some(TdispMessagePayload::ResponseGetInterfaceState { tdi_state: body[0] })
        } else {
            None
        },
        TdispRequestResponseCode::ResponseStartInterface => if body.len() == 0 {
            Some(TdispMessagePayload::ResponseStartInterface)
        } else {
            None
        },
        TdispRequestResponseCode::ResponseStopInterface => if body.len() == 0 {
            Some(TdispMessagePayload::ResponseStopInterface)
        } else {
            None
        },
        TdispRequestResponseCode::ResponseTdispError => if body.len() == 4 {
            Some(TdispMessagePayload::ResponseTdispError { error_code: spec_u32_from_le_bytes(body) })
        } else {
            None
        },
    }
}

/// Mathematical inverse of `spec_encode_message`: `Some` exactly on the
/// byte strings that are the encoding of a well-formed message, `None` on
/// every other byte string, of any length or content.
pub open spec fn spec_decode_message(s: Seq<u8>) -> Option<TdispMessage> {
    if s.len() < MESSAGE_HEADER_SIZE {
        None
    } else {
        match spec_message_type_of_code(s[1]) {
            None => None,
            Some(message_type) => match spec_decode_payload(
                message_type,
                s.subrange(MESSAGE_HEADER_SIZE as int, s.len() as int),
            ) {
                None => None,
                Some(payload) => Some(
                    TdispMessage {
                        header: TdispMessageHeader {
                            tdisp_version: s[0],
                            message_type,
                            interface_id: spec_u32_from_le_bytes(s.subrange(2, 6)),
                        },
                        payload,
                    },
                ),
            },
        }
    }
}

/// Appends the little-endian image of `x`.
pub fn push_u32_le(out: &mut Vec<u8>, x: u32)
    ensures
        final(out)@ == old(out)@ + spec_u32_le_bytes(x),
{
    out.push((x & 0xff) as u8);
    out.push(((x >> 8) & 0xff) as u8);
    out.push(((x >> 16) & 0xff) as u8);
    out.push(((x >> 24) & 0xff) as u8);
    assert(out@ =~= old(out)@ + spec_u32_le_bytes(x));
}

/// Reads a `u32` little-endian at `offset`.
pub fn read_u32_le(buf: &Vec<u8>, offset: usize) -> (r: u32)
    requires
        offset + 4 <= buf.len(),
    ensures
        r == spec_u32_from_le_bytes(buf@.subrange(offset as int, offset + 4)),
{
    let r = (buf[offset] as u32) | ((buf[offset + 1] as u32) << 8)
        | ((buf[offset + 2] as u32) << 16) | ((buf[offset + 3] as u32) << 24);
    assert(buf@.subrange(offset as int, offset + 4)[0] == buf@[offset as int]);
    assert(buf@.subrange(offset as int, offset + 4)[1] == buf@[offset + 1]);
    assert(buf@.subrange(offset as int, offset + 4)[2] == buf@[offset + 2]);
    assert(buf@.subrange(offset as int, offset + 4)[3] == buf@[offset + 3]);
    r
}

/// Encodes a message into a fresh byte vector, exactly as
/// `spec_encode_message` lays it out.  Encoding never fails: every message
/// value has a wire image, statically bounded in size.
pub fn encode_message(m: &TdispMessage) -> (out: Vec<u8>)
    ensures
        out@ == spec_encode_message(*m),
        out@.len() <= MAX_MESSAGE_SIZE,
{
    let mut out: Vec<u8> = Vec::new();
    out.push(m.header.tdisp_version);
    out.push(message_type_code(m.header.message_type));
    push_u32_le(&mut out, m.header.interface_id);
    match m.payload {
        TdispMessagePayload::RequestGetVersion => (),
        TdispMessagePayload::RequestGetCapabilities => (),
        TdispMessagePayload::RequestLockInterface { flags } => push_u32_le(&mut out, flags),
        TdispMessagePayload::RequestGetInterfaceState => (),
        TdispMessagePayload::RequestStartInterface => (),
        TdispMessagePayload::RequestStopInterface => (),
        TdispMessagePayload::ResponseGetVersion { version } => out.push(version),
        TdispMessagePayload::ResponseGetCapabilities { dsm_caps } => push_u32_le(&mut out, dsm_caps),
        TdispMessagePayload::ResponseLockInterface => (),
        TdispMessagePayload::ResponseGetInterfaceState { tdi_state } => out.push(tdi_state),
        TdispMessagePayload::ResponseStartInterface => (),
        TdispMessagePayload::ResponseStopInterface => (),
        TdispMessagePayload::ResponseTdispError { error_code } => push_u32_le(&mut out, error_code),
    }
    assert(out@ =~= spec_encode_message(*m));
    out
}

/// Decodes the first `len` bytes of `buf`, exactly as
/// `spec_decode_message` reads them.  Total and non-panicking: truncated,
/// malformed or unrecognized-type input yields `None` and the buffer is
/// never mutated or partially consumed.
pub fn decode_message(buf: &Vec<u8>, len: usize) -> (r: Option<TdispMessage>)
    requires
        len <= buf.len(),
    ensures
        r == spec_decode_message(buf@.subrange(0, len as int)),
{
    let ghost s = buf@.subrange(0, len as int);
    if len < MESSAGE_HEADER_SIZE {
        return None;
    }
    let tdisp_version = buf[0];
    let type_code = buf[1];
    match message_type_of_code(type_code) {
        None => None,
        Some(message_type) => {
            let interface_id = read_u32_le(buf, 2);
            proof {
                assert(s.subrange(2, 6) =~= buf@.subrange(2, 6));
            }
            let body_len = len - MESSAGE_HEADER_SIZE;
            let ghost body = s.subrange(MESSAGE_HEADER_SIZE as int, len as int);
            proof {
                assert(body.len() == body_len);
                assert(forall|j: int| 0 <= j < body.len() ==> body[j] == buf@[6 + j]);
            }
            let payload_opt: Option<TdispMessagePayload> = match message_type {
                TdispRequestResponseCode::RequestGetVersion => if body_len == 0 {
                    Some(TdispMessagePayload::RequestGetVersion)
                } else {
                    None
                },
                TdispRequestResponseCode::RequestGetCapabilities => if body_len == 0 {
                    Some(TdispMessagePayload::RequestGetCapabilities)
                } else {
                    None
                },
                TdispRequestResponseCode::RequestLockInterface => if body_len == 4 {
                    let flags = read_u32_le(buf, 6);
                    proof {
                        assert(body =~= buf@.subrange(6, 10));
                    }
                    Some(TdispMessagePayload::RequestLockInterface { flags })
                } else {
                    None
                },
                TdispRequestResponseCode::RequestGetInterfaceState => if body_len == 0 {
                    Some(TdispMessagePayload::RequestGetInterfaceState)
                } else {
                    None
                },
                TdispRequestResponseCode::RequestStartInterface => if body_len == 0 {
                    Some(TdispMessagePayload::RequestStartInterface)
                } else {
                    None
                },
                TdispRequestResponseCode::RequestStopInterface => if body_len == 0 {
                    Some(TdispMessagePayload::RequestStopInterface)
                } else {
                    None
                },
                TdispRequestResponseCode::ResponseGetVersion => if body_len == 1 {
                    Some(TdispMessagePayload::ResponseGetVersion { version: buf[6] })
                } else {
                    None
                },
                TdispRequestResponseCode::ResponseGetCapabilities => if body_len == 4 {
                    let dsm_caps = read_u32_le(buf, 6);
                    proof {
                        assert(body =~= buf@.subrange(6, 10));
                    }
                    Some(TdispMessagePayload::ResponseGetCapabilities { dsm_caps })
                } else {
                    None
                },
                TdispRequestResponseCode::ResponseLockInterface => if body_len == 0 {
                    Some(TdispMessagePayload::ResponseLockInterface)
                } else {
                    None
                },
                TdispRequestResponseCode::ResponseGetInterfaceState => if body_len == 1 {
                    Some(TdispMessagePayload::ResponseGetInterfaceState { tdi_state: buf[6] })
                } else {
                    None
                },
                TdispRequestResponseCode::ResponseStartInterface => if body_len == 0 {
                    Some(TdispMessagePayload::ResponseStartInterface)
                } else {
                    None
                },
                TdispRequestResponseCode::ResponseStopInterface => if body_len == 0 {
                    Some(TdispMessagePayload::ResponseStopInterface)
                } else {
                    None
                },
                TdispRequestResponseCode::ResponseTdispError => if body_len == 4 {
                    let error_code = read_u32_le(buf, 6);
                    proof {
                        assert(body =~= buf@.subrange(6, 10));
                    }
                    Some(TdispMessagePayload::ResponseTdispError { error_code })
                } else {
                    None
                },
            };
            match payload_opt {
                None => None,
                Some(payload) => Some(
                    TdispMessage {
                        header: TdispMessageHeader { tdisp_version, message_type, interface_id },
                        payload,
                    },
                ),
            }
        },
    }
}

/// Round trip one way: decoding the encoding of any well-formed message
/// gives that message back.
pub proof fn lemma_decode_encode(m: TdispMessage)
    requires
        m.wf(),
    ensures
        spec_decode_message(spec_encode_message(m)) == Some(m),
{
    let s = spec_encode_message(m);
    assert(s.len() >= MESSAGE_HEADER_SIZE);
    assert(s[0] == m.header.tdisp_version);
    assert(s[1] == spec_message_type_code(m.header.message_type));
    assert(spec_message_type_of_code(spec_message_type_code(m.header.message_type))
        == Some(m.header.message_type));
    assert(s.subrange(2, 6) =~= spec_u32_le_bytes(m.header.interface_id));
    lemma_u32_le_round_trip(m.header.interface_id);
    let body = s.subrange(MESSAGE_HEADER_SIZE as int, s.len() as int);
    assert(body =~= spec_payload_bytes(m.payload));
    match m.payload {
        TdispMessagePayload::RequestLockInterface { flags } => lemma_u32_le_round_trip(flags),
        TdispMessagePayload::ResponseGetCapabilities { dsm_caps } => lemma_u32_le_round_trip(dsm_caps),
        TdispMessagePayload::ResponseTdispError { error_code } => lemma_u32_le_round_trip(error_code),
        _ => (),
    }
    assert(spec_decode_payload(m.header.message_type, body) == Some(m.payload));
}

/// Round trip the other way: any byte string that decodes at all is
/// byte-for-byte the encoding of the well-formed message it decodes to, so
/// re-encoding a decoded message reproduces the original bytes exactly.
pub proof fn lemma_encode_decode(s: Seq<u8>, m: TdispMessage)
    requires
        spec_decode_message(s) == Some(m),
    ensures
        m.wf(),
        spec_encode_message(m) == s,
{
    let body = s.subrange(MESSAGE_HEADER_SIZE as int, s.len() as int);
    assert(spec_message_type_of_code(s[1]) == Some(m.header.message_type));
    assert(spec_message_type_code(m.header.message_type) == s[1]);
    assert(spec_decode_payload(m.header.message_type, body) == Some(m.payload));
    lemma_u32_bytes_round_trip(s.subrange(2, 6));
    match m.payload {
        TdispMessagePayload::RequestLockInterface { .. } => lemma_u32_bytes_round_trip(body),
        TdispMessagePayload::ResponseGetCapabilities { .. } => lemma_u32_bytes_round_trip(body),
        TdispMessagePayload::ResponseTdispError { .. } => lemma_u32_bytes_round_trip(body),
        _ => (),
    }
    assert(spec_payload_bytes(m.payload) =~= body);
    assert(spec_encode_message(m) =~= s);
}

} // verus!
