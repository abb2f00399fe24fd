//! Fixed-capacity vendor-defined payload buffers.
//!
//! The transport tunnels each TDISP message inside an opaque vendor-defined
//! payload: a buffer of fixed capacity plus an explicit used-length field.
//! Bytes past the used length are unspecified padding and are never
//! interpreted.

use vstd::prelude::*;

use crate::codec::MAX_MESSAGE_SIZE;
use crate::codec::TdispMessage;
use crate::codec::encode_message;
use crate::codec::spec_encode_message;

verus! {

/// Capacity of a vendor-defined payload buffer, the maximum the transport
/// will carry.
pub const MAX_VENDOR_DEFINED_PAYLOAD_SIZE: usize = 4096;

/// One incoming opaque request payload.
pub struct VendorDefinedReqPayloadStruct {
    /// How many leading bytes of the buffer are meaningful.
    pub req_length: u16,
    /// The fixed-capacity buffer itself.
    pub vendor_defined_req_payload: Vec<u8>,
}

impl VendorDefinedReqPayloadStruct {
    /// The buffer has its full fixed capacity and the declared length
    /// stays inside it.
    pub open spec fn wf(self) -> bool {
        &&& self.vendor_defined_req_payload.len() == MAX_VENDOR_DEFINED_PAYLOAD_SIZE
        &&& self.req_length <= MAX_VENDOR_DEFINED_PAYLOAD_SIZE
    }

    /// The meaningful bytes: the declared-length prefix of the buffer.
    pub open spec fn message_bytes(self) -> Seq<u8> {
        self.vendor_defined_req_payload@.subrange(0, self.req_length as int)
    }

    /// Wraps `bytes` as a request payload: the prefix carries them and the
    /// rest of the capacity is zero padding.
    pub fn from_bytes(bytes: &Vec<u8>) -> (req: VendorDefinedReqPayloadStruct)
        requires
            bytes.len() <= MAX_VENDOR_DEFINED_PAYLOAD_SIZE,
        ensures
            req.wf(),
            req.req_length == bytes.len(),
            req.message_bytes() == bytes@,
    {
        let req_length = bytes.len() as u16;
        let mut buf: Vec<u8> = Vec::new();
        let mut i: usize = 0;
        while i < bytes.len()
            invariant
                i <= bytes.len(),
                buf@ == bytes@.subrange(0, i as int),
            decreases bytes.len() - i,
        {
            buf.push(bytes[i]);
            proof {
                assert(buf@ =~= bytes@.subrange(0, i + 1));
            }
            i = i + 1;
        }
        proof {
            assert(buf@ =~= bytes@);
        }
        while buf.len() < MAX_VENDOR_DEFINED_PAYLOAD_SIZE
            invariant
                bytes.len() <= buf.len() <= MAX_VENDOR_DEFINED_PAYLOAD_SIZE,
                buf@.subrange(0, bytes.len() as int) == bytes@,
            decreases MAX_VENDOR_DEFINED_PAYLOAD_SIZE - buf.len(),
        {
            let ghost pre = buf@;
            buf.push(0);
            proof {
                assert(buf@.subrange(0, bytes.len() as int)
                    =~= pre.subrange(0, bytes.len() as int));
            }
        }
        let req = VendorDefinedReqPayloadStruct { req_length, vendor_defined_req_payload: buf };
        proof {
            assert(req.message_bytes() =~= bytes@);
        }
        req
    }
}

/// One outgoing opaque response payload.
pub struct VendorDefinedRspPayloadStruct {
    /// How many leading bytes of the buffer are meaningful; the transport
    /// sends exactly that many.
    pub rsp_length: u16,
    /// The fixed-capacity buffer itself.
    pub vendor_defined_rsp_payload: Vec<u8>,
}

impl VendorDefinedRspPayloadStruct {
    /// The buffer has its full fixed capacity and the declared length
    /// stays inside it.
    pub open spec fn wf(self) -> bool {
        &&& self.vendor_defined_rsp_payload.len() == MAX_VENDOR_DEFINED_PAYLOAD_SIZE
        &&& self.rsp_length <= MAX_VENDOR_DEFINED_PAYLOAD_SIZE
    }

    /// The meaningful bytes: the declared-length prefix of the buffer.
    pub open spec fn message_bytes(self) -> Seq<u8> {
        self.vendor_defined_rsp_payload@.subrange(0, self.rsp_length as int)
    }
}

/// Encodes one message into a response payload, recording its exact wire
/// size as the used length and zero-padding the rest of the capacity.
/// Encoding always succeeds: every message's wire image is statically
/// bounded well under the transport capacity.
pub fn encode_into_rsp_payload(m: &TdispMessage) -> (rsp: VendorDefinedRspPayloadStruct)
    ensures
        rsp.wf(),
        rsp.rsp_length == spec_encode_message(*m).len(),
        rsp.message_bytes() == spec_encode_message(*m),
{
    let mut buf = encode_message(m);
    assert(buf.len() <= MAX_MESSAGE_SIZE);
    let rsp_length = buf.len() as u16;
    assert(buf@.subrange(0, rsp_length as int) =~= spec_encode_message(*m));
    while buf.len() < MAX_VENDOR_DEFINED_PAYLOAD_SIZE
        invariant
            rsp_length <= buf.len() <= MAX_VENDOR_DEFINED_PAYLOAD_SIZE,
            buf@.subrange(0, rsp_length as int) == spec_encode_message(*m),
        decreases MAX_VENDOR_DEFINED_PAYLOAD_SIZE - buf.len(),
    {
        let ghost pre = buf@;
        buf.push(0);
        proof {
            assert(buf@.subrange(0, rsp_length as int)
                =~= pre.subrange(0, rsp_length as int));
        }
    }
    let rsp = VendorDefinedRspPayloadStruct { rsp_length, vendor_defined_rsp_payload: buf };
    proof {
        assert(rsp.message_bytes() =~= spec_encode_message(*m));
    }
    rsp
}

} // verus!
