//! The TDISP responder: security precondition checks, one operation
//! handler per request message type, the shared error-response helper and
//! the dispatcher.
//!
//! Every handler follows the same contract: decode the raw vendor-defined
//! request, run the security checks (header version, interface ownership,
//! state eligibility), perform the operation's side effect and transition,
//! and encode either the paired response or a TDISP error message.  The
//! whole outcome of each handler — the responder's next state and the
//! exact response bytes — is pinned down by the `spec_handle_*` step
//! functions below, and the dispatcher always returns a well-formed
//! payload: a malformed request still receives a well-formed error
//! response, never a fault.

use vstd::prelude::*;

use crate::buffers::VendorDefinedReqPayloadStruct;
use crate::buffers::VendorDefinedRspPayloadStruct;
use crate::buffers::encode_into_rsp_payload;
use crate::codec::TdispMessage;
use crate::codec::TdispMessageHeader;
use crate::codec::TdispMessagePayload;
use crate::codec::TdispRequestResponseCode;
use crate::codec::decode_message;
use crate::codec::spec_decode_message;
use crate::codec::spec_encode_message;
use crate::config::ConfigurationStore;
use crate::state::TdispOperation;
use crate::state::TdispState;
use crate::state::TdispStateMachine;
use crate::state::spec_operation_allowed;
use crate::state::spec_state_code;

verus! {

/// Error codes of the TDISP error response.  The wire values are part of
/// the protocol contract and must stay stable across implementations.
#[derive(Clone, Copy, PartialEq, Eq, Structural, Debug)]
pub enum TdispErrorCode {
    /// Malformed, truncated, unrecognized or version-mismatched request.
    InvalidRequest,
    /// The current lifecycle state does not permit the operation.
    InvalidInterfaceState,
    /// The request targets an interface this responder does not host.
    UnspecifiedInterfaceId,
    /// The configuration backend failed or the configuration is invalid.
    InvalidDeviceConfiguration,
}

/// Wire value of each error code.
pub open spec fn spec_error_code_u32(e: TdispErrorCode) -> u32 {
    match e {
        TdispErrorCode::InvalidRequest => 0x01,
        TdispErrorCode::InvalidInterfaceState => 0x04,
        TdispErrorCode::UnspecifiedInterfaceId => 0x101,
        TdispErrorCode::InvalidDeviceConfiguration => 0x104,
    }
}

/// Executable twin of `spec_error_code_u32`.
pub fn error_code_u32(e: TdispErrorCode) -> (c: u32)
    ensures
        c == spec_error_code_u32(e),
{
    match e {
        TdispErrorCode::InvalidRequest => 0x01,
        TdispErrorCode::InvalidInterfaceState => 0x04,
        TdispErrorCode::UnspecifiedInterfaceId => 0x101,
        TdispErrorCode::InvalidDeviceConfiguration => 0x104,
    }
}

/// Responder instance for one TDI: its negotiated version, the interface
/// id it owns, its capability bitmap, and the exclusively owned state
/// machine and configuration store.
#[derive(Clone, Copy, PartialEq, Eq, Structural, Debug)]
pub struct TdispResponder {
    /// Protocol version negotiated for this association.
    pub version_sel: u8,
    /// The one interface id this responder instance governs.
    pub tdi: u32,
    /// Capability bitmap reported by Get Capabilities.
    pub dsm_caps: u32,
    /// Lifecycle state machine of the TDI.
    pub state_machine: TdispStateMachine,
    /// Device configuration bound to the TDI.
    pub configuration: ConfigurationStore,
}

impl TdispResponder {
    /// Consistency of responder state.  The first clause is the security
    /// heart of the protocol: configuration is never modifiable while
    /// confidential secrets are still resident.  The rest tie the
    /// lifecycle state to the lock bit on every state but the `Error`
    /// sink.
    pub open spec fn wf(self) -> bool {
        &&& (self.configuration.unlocked ==> self.configuration.confidential_erased)
        &&& (self.state_machine.state == TdispState::ConfigUnlocked
            ==> self.configuration.unlocked)
        &&& (self.state_machine.state == TdispState::ConfigLocked
            ==> !self.configuration.unlocked)
        &&& (self.state_machine.state == TdispState::Run ==> !self.configuration.unlocked)
    }

    /// Associates a fresh TDI with a responder: state `ConfigUnlocked`,
    /// configuration unlocked, no secrets resident, healthy backend.
    pub fn new(version_sel: u8, tdi: u32, dsm_caps: u32) -> (r: TdispResponder)
        ensures
            r.wf(),
            r.version_sel == version_sel,
            r.tdi == tdi,
            r.dsm_caps == dsm_caps,
            r.state_machine.state == TdispState::ConfigUnlocked,
            r.configuration == (ConfigurationStore {
                unlocked: true,
                confidential_erased: true,
                config_valid: true,
                lock_backend_ok: true,
                unlock_backend_ok: true,
                erase_backend_ok: true,
            }),
    {
        TdispResponder {
            version_sel,
            tdi,
            dsm_caps,
            state_machine: TdispStateMachine::new(),
            configuration: ConfigurationStore::new(),
        }
    }
}

/// Header every response of this responder carries: its negotiated
/// version, the response's message type, and the owned interface id.
pub open spec fn spec_response_header(r: TdispResponder, t: TdispRequestResponseCode) -> TdispMessageHeader {
    TdispMessageHeader { tdisp_version: r.version_sel, message_type: t, interface_id: r.tdi }
}

/// The error response the responder emits for `e`, from its own
/// last-known-good version and interface id.
pub open spec fn spec_error_response(r: TdispResponder, e: TdispErrorCode) -> TdispMessage {
    TdispMessage {
        header: spec_response_header(r, TdispRequestResponseCode::ResponseTdispError),
        payload: TdispMessagePayload::ResponseTdispError { error_code: spec_error_code_u32(e) },
    }
}

/// The operation a request payload asks for; `None` for a payload that is
/// not a request.
pub open spec fn spec_operation_of(p: TdispMessagePayload) -> Option<TdispOperation> {
    match p {
        TdispMessagePayload::RequestGetVersion => Some(TdispOperation::GetVersion),
        TdispMessagePayload::RequestGetCapabilities => Some(TdispOperation::GetCapabilities),
        TdispMessagePayload::RequestLockInterface { .. } => Some(TdispOperation::LockInterface),
        TdispMessagePayload::RequestGetInterfaceState => Some(TdispOperation::GetInterfaceState),
        TdispMessagePayload::RequestStartInterface => Some(TdispOperation::StartInterface),
        TdispMessagePayload::RequestStopInterface => Some(TdispOperation::StopInterface),
        _ => None,
    }
}

/// The security precondition checks every handler runs before any
/// mutation, in order: header version, interface ownership, payload
/// matching the handler's operation, state eligibility.  `None` means the
/// request passed; `Some(e)` is the error it short-circuits to.
pub open spec fn spec_validate_request(
    r: TdispResponder,
    m: TdispMessage,
    op: TdispOperation,
) -> Option<TdispErrorCode> {
    if m.header.tdisp_version != r.version_sel {
        Some(TdispErrorCode::InvalidRequest)
    } else if m.header.interface_id != r.tdi {
        Some(TdispErrorCode::UnspecifiedInterfaceId)
    } else if spec_operation_of(m.payload) != Some(op) {
        Some(TdispErrorCode::InvalidRequest)
    } else if !spec_operation_allowed(r.state_machine.state, op) {
        Some(TdispErrorCode::InvalidInterfaceState)
    } else {
        None
    }
}

/// Outcome of Lock Interface once the security checks passed: the
/// configuration must validate and the backend lock must succeed, else
/// the invalid-device-configuration error with nothing mutated.
pub open spec fn spec_lock_interface_effect(r: TdispResponder) -> (TdispResponder, TdispMessage)
    recommends
        spec_operation_allowed(r.state_machine.state, TdispOperation::LockInterface),
{
    if !r.configuration.config_valid {
        (r, spec_error_response(r, TdispErrorCode::InvalidDeviceConfiguration))
    } else if !r.configuration.lock_backend_ok {
        (r, spec_error_response(r, TdispErrorCode::InvalidDeviceConfiguration))
    } else {
        (
            TdispResponder {
                state_machine: TdispStateMachine { state: TdispState::ConfigLocked },
                configuration: ConfigurationStore { unlocked: false, ..r.configuration },
                ..r
            },
            TdispMessage {
                header: spec_response_header(r, TdispRequestResponseCode::ResponseLockInterface),
                payload: TdispMessagePayload::ResponseLockInterface,
            },
        )
    }
}

/// Outcome of Start Interface once the security checks passed: fresh
/// confidential material is bound to the locked configuration and the TDI
/// enters `Run`.  (Report generation and attestation are accepted by the
/// external requester before it sends this request.)
pub open spec fn spec_start_interface_effect(r: TdispResponder) -> (TdispResponder, TdispMessage)
    recommends
        spec_operation_allowed(r.state_machine.state, TdispOperation::StartInterface),
{
    (
        TdispResponder {
            state_machine: TdispStateMachine { state: TdispState::Run },
            configuration: ConfigurationStore { confidential_erased: false, ..r.configuration },
            ..r
        },
        TdispMessage {
            header: spec_response_header(r, TdispRequestResponseCode::ResponseStartInterface),
            payload: TdispMessagePayload::ResponseStartInterface,
        },
    )
}

/// Outcome of Stop Interface once the security checks passed: scrub the
/// confidential configuration, then unlock, then transition to
/// `ConfigUnlocked` — in that order, and only if every sub-step succeeds.
/// If the scrub fails nothing is mutated; if the scrub succeeds but the
/// unlock fails the secrets stay scrubbed, the configuration stays locked
/// and no transition is committed.  Both failures surface as the
/// invalid-device-configuration error.
pub open spec fn spec_stop_interface_effect(r: TdispResponder) -> (TdispResponder, TdispMessage)
    recommends
        spec_operation_allowed(r.state_machine.state, TdispOperation::StopInterface),
{
    if !r.configuration.erase_backend_ok {
        (r, spec_error_response(r, TdispErrorCode::InvalidDeviceConfiguration))
    } else if !r.configuration.unlock_backend_ok {
        (
            TdispResponder {
                configuration: ConfigurationStore { confidential_erased: true, ..r.configuration },
                ..r
            },
            spec_error_response(r, TdispErrorCode::InvalidDeviceConfiguration),
        )
    } else {
        (
            TdispResponder {
                state_machine: TdispStateMachine { state: TdispState::ConfigUnlocked },
                configuration: ConfigurationStore {
                    unlocked: true,
                    confidential_erased: true,
                    ..r.configuration
                },
                ..r
            },
            TdispMessage {
                header: spec_response_header(r, TdispRequestResponseCode::ResponseStopInterface),
                payload: TdispMessagePayload::ResponseStopInterface,
            },
        )
    }
}

/// Outcome of an operation once the security checks passed: the queries
/// answer from current state and mutate nothing, the lifecycle operations
/// have their own effects.
pub open spec fn spec_operation_effect(r: TdispResponder, op: TdispOperation) -> (
    TdispResponder,
    TdispMessage,
)
    recommends
        spec_operation_allowed(r.state_machine.state, op),
{
    match op {
        TdispOperation::GetVersion => (
            r,
            TdispMessage {
                header: spec_response_header(r, TdispRequestResponseCode::ResponseGetVersion),
                payload: TdispMessagePayload::ResponseGetVersion { version: r.version_sel },
            },
        ),
        TdispOperation::GetCapabilities => (
            r,
            TdispMessage {
                header: spec_response_header(r, TdispRequestResponseCode::ResponseGetCapabilities),
                payload: TdispMessagePayload::ResponseGetCapabilities { dsm_caps: r.dsm_caps },
            },
        ),
        TdispOperation::GetInterfaceState => (
            r,
            TdispMessage {
                header: spec_response_header(
                    r,
                    TdispRequestResponseCode::ResponseGetInterfaceState,
                ),
                payload: TdispMessagePayload::ResponseGetInterfaceState {
                    tdi_state: spec_state_code(r.state_machine.state),
                },
            },
        ),
        TdispOperation::LockInterface => spec_lock_interface_effect(r),
        TdispOperation::StartInterface => spec_start_interface_effect(r),
        TdispOperation::StopInterface => spec_stop_interface_effect(r),
    }
}

/// Whole outcome of one handler on the raw request bytes: next responder
/// state and the message answered.  Decode failure short-circuits to the
/// invalid-request error; a failed security check to its error; otherwise
/// the operation's effect runs.
pub open spec fn spec_handle_operation_request(
    r: TdispResponder,
    s: Seq<u8>,
    op: TdispOperation,
) -> (TdispResponder, TdispMessage) {
    match spec_decode_message(s) {
        None => (r, spec_error_response(r, TdispErrorCode::InvalidRequest)),
        Some(m) => match spec_validate_request(r, m, op) {
            Some(e) => (r, spec_error_response(r, e)),
            None => spec_operation_effect(r, op),
        },
    }
}

/// Whole outcome of the dispatcher on the raw request bytes: route by the
/// decoded message type to the matching operation; a payload that is not
/// a request earns the invalid-request error (after the ownership check,
/// so probing cannot tell operations apart on a foreign interface id).
pub open spec fn spec_handle_request(r: TdispResponder, s: Seq<u8>) -> (
    TdispResponder,
    TdispMessage,
) {
    match spec_decode_message(s) {
        None => (r, spec_error_response(r, TdispErrorCode::InvalidRequest)),
        Some(m) => match spec_operation_of(m.payload) {
            Some(op) => match spec_validate_request(r, m, op) {
                Some(e) => (r, spec_error_response(r, e)),
                None => spec_operation_effect(r, op),
            },
            None => if m.header.tdisp_version != r.version_sel {
                (r, spec_error_response(r, TdispErrorCode::InvalidRequest))
            } else if m.header.interface_id != r.tdi {
                (r, spec_error_response(r, TdispErrorCode::UnspecifiedInterfaceId))
            } else {
                (r, spec_error_response(r, TdispErrorCode::InvalidRequest))
            },
        },
    }
}

/// What every handler promises: the responder steps exactly to the step
/// function's next state, and the response payload carries exactly the
/// encoding of the step function's message, with `rsp_length` recording
/// its wire size.
pub open spec fn spec_handler_contract(
    pre: TdispResponder,
    post: TdispResponder,
    s: Seq<u8>,
    rsp: VendorDefinedRspPayloadStruct,
    op: TdispOperation,
) -> bool {
    let step = spec_handle_operation_request(pre, s, op);
    &&& post == step.0
    &&& rsp.wf()
    &&& rsp.message_bytes() == spec_encode_message(step.1)
    &&& rsp.rsp_length == spec_encode_message(step.1).len()
}

impl TdispResponder {
    /// Executable twin of `spec_operation_of`.
    pub fn operation_of(p: &TdispMessagePayload) -> (op: Option<TdispOperation>)
        ensures
            op == spec_operation_of(*p),
    {
        match p {
            TdispMessagePayload::RequestGetVersion => Some(TdispOperation::GetVersion),
            TdispMessagePayload::RequestGetCapabilities => Some(TdispOperation::GetCapabilities),
            TdispMessagePayload::RequestLockInterface { .. } => Some(TdispOperation::LockInterface),
            TdispMessagePayload::RequestGetInterfaceState => Some(
                TdispOperation::GetInterfaceState,
            ),
            TdispMessagePayload::RequestStartInterface => Some(TdispOperation::StartInterface),
            TdispMessagePayload::RequestStopInterface => Some(TdispOperation::StopInterface),
            _ => None,
        }
    }

    /// Runs the security precondition checks of `spec_validate_request`,
    /// mutating nothing.
    pub fn validate_request(&self, m: &TdispMessage, op: TdispOperation) -> (r: Option<
        TdispErrorCode,
    >)
        ensures
            r == spec_validate_request(*self, *m, op),
    {
        if m.header.tdisp_version != self.version_sel {
            Some(TdispErrorCode::InvalidRequest)
        } else if m.header.interface_id != self.tdi {
            Some(TdispErrorCode::UnspecifiedInterfaceId)
        } else {
            let matches_op = match Self::operation_of(&m.payload) {
                Some(p_op) => p_op == op,
                None => false,
            };
            if !matches_op {
                Some(TdispErrorCode::InvalidRequest)
            } else if !self.state_machine.operation_allowed(op) {
                Some(TdispErrorCode::InvalidInterfaceState)
            } else {
                None
            }
        }
    }

    /// Encodes the TDISP error response for `error_code`, shared by the
    /// dispatcher and every handler so the error wire format is produced
    /// in exactly one place.
    pub fn handle_tdisp_error(&self, error_code: TdispErrorCode) -> (rsp: VendorDefinedRspPayloadStruct)
        ensures
            rsp.wf(),
            rsp.message_bytes() == spec_encode_message(spec_error_response(*self, error_code)),
            rsp.rsp_length == spec_encode_message(spec_error_response(*self, error_code)).len(),
    {
        let msg = TdispMessage {
            header: TdispMessageHeader {
                tdisp_version: self.version_sel,
                message_type: TdispRequestResponseCode::ResponseTdispError,
                interface_id: self.tdi,
            },
            payload: TdispMessagePayload::ResponseTdispError {
                error_code: error_code_u32(error_code),
            },
        };
        encode_into_rsp_payload(&msg)
    }

    /// Handles a Stop Interface request: after the security checks, erase
    /// the confidential configuration, then unlock the non-confidential
    /// configuration, then transition to `ConfigUnlocked` — each sub-step
    /// checked, any failure surfacing as the invalid-device-configuration
    /// error with no state transition committed.
    pub fn handle_stop_interface_request(
        &mut self,
        vendor_defined_req_payload_struct: &VendorDefinedReqPayloadStruct,
    ) -> (rsp: VendorDefinedRspPayloadStruct)
        requires
            old(self).wf(),
            vendor_defined_req_payload_struct.wf(),
        ensures
            final(self).wf(),
            spec_handler_contract(
                *old(self),
                *final(self),
                vendor_defined_req_payload_struct.message_bytes(),
                rsp,
                TdispOperation::StopInterface,
            ),
    {
        let m_opt = decode_message(
            &vendor_defined_req_payload_struct.vendor_defined_req_payload,
            vendor_defined_req_payload_struct.req_length as usize,
        );
        match m_opt {
            None => self.handle_tdisp_error(TdispErrorCode::InvalidRequest),
            Some(m) => match self.validate_request(&m, TdispOperation::StopInterface) {
                Some(e) => self.handle_tdisp_error(e),
                None => match self.configuration.erase_confidential_config() {
                    Err(_) => self.handle_tdisp_error(TdispErrorCode::InvalidDeviceConfiguration),
                    Ok(()) => match self.configuration.unlock_config() {
                        Err(_) => self.handle_tdisp_error(
                            TdispErrorCode::InvalidDeviceConfiguration,
                        ),
                        Ok(()) => {
                            self.state_machine.to_state_config_unlocked();
                            let msg = TdispMessage {
                                header: TdispMessageHeader {
                                    tdisp_version: self.version_sel,
                                    message_type: TdispRequestResponseCode::ResponseStopInterface,
                                    interface_id: self.tdi,
                                },
                                payload: TdispMessagePayload::ResponseStopInterface,
                            };
                            encode_into_rsp_payload(&msg)
                        },
                    },
                },
            },
        }
    }
    /// Handles a Get Version request: reports the one protocol version
    /// this responder speaks.  Mutates nothing.
    pub fn handle_get_version_request(
        &mut self,
        vendor_defined_req_payload_struct: &VendorDefinedReqPayloadStruct,
    ) -> (rsp: VendorDefinedRspPayloadStruct)
        requires
            old(self).wf(),
            vendor_defined_req_payload_struct.wf(),
        ensures
            final(self).wf(),
            spec_handler_contract(
                *old(self),
                *final(self),
                vendor_defined_req_payload_struct.message_bytes(),
                rsp,
                TdispOperation::GetVersion,
            ),
    {
        let m_opt = decode_message(
            &vendor_defined_req_payload_struct.vendor_defined_req_payload,
            vendor_defined_req_payload_struct.req_length as usize,
        );
        match m_opt {
            None => self.handle_tdisp_error(TdispErrorCode::InvalidRequest),
            Some(m) => match self.validate_request(&m, TdispOperation::GetVersion) {
                Some(e) => self.handle_tdisp_error(e),
                None => {
                    let msg = TdispMessage {
                        header: TdispMessageHeader {
                            tdisp_version: self.version_sel,
                            message_type: TdispRequestResponseCode::ResponseGetVersion,
                            interface_id: self.tdi,
                        },
                        payload: TdispMessagePayload::ResponseGetVersion {
                            version: self.version_sel,
                        },
                    };
                    encode_into_rsp_payload(&msg)
                },
            },
        }
    }

    /// Handles a Get Capabilities request: reports the device security
    /// manager's capability bitmap.  Mutates nothing.
    pub fn handle_get_capabilities_request(
        &mut self,
        vendor_defined_req_payload_struct: &VendorDefinedReqPayloadStruct,
    ) -> (rsp: VendorDefinedRspPayloadStruct)
        requires
            old(self).wf(),
            vendor_defined_req_payload_struct.wf(),
        ensures
            final(self).wf(),
            spec_handler_contract(
                *old(self),
                *final(self),
                vendor_defined_req_payload_struct.message_bytes(),
                rsp,
                TdispOperation::GetCapabilities,
            ),
    {
        let m_opt = decode_message(
            &vendor_defined_req_payload_struct.vendor_defined_req_payload,
            vendor_defined_req_payload_struct.req_length as usize,
        );
        match m_opt {
            None => self.handle_tdisp_error(TdispErrorCode::InvalidRequest),
            Some(m) => match self.validate_request(&m, TdispOperation::GetCapabilities) {
                Some(e) => self.handle_tdisp_error(e),
                None => {
                    let msg = TdispMessage {
                        header: TdispMessageHeader {
                            tdisp_version: self.version_sel,
                            message_type: TdispRequestResponseCode::ResponseGetCapabilities,
                            interface_id: self.tdi,
                        },
                        payload: TdispMessagePayload::ResponseGetCapabilities {
                            dsm_caps: self.dsm_caps,
                        },
                    };
                    encode_into_rsp_payload(&msg)
                },
            },
        }
    }

    /// Handles a Get Interface State request: reports the current
    /// lifecycle state's wire code.  Mutates nothing.
    pub fn handle_get_interface_state_request(
        &mut self,
        vendor_defined_req_payload_struct: &VendorDefinedReqPayloadStruct,
    ) -> (rsp: VendorDefinedRspPayloadStruct)
        requires
            old(self).wf(),
            vendor_defined_req_payload_struct.wf(),
        ensures
            final(self).wf(),
            spec_handler_contract(
                *old(self),
                *final(self),
                vendor_defined_req_payload_struct.message_bytes(),
                rsp,
                TdispOperation::GetInterfaceState,
            ),
    {
        let m_opt = decode_message(
            &vendor_defined_req_payload_struct.vendor_defined_req_payload,
            vendor_defined_req_payload_struct.req_length as usize,
        );
        match m_opt {
            None => self.handle_tdisp_error(TdispErrorCode::InvalidRequest),
            Some(m) => match self.validate_request(&m, TdispOperation::GetInterfaceState) {
                Some(e) => self.handle_tdisp_error(e),
                None => {
                    let tdi_state = self.state_machine.state_code();
                    let msg = TdispMessage {
                        header: TdispMessageHeader {
                            tdisp_version: self.version_sel,
                            message_type: TdispRequestResponseCode::ResponseGetInterfaceState,
                            interface_id: self.tdi,
                        },
                        payload: TdispMessagePayload::ResponseGetInterfaceState { tdi_state },
                    };
                    encode_into_rsp_payload(&msg)
                },
            },
        }
    }

    /// Handles a Lock Interface request: after the security checks, the
    /// configuration must validate and the backend must lock it; then the
    /// TDI transitions to `ConfigLocked`.  Either failure surfaces as the
    /// invalid-device-configuration error with nothing mutated.
    pub fn handle_lock_interface_request(
        &mut self,
        vendor_defined_req_payload_struct: &VendorDefinedReqPayloadStruct,
    ) -> (rsp: VendorDefinedRspPayloadStruct)
        requires
            old(self).wf(),
            vendor_defined_req_payload_struct.wf(),
        ensures
            final(self).wf(),
            spec_handler_contract(
                *old(self),
                *final(self),
                vendor_defined_req_payload_struct.message_bytes(),
                rsp,
                TdispOperation::LockInterface,
            ),
    {
        let m_opt = decode_message(
            &vendor_defined_req_payload_struct.vendor_defined_req_payload,
            vendor_defined_req_payload_struct.req_length as usize,
        );
        match m_opt {
            None => self.handle_tdisp_error(TdispErrorCode::InvalidRequest),
            Some(m) => match self.validate_request(&m, TdispOperation::LockInterface) {
                Some(e) => self.handle_tdisp_error(e),
                None => match self.configuration.validate() {
                    Err(_) => self.handle_tdisp_error(TdispErrorCode::InvalidDeviceConfiguration),
                    Ok(()) => match self.configuration.lock_config() {
                        Err(_) => self.handle_tdisp_error(
                            TdispErrorCode::InvalidDeviceConfiguration,
                        ),
                        Ok(()) => {
                            self.state_machine.to_state_config_locked();
                            let msg = TdispMessage {
                                header: TdispMessageHeader {
                                    tdisp_version: self.version_sel,
                                    message_type: TdispRequestResponseCode::ResponseLockInterface,
                                    interface_id: self.tdi,
                                },
                                payload: TdispMessagePayload::ResponseLockInterface,
                            };
                            encode_into_rsp_payload(&msg)
                        },
                    },
                },
            },
        }
    }

    /// Handles a Start Interface request: after the security checks,
    /// binds fresh confidential material to the locked configuration and
    /// transitions the TDI to `Run`.
    pub fn handle_start_interface_request(
        &mut self,
        vendor_defined_req_payload_struct: &VendorDefinedReqPayloadStruct,
    ) -> (rsp: VendorDefinedRspPayloadStruct)
        requires
            old(self).wf(),
            vendor_defined_req_payload_struct.wf(),
        ensures
            final(self).wf(),
            spec_handler_contract(
                *old(self),
                *final(self),
                vendor_defined_req_payload_struct.message_bytes(),
                rsp,
                TdispOperation::StartInterface,
            ),
    {
        let m_opt = decode_message(
            &vendor_defined_req_payload_struct.vendor_defined_req_payload,
            vendor_defined_req_payload_struct.req_length as usize,
        );
        match m_opt {
            None => self.handle_tdisp_error(TdispErrorCode::InvalidRequest),
            Some(m) => match self.validate_request(&m, TdispOperation::StartInterface) {
                Some(e) => self.handle_tdisp_error(e),
                None => {
                    self.configuration.provision_confidential_config();
                    self.state_machine.to_state_run();
                    let msg = TdispMessage {
                        header: TdispMessageHeader {
                            tdisp_version: self.version_sel,
                            message_type: TdispRequestResponseCode::ResponseStartInterface,
                            interface_id: self.tdi,
                        },
                        payload: TdispMessagePayload::ResponseStartInterface,
                    };
                    encode_into_rsp_payload(&msg)
                },
            },
        }
    }

    /// Top-level entry point: receives one opaque vendor-defined request
    /// payload, routes by the decoded message type to the matching
    /// handler, and wraps every failure into the TDISP error-response
    /// format.  Always returns a well-formed payload describing the
    /// outcome; nothing propagates as a fault past this boundary.
    pub fn handle_request(
        &mut self,
        vendor_defined_req_payload_struct: &VendorDefinedReqPayloadStruct,
    ) -> (rsp: VendorDefinedRspPayloadStruct)
        requires
            old(self).wf(),
            vendor_defined_req_payload_struct.wf(),
        ensures
            final(self).wf(),
            rsp.wf(),
            *final(self) == spec_handle_request(
                *old(self),
                vendor_defined_req_payload_struct.message_bytes(),
            ).0,
            rsp.message_bytes() == spec_encode_message(
                spec_handle_request(
                    *old(self),
                    vendor_defined_req_payload_struct.message_bytes(),
                ).1,
            ),
            rsp.rsp_length == spec_encode_message(
                spec_handle_request(
                    *old(self),
                    vendor_defined_req_payload_struct.message_bytes(),
                ).1,
            ).len(),
    {
        let m_opt = decode_message(
            &vendor_defined_req_payload_struct.vendor_defined_req_payload,
            vendor_defined_req_payload_struct.req_length as usize,
        );
        match m_opt {
            None => self.handle_tdisp_error(TdispErrorCode::InvalidRequest),
            Some(m) => match m.payload {
                TdispMessagePayload::RequestGetVersion => self.handle_get_version_request(
                    vendor_defined_req_payload_struct,
                ),
                TdispMessagePayload::RequestGetCapabilities => self
                    .handle_get_capabilities_request(vendor_defined_req_payload_struct),
                TdispMessagePayload::RequestLockInterface { .. } => self
                    .handle_lock_interface_request(vendor_defined_req_payload_struct),
                TdispMessagePayload::RequestGetInterfaceState => self
                    .handle_get_interface_state_request(vendor_defined_req_payload_struct),
                TdispMessagePayload::RequestStartInterface => self
                    .handle_start_interface_request(vendor_defined_req_payload_struct),
                TdispMessagePayload::RequestStopInterface => self
                    .handle_stop_interface_request(vendor_defined_req_payload_struct),
                _ => {
                    if m.header.tdisp_version != self.version_sel {
                        self.handle_tdisp_error(TdispErrorCode::InvalidRequest)
                    } else if m.header.interface_id != self.tdi {
                        self.handle_tdisp_error(TdispErrorCode::UnspecifiedInterfaceId)
                    } else {
                        self.handle_tdisp_error(TdispErrorCode::InvalidRequest)
                    }
                },
            },
        }
    }
}

} // verus!
