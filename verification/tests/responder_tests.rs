use tdisp::buffers::VendorDefinedReqPayloadStruct;
use tdisp::buffers::VendorDefinedRspPayloadStruct;
use tdisp::codec::TdispMessage;
use tdisp::codec::TdispMessagePayload;
use tdisp::codec::TdispRequestResponseCode;
use tdisp::codec::decode_message;
use tdisp::responder::TdispResponder;
use tdisp::state::TdispState;

const VERSION: u8 = 0x10;
const TDI: u32 = 0x11223344;
const CAPS: u32 = 0x0000000f;

fn request(version: u8, type_code: u8, interface_id: u32, extra: &[u8]) -> VendorDefinedReqPayloadStruct {
    let mut bytes = vec![version, type_code];
    bytes.extend_from_slice(&interface_id.to_le_bytes());
    bytes.extend_from_slice(extra);
    VendorDefinedReqPayloadStruct::from_bytes(&bytes)
}

fn decode_rsp(rsp: &VendorDefinedRspPayloadStruct) -> TdispMessage {
    decode_message(&rsp.vendor_defined_rsp_payload, rsp.rsp_length as usize)
        .expect("response payload must decode")
}

fn responder_in_run() -> TdispResponder {
    let mut r = TdispResponder::new(VERSION, TDI, CAPS);
    let lock = r.handle_lock_interface_request(&request(VERSION, 0x83, TDI, &[0, 0, 0, 0]));
    assert!(matches!(
        decode_rsp(&lock).payload,
        TdispMessagePayload::ResponseLockInterface
    ));
    let start = r.handle_start_interface_request(&request(VERSION, 0x86, TDI, &[]));
    assert!(matches!(
        decode_rsp(&start).payload,
        TdispMessagePayload::ResponseStartInterface
    ));
    assert_eq!(r.state_machine.state, TdispState::Run);
    assert!(!r.configuration.confidential_erased);
    assert!(!r.configuration.unlocked);
    r
}

fn assert_error(rsp: &VendorDefinedRspPayloadStruct, responder: &TdispResponder, code: u32) {
    let m = decode_rsp(rsp);
    assert_eq!(m.header.tdisp_version, responder.version_sel);
    assert_eq!(
        m.header.message_type,
        TdispRequestResponseCode::ResponseTdispError
    );
    assert_eq!(m.header.interface_id, responder.tdi);
    assert_eq!(
        m.payload,
        TdispMessagePayload::ResponseTdispError { error_code: code }
    );
}

#[test]
fn stop_in_run_scrubs_unlocks_and_transitions() {
    let mut r = responder_in_run();
    let rsp = r.handle_stop_interface_request(&request(VERSION, 0x87, TDI, &[]));
    let m = decode_rsp(&rsp);
    assert_eq!(rsp.rsp_length, 6);
    assert_eq!(m.header.tdisp_version, VERSION);
    assert_eq!(
        m.header.message_type,
        TdispRequestResponseCode::ResponseStopInterface
    );
    assert_eq!(m.header.interface_id, TDI);
    assert_eq!(m.payload, TdispMessagePayload::ResponseStopInterface);
    assert_eq!(r.state_machine.state, TdispState::ConfigUnlocked);
    assert!(r.configuration.confidential_erased);
    assert!(r.configuration.unlocked);
}

#[test]
fn stop_with_failing_erase_reports_invalid_device_configuration() {
    let mut r = responder_in_run();
    r.configuration.erase_backend_ok = false;
    let rsp = r.handle_stop_interface_request(&request(VERSION, 0x87, TDI, &[]));
    assert_error(&rsp, &r, 0x104);
    assert_eq!(r.state_machine.state, TdispState::Run);
    assert!(!r.configuration.confidential_erased);
    assert!(!r.configuration.unlocked);
}

#[test]
fn stop_with_failing_unlock_scrubs_but_commits_no_transition() {
    let mut r = responder_in_run();
    r.configuration.unlock_backend_ok = false;
    let rsp = r.handle_stop_interface_request(&request(VERSION, 0x87, TDI, &[]));
    assert_error(&rsp, &r, 0x104);
    assert_eq!(r.state_machine.state, TdispState::Run);
    assert!(r.configuration.confidential_erased);
    assert!(!r.configuration.unlocked);
}

#[test]
fn foreign_interface_id_gets_unspecified_interface_error() {
    let mut r = responder_in_run();
    let before = r;
    let rsp = r.handle_stop_interface_request(&request(VERSION, 0x87, TDI + 1, &[]));
    assert_error(&rsp, &r, 0x101);
    assert_eq!(r, before);
}

#[test]
fn foreign_interface_id_is_answered_alike_for_every_operation() {
    let mut r = responder_in_run();
    let before = r;
    for type_code in [0x81u8, 0x82, 0x85, 0x86, 0x87] {
        let rsp = r.handle_request(&request(VERSION, type_code, 0x5555, &[]));
        assert_error(&rsp, &r, 0x101);
        assert_eq!(r, before);
    }
    let rsp = r.handle_request(&request(VERSION, 0x83, 0x5555, &[0, 0, 0, 0]));
    assert_error(&rsp, &r, 0x101);
    assert_eq!(r, before);
}

#[test]
fn truncated_request_gets_invalid_request_error() {
    let mut r = responder_in_run();
    let before = r;
    let bytes = vec![VERSION, 0x87, 0x44];
    let req = VendorDefinedReqPayloadStruct::from_bytes(&bytes);
    let rsp = r.handle_stop_interface_request(&req);
    assert_error(&rsp, &r, 0x01);
    assert_eq!(r, before);
}

#[test]
fn version_mismatch_gets_invalid_request_error() {
    let mut r = responder_in_run();
    let before = r;
    let rsp = r.handle_stop_interface_request(&request(0x11, 0x87, TDI, &[]));
    assert_error(&rsp, &r, 0x01);
    assert_eq!(r, before);
}

#[test]
fn stop_while_config_unlocked_is_gated_by_state() {
    let mut r = TdispResponder::new(VERSION, TDI, CAPS);
    let before = r;
    let rsp = r.handle_stop_interface_request(&request(VERSION, 0x87, TDI, &[]));
    assert_error(&rsp, &r, 0x04);
    assert_eq!(r, before);
}

#[test]
fn lock_while_run_is_gated_by_state() {
    let mut r = responder_in_run();
    let before = r;
    let rsp = r.handle_lock_interface_request(&request(VERSION, 0x83, TDI, &[0, 0, 0, 0]));
    assert_error(&rsp, &r, 0x04);
    assert_eq!(r, before);
}

#[test]
fn start_while_config_unlocked_is_gated_by_state() {
    let mut r = TdispResponder::new(VERSION, TDI, CAPS);
    let before = r;
    let rsp = r.handle_start_interface_request(&request(VERSION, 0x86, TDI, &[]));
    assert_error(&rsp, &r, 0x04);
    assert_eq!(r, before);
}

#[test]
fn lock_with_invalid_configuration_is_refused() {
    let mut r = TdispResponder::new(VERSION, TDI, CAPS);
    r.configuration.config_valid = false;
    let before = r;
    let rsp = r.handle_lock_interface_request(&request(VERSION, 0x83, TDI, &[0, 0, 0, 0]));
    assert_error(&rsp, &r, 0x104);
    assert_eq!(r, before);
}

#[test]
fn lock_with_failing_backend_is_refused() {
    let mut r = TdispResponder::new(VERSION, TDI, CAPS);
    r.configuration.lock_backend_ok = false;
    let before = r;
    let rsp = r.handle_lock_interface_request(&request(VERSION, 0x83, TDI, &[0, 0, 0, 0]));
    assert_error(&rsp, &r, 0x104);
    assert_eq!(r, before);
}

#[test]
fn get_version_reports_negotiated_version() {
    let mut r = TdispResponder::new(VERSION, TDI, CAPS);
    let rsp = r.handle_get_version_request(&request(VERSION, 0x81, TDI, &[]));
    let m = decode_rsp(&rsp);
    assert_eq!(
        m.header.message_type,
        TdispRequestResponseCode::ResponseGetVersion
    );
    assert_eq!(m.payload, TdispMessagePayload::ResponseGetVersion { version: VERSION });
}

#[test]
fn get_capabilities_reports_bitmap() {
    let mut r = TdispResponder::new(VERSION, TDI, CAPS);
    let rsp = r.handle_get_capabilities_request(&request(VERSION, 0x82, TDI, &[]));
    let m = decode_rsp(&rsp);
    assert_eq!(
        m.payload,
        TdispMessagePayload::ResponseGetCapabilities { dsm_caps: CAPS }
    );
}

#[test]
fn get_interface_state_reports_each_state_code() {
    let mut r = TdispResponder::new(VERSION, TDI, CAPS);
    let rsp = r.handle_get_interface_state_request(&request(VERSION, 0x85, TDI, &[]));
    assert_eq!(
        decode_rsp(&rsp).payload,
        TdispMessagePayload::ResponseGetInterfaceState { tdi_state: 0 }
    );
    let mut r = responder_in_run();
    let rsp = r.handle_get_interface_state_request(&request(VERSION, 0x85, TDI, &[]));
    assert_eq!(
        decode_rsp(&rsp).payload,
        TdispMessagePayload::ResponseGetInterfaceState { tdi_state: 2 }
    );
}

#[test]
fn full_lifecycle_through_dispatcher() {
    let mut r = TdispResponder::new(VERSION, TDI, CAPS);
    let rsp = r.handle_request(&request(VERSION, 0x81, TDI, &[]));
    assert_eq!(
        decode_rsp(&rsp).payload,
        TdispMessagePayload::ResponseGetVersion { version: VERSION }
    );
    let rsp = r.handle_request(&request(VERSION, 0x83, TDI, &[1, 0, 0, 0]));
    assert!(matches!(
        decode_rsp(&rsp).payload,
        TdispMessagePayload::ResponseLockInterface
    ));
    assert_eq!(r.state_machine.state, TdispState::ConfigLocked);
    let rsp = r.handle_request(&request(VERSION, 0x86, TDI, &[]));
    assert!(matches!(
        decode_rsp(&rsp).payload,
        TdispMessagePayload::ResponseStartInterface
    ));
    assert_eq!(r.state_machine.state, TdispState::Run);
    let rsp = r.handle_request(&request(VERSION, 0x87, TDI, &[]));
    assert!(matches!(
        decode_rsp(&rsp).payload,
        TdispMessagePayload::ResponseStopInterface
    ));
    assert_eq!(r.state_machine.state, TdispState::ConfigUnlocked);
    assert!(r.configuration.unlocked);
    assert!(r.configuration.confidential_erased);
}

#[test]
fn dispatcher_rejects_wrongly_typed_message() {
    let mut r = TdispResponder::new(VERSION, TDI, CAPS);
    let before = r;
    // A response-typed message is not a request.
    let rsp = r.handle_request(&request(VERSION, 0x07, TDI, &[]));
    assert_error(&rsp, &r, 0x01);
    assert_eq!(r, before);
}

#[test]
fn handler_rejects_request_for_another_operation() {
    let mut r = responder_in_run();
    let before = r;
    let rsp = r.handle_stop_interface_request(&request(VERSION, 0x81, TDI, &[]));
    assert_error(&rsp, &r, 0x01);
    assert_eq!(r, before);
}

#[test]
fn scrub_precedes_unlock_on_every_stop_path() {
    // With both backend steps healthy the stop handler may unlock only
    // because the scrub already succeeded; with the unlock failing, the
    // configuration must stay locked even though the scrub ran.
    let mut r = responder_in_run();
    r.configuration.unlock_backend_ok = false;
    let _ = r.handle_stop_interface_request(&request(VERSION, 0x87, TDI, &[]));
    assert!(!r.configuration.unlocked && r.configuration.confidential_erased);
    r.configuration.unlock_backend_ok = true;
    let _ = r.handle_stop_interface_request(&request(VERSION, 0x87, TDI, &[]));
    assert!(r.configuration.unlocked && r.configuration.confidential_erased);
}
