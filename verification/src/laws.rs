//! Security laws of the responder, stated over the step functions that
//! the handlers' contracts are written against.
//!
//! Together with `TdispResponder::new` establishing `wf` and every
//! handler ensuring it again, `lemma_handle_request_preserves_wf` gives
//! the trace property by induction: along any sequence of dispatched
//! requests, starting from a fresh association, the responder never
//! reaches a state where the configuration is modifiable while
//! confidential secrets are still resident.

use vstd::prelude::*;

use crate::codec::TdispMessage;
use crate::codec::spec_decode_message;
use crate::responder::TdispErrorCode;
use crate::responder::TdispResponder;
use crate::responder::spec_error_response;
use crate::responder::spec_handle_request;
use crate::responder::spec_operation_of;
use crate::state::TdispOperation;
use crate::state::spec_operation_allowed;

verus! {

/// No unlock without scrub: in every consistent responder state, an
/// unlocked configuration has its confidential secrets erased.
pub proof fn lemma_no_unlock_without_scrub(r: TdispResponder)
    requires
        r.wf(),
    ensures
        r.configuration.unlocked ==> r.configuration.confidential_erased,
{
}

/// One dispatch step keeps the responder consistent: whatever bytes
/// arrive, the state `spec_handle_request` steps to is well formed
/// again.  This is the inductive step of the no-unlock-without-scrub
/// trace property.
pub proof fn lemma_handle_request_preserves_wf(r: TdispResponder, s: Seq<u8>)
    requires
        r.wf(),
    ensures
        spec_handle_request(r, s).0.wf(),
{
}

/// The responder state after dispatching a whole sequence of raw request
/// payloads, one at a time, oldest first.
pub open spec fn spec_run_requests(r: TdispResponder, reqs: Seq<Seq<u8>>) -> TdispResponder
    decreases reqs.len(),
{
    if reqs.len() == 0 {
        r
    } else {
        spec_run_requests(spec_handle_request(r, reqs[0]).0, reqs.drop_first())
    }
}

/// Consistency holds along every execution trace: dispatching any
/// sequence of requests, of any content, against a consistent responder
/// leaves it consistent.
pub proof fn lemma_trace_preserves_wf(r: TdispResponder, reqs: Seq<Seq<u8>>)
    requires
        r.wf(),
    ensures
        spec_run_requests(r, reqs).wf(),
    decreases reqs.len(),
{
    if reqs.len() > 0 {
        lemma_handle_request_preserves_wf(r, reqs[0]);
        lemma_trace_preserves_wf(spec_handle_request(r, reqs[0]).0, reqs.drop_first());
    }
}

/// No unlock without scrub, over every execution trace: from a fresh
/// association onward, no sequence of requests can reach a state whose
/// configuration is modifiable while confidential secrets bound to the
/// TDI are still resident.
pub proof fn lemma_trace_no_unlock_without_scrub(r: TdispResponder, reqs: Seq<Seq<u8>>)
    requires
        r.wf(),
    ensures
        !(spec_run_requests(r, reqs).configuration.unlocked
            && !spec_run_requests(r, reqs).configuration.confidential_erased),
{
    lemma_trace_preserves_wf(r, reqs);
}

/// Exclusive ownership: a decodable request that speaks the negotiated
/// version but carries an interface id this responder does not own is
/// answered with the unspecified-interface-id error, and only that
/// error, whatever the operation and whatever the current state — so
/// probing a device cannot tell operations or states apart through a
/// foreign interface id.  (A request that also fails the version check
/// is answered as malformed instead, since the header checks run first.)
pub proof fn lemma_exclusive_ownership(r: TdispResponder, s: Seq<u8>, m: TdispMessage)
    requires
        spec_decode_message(s) == Some(m),
        m.header.tdisp_version == r.version_sel,
        m.header.interface_id != r.tdi,
    ensures
        spec_handle_request(r, s) == (r, spec_error_response(
            r,
            TdispErrorCode::UnspecifiedInterfaceId,
        )),
{
}

/// State-eligibility gate: a well-addressed request whose operation the
/// legal-transition table does not permit in the current state leaves
/// the responder exactly as it was and is answered with the
/// invalid-interface-state error; the operation's side effect never
/// runs.
pub proof fn lemma_state_eligibility_gate(
    r: TdispResponder,
    s: Seq<u8>,
    m: TdispMessage,
    op: TdispOperation,
)
    requires
        spec_decode_message(s) == Some(m),
        m.header.tdisp_version == r.version_sel,
        m.header.interface_id == r.tdi,
        spec_operation_of(m.payload) == Some(op),
        !spec_operation_allowed(r.state_machine.state, op),
    ensures
        spec_handle_request(r, s) == (r, spec_error_response(
            r,
            TdispErrorCode::InvalidInterfaceState,
        )),
{
}

} // verus!
