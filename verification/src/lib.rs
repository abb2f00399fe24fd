//! Responder-side protocol engine for a TEE Device Interface Security
//! Protocol (TDISP).
//!
//! The crate governs the security lifecycle of one TEE Device Interface
//! (TDI): locking its configuration, entering the trusted run state, and the
//! controlled teardown that scrubs device secrets before the configuration is
//! unlocked again.  It contains the binary message codec, the lifecycle state
//! machine with its legal-transition table, the security precondition checks,
//! and one operation handler per TDISP message type, tied together by a
//! dispatcher that always answers a request with a well-formed response or a
//! well-formed TDISP error message.
//!
//! The secure-messaging transport underneath (session establishment, key
//! exchange, framing) is an external collaborator: the responder is invoked
//! as a pure function of an incoming opaque payload and its own mutable
//! state, and hands an opaque payload back.

pub mod buffers;
pub mod codec;
pub mod config;
pub mod laws;
pub mod responder;
pub mod state;
