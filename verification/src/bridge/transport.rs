//! What every bridge transport shares: its configuration, its errors and the
//! one operation it offers.
use crate::bridge::protocol::{BridgePayload, BridgeProtocolError, MAX_TIMING_RECORDS};
use crate::bridge::session::BridgeSession;
use vstd::prelude::*;

verus! {

/// The only host a bridge transport may listen on.
pub const LOCALHOST: &'static str = "127.0.0.1";

/// How long a transport waits for its one request, by default.
pub const DEFAULT_TIMEOUT_SECONDS: u64 = 60;

/// The largest request body a transport accepts, by default, in MiB.
pub const DEFAULT_MAX_BODY_MB: usize = 2;

#[derive(Debug, Clone, PartialEq, Eq)]
pub struct TransportConfig {
    pub host: String,
    pub timeout_seconds: u64,
    pub max_body_mb: usize,
    pub max_timing_records: usize,
}

impl Default for TransportConfig {
    fn default() -> (res: Self)
        ensures
            res.host@ == LOCALHOST@,
            res.timeout_seconds == DEFAULT_TIMEOUT_SECONDS,
            res.max_body_mb == DEFAULT_MAX_BODY_MB,
            res.max_timing_records == MAX_TIMING_RECORDS,
    {
        TransportConfig {
            host: LOCALHOST.to_owned(),
            timeout_seconds: DEFAULT_TIMEOUT_SECONDS,
            max_body_mb: DEFAULT_MAX_BODY_MB,
            max_timing_records: MAX_TIMING_RECORDS,
        }
    }
}

#[derive(Debug, Clone, PartialEq)]
pub enum BridgeTransportError {
    Timeout,
    BindFailed(String),
    Io(String),
    RequestRejected(String),
    Protocol(BridgeProtocolError),
}

/// A one-shot channel that waits for the single payload of a bridge session.
pub trait BridgeTransport {
    fn receive_once(&self, session: &BridgeSession) -> Result<BridgePayload, BridgeTransportError>;
}

} // verus!
