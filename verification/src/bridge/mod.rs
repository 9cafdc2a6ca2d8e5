//! The browser bridge: a one-shot, localhost-only channel through which an
//! authenticated browser hands processed Suno data to the application.
pub mod credentials;
pub mod http;
pub mod protocol;
pub mod session;
pub mod transport;

use crate::bridge::session::{BridgeSession, BridgeSessionError};
use crate::bridge::transport::TransportConfig;
use vstd::prelude::*;

verus! {

#[derive(Debug, Clone, PartialEq, Eq)]
pub struct BrowserBridge {
    pub session: BridgeSession,
    pub transport_config: TransportConfig,
}

/// A bridge ready to be served: a fresh session and the default transport
/// configuration (localhost, 60 s, 2 MiB, 5000 timing records).
pub fn create_browser_bridge() -> (res: Result<BrowserBridge, BridgeSessionError>)
    ensures
        res matches Ok(b) ==> {
            &&& session::is_generated_id(b.session.request_id@, session::REQUEST_ID_HEX_DIGITS as nat)
            &&& session::is_generated_id(b.session.bearer_token@, session::BEARER_TOKEN_HEX_DIGITS as nat)
            &&& b.session.request_id@ != b.session.bearer_token@
            &&& b.transport_config.host@ == transport::LOCALHOST@
            &&& b.transport_config.timeout_seconds == transport::DEFAULT_TIMEOUT_SECONDS
            &&& b.transport_config.max_body_mb == transport::DEFAULT_MAX_BODY_MB
            &&& b.transport_config.max_timing_records == protocol::MAX_TIMING_RECORDS
        },
        res is Ok,
{
    let session = match BridgeSession::generate() {
        Ok(s) => s,
        Err(e) => {
            return Err(e);
        },
    };
    Ok(BrowserBridge { session, transport_config: TransportConfig::default() })
}

} // verus!
