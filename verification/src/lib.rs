//! ONVIF camera client: SOAP request construction, WS-Security UsernameToken
//! headers, UTC timestamps for them, and the decisions of the discovery and
//! request loops, each with its contract.

pub mod client;
pub mod codec;
pub mod device;
pub mod text;
pub mod trusted;
