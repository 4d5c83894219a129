//! Socket configuration and the ICE server record handed to the platform.
//!
//! The platform takes the ICE server as a record of plain strings with
//! absent credentials collapsed to the empty string; building that record
//! is the computed part of connection construction, and the only part the
//! core owns.

use vstd::prelude::*;

verus! {

/// One ICE server (STUN or TURN), passed verbatim to the platform
/// configuration as its single server entry.
#[derive(Clone, PartialEq, Eq, Debug)]
pub struct RtcIceServerConfig {
    pub urls: Vec<String>,
    pub username: Option<String>,
    pub credential: Option<String>,
}

/// Options recognised at socket construction.
#[derive(Clone, PartialEq, Eq, Debug)]
pub struct WebRtcSocketConfig {
    pub ice_server: RtcIceServerConfig,
}

/// The ICE server record in the shape the platform configuration takes:
/// urls as given, and absent username or credential as the empty string.
#[derive(Clone, PartialEq, Eq, Debug)]
pub struct IceServerEntry {
    pub urls: Vec<String>,
    pub username: String,
    pub credential: String,
}

/// Builds the platform-facing ICE server record from the socket
/// configuration: urls are kept as given, and a missing username or
/// credential becomes the empty string.
pub fn ice_server_entry(config: &WebRtcSocketConfig) -> (e: IceServerEntry)
    ensures
        e.urls@ == config.ice_server.urls@,
        config.ice_server.username is Some ==> e.username@ == config.ice_server.username.unwrap()@,
        config.ice_server.username is None ==> e.username@ == Seq::<char>::empty(),
        config.ice_server.credential is Some ==> e.credential@ == config.ice_server.credential.unwrap()@,
        config.ice_server.credential is None ==> e.credential@ == Seq::<char>::empty(),
{
    let username = match &config.ice_server.username {
        Some(u) => u.clone(),
        None => String::new(),
    };
    let credential = match &config.ice_server.credential {
        Some(c) => c.clone(),
        None => String::new(),
    };
    IceServerEntry { urls: config.ice_server.urls.clone(), username, credential }
}

} // verus!
