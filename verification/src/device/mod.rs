//! Devices found on the network, the credentials used to talk to them, and
//! the records kept of what a device reports.

use vstd::prelude::*;

pub mod camera;

verus! {

/// WS-UsernameToken credentials.
#[derive(Debug)]
pub struct Auth {
    pub username: String,
    pub password: String,
}

impl View for Auth {
    type V = (Seq<char>, Seq<char>);

    /// The user name and the password.
    open spec fn view(&self) -> (Seq<char>, Seq<char>) {
        (self.username@, self.password@)
    }
}

/// The credentials of an optional `Auth`, as text.
pub open spec fn auth_view(auth: Option<Auth>) -> Option<(Seq<char>, Seq<char>)> {
    match auth {
        Some(a) => Some(a@),
        None => None,
    }
}

impl Auth {
    /// Credentials with the given user name and password.
    pub fn new(username: &str, password: &str) -> (auth: Auth)
        ensures
            auth@ == (username@, password@),
    {
        Auth { username: username.to_string(), password: password.to_string() }
    }

    /// A copy of these credentials.
    pub fn duplicate(&self) -> (copy: Auth)
        ensures
            copy@ == self@,
    {
        Auth { username: self.username.clone(), password: self.password.clone() }
    }
}

/// A copy of optional credentials.
pub fn duplicate_auth(auth: &Option<Auth>) -> (copy: Option<Auth>)
    ensures
        auth_view(copy) == auth_view(*auth),
{
    match auth {
        Some(a) => Some(a.duplicate()),
        None => None,
    }
}

/// The kinds of device the library talks to.
#[derive(Debug, Clone, Copy, PartialEq, Eq)]
pub enum DeviceTypes {
    Camera,
}

/// A device on the network: its ONVIF device-service URL, its kind, the scopes
/// it announced, and the credentials to use with it.
#[derive(Debug)]
pub struct Device {
    pub url_onvif: url::Url,
    pub device_type: DeviceTypes,
    pub scopes: Vec<String>,
    pub auth: Option<Auth>,
}

/// What a device reports of its capabilities.
#[derive(Debug)]
pub struct Capabilities {}

/// What a device reports of itself.
#[derive(Debug)]
pub struct DeviceInfo {}

/// The media profile in use; its token selects the stream.
#[derive(Debug)]
pub struct Profiles {
    pub token: Option<String>,
}

/// The URI of the media stream.
#[derive(Debug)]
pub struct StreamUri {
    pub uri: Option<String>,
}

/// The addresses of the services a device offers.
#[derive(Debug)]
pub struct Services {
    pub event: Option<String>,
    pub analytics: Option<String>,
    pub media2: Option<String>,
}

/// What the event service reports of its capabilities.
#[derive(Debug)]
pub struct EventCapabilities {}

/// What the analytics service reports of its capabilities.
#[derive(Debug)]
pub struct AnalyticsCapabilities {}

/// The analytics configurations of a device.
#[derive(Debug)]
pub struct AnalyticsConfigList {}

impl Default for Capabilities {
    fn default() -> (c: Self) {
        Capabilities {  }
    }
}

impl Default for DeviceInfo {
    fn default() -> (d: Self) {
        DeviceInfo {  }
    }
}

impl Default for Profiles {
    fn default() -> (p: Self)
        ensures
            p.token is None,
    {
        Profiles { token: None }
    }
}

impl Default for StreamUri {
    fn default() -> (s: Self)
        ensures
            s.uri is None,
    {
        StreamUri { uri: None }
    }
}

impl Default for Services {
    fn default() -> (s: Self)
        ensures
            s.event is None,
            s.analytics is None,
            s.media2 is None,
    {
        Services { event: None, analytics: None, media2: None }
    }
}

impl Default for EventCapabilities {
    fn default() -> (e: Self) {
        EventCapabilities {  }
    }
}

impl Default for AnalyticsCapabilities {
    fn default() -> (a: Self) {
        AnalyticsCapabilities {  }
    }
}

impl Default for AnalyticsConfigList {
    fn default() -> (a: Self) {
        AnalyticsConfigList {  }
    }
}

} // verus!
