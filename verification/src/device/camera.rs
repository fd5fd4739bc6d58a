//! An ONVIF camera and what has been learned about it.

use vstd::prelude::*;
use crate::device::{
    auth_view, duplicate_auth, AnalyticsCapabilities, AnalyticsConfigList, Auth, Capabilities,
    Device, DeviceInfo, DeviceTypes, EventCapabilities, Profiles, Services, StreamUri,
};
use crate::trusted::{parse_url, url_parsed};

verus! {

/// A camera: the device it is, the records filled in as it is queried, and
/// the credentials to use with it.
#[derive(Debug)]
pub struct Camera {
    base: Device,
    capabilities: Capabilities,
    profiles: Profiles,
    device_info: DeviceInfo,
    pub stream: StreamUri,
    services: Services,
    event_props: EventCapabilities,
    analytics_props: AnalyticsCapabilities,
    analytics_configs: AnalyticsConfigList,
    pub auth: Option<Auth>,
}

impl Camera {
    /// The device this camera is.
    pub closed spec fn device(self) -> Device {
        self.base
    }

    /// The media profile recorded for this camera.
    pub closed spec fn profile(self) -> Profiles {
        self.profiles
    }

    /// The service addresses recorded for this camera.
    pub closed spec fn service_addresses(self) -> Services {
        self.services
    }

    /// The capabilities recorded for this camera.
    pub closed spec fn capabilities_record(self) -> Capabilities {
        self.capabilities
    }

    /// The device information recorded for this camera.
    pub closed spec fn device_info_record(self) -> DeviceInfo {
        self.device_info
    }

    /// The stream URI recorded for this camera.
    pub closed spec fn stream_record(self) -> StreamUri {
        self.stream
    }

    /// The credentials this camera is queried with.
    pub closed spec fn credentials(self) -> Option<Auth> {
        self.auth
    }

    /// Nothing has been learned of the camera yet: no profile token, stream
    /// URI or service address is recorded.
    pub open spec fn is_unqueried(self) -> bool {
        &&& self.profile().token is None
        &&& self.stream_record().uri is None
        &&& self.service_addresses().event is None
        &&& self.service_addresses().analytics is None
        &&& self.service_addresses().media2 is None
    }

    /// A camera for `base`, with nothing learned of it yet, using the
    /// credentials of `base`.
    pub fn new(base: Device) -> (camera: Self)
        ensures
            camera.device() == base,
            auth_view(camera.credentials()) == auth_view(base.auth),
            camera.is_unqueried(),
    {
        let auth = duplicate_auth(&base.auth);
        Camera {
            auth,
            base,
            capabilities: Capabilities::default(),
            profiles: Profiles::default(),
            device_info: DeviceInfo::default(),
            stream: StreamUri::default(),
            services: Services::default(),
            event_props: EventCapabilities::default(),
            analytics_props: AnalyticsCapabilities::default(),
            analytics_configs: AnalyticsConfigList::default(),
        }
    }

    /// A camera at the device-service URL parsed from `input`, with no scopes
    /// and no credentials. The URL must parse.
    pub fn from(input: &str) -> (camera: Self)
        requires
            url_parsed(input@) is Some,
        ensures
            camera.device().url_onvif == url_parsed(input@)->0,
            camera.device().device_type == DeviceTypes::Camera,
            camera.device().scopes@.len() == 0,
            camera.device().auth is None,
            camera.credentials() is None,
            camera.is_unqueried(),
    {
        let url_onvif = parse_url(input).unwrap();
        let base = Device {
            url_onvif,
            device_type: DeviceTypes::Camera,
            scopes: Vec::new(),
            auth: None,
        };
        Camera {
            base,
            auth: None,
            capabilities: Capabilities::default(),
            profiles: Profiles::default(),
            device_info: DeviceInfo::default(),
            stream: StreamUri::default(),
            services: Services::default(),
            event_props: EventCapabilities::default(),
            analytics_props: AnalyticsCapabilities::default(),
            analytics_configs: AnalyticsConfigList::default(),
        }
    }

    /// The camera at the device-service URL `input` as `from` builds it, or
    /// `None` when the URL does not parse.
    pub fn try_from_str(input: &str) -> (camera: Option<Self>)
        ensures
            camera is Some <==> url_parsed(input@) is Some,
            camera matches Some(c) ==> {
                &&& c.device().url_onvif == url_parsed(input@)->0
                &&& c.device().device_type == DeviceTypes::Camera
                &&& c.device().scopes@.len() == 0
                &&& c.device().auth is None
                &&& c.credentials() is None
                &&& c.is_unqueried()
            },
    {
        match parse_url(input) {
            Some(_) => Some(Camera::from(input)),
            None => None,
        }
    }

    /// The device this camera is.
    pub fn base_device(&self) -> (d: &Device)
        ensures
            *d == self.device(),
    {
        &self.base
    }

    /// The profile token to ask for the stream URI with: the recorded one, or
    /// the empty token when none is recorded.
    pub fn stream_profile_token(&self) -> (token: &str)
        ensures
            token@ == match self.profile().token {
                Some(t) => t@,
                None => ""@,
            },
    {
        match &self.profiles.token {
            Some(t) => t.as_str(),
            None => "",
        }
    }

    /// The recorded address of the event service, if any.
    pub fn event_service(&self) -> (addr: Option<&str>)
        ensures
            addr is Some <==> self.service_addresses().event is Some,
            addr matches Some(a) ==> a@ == self.service_addresses().event->0@,
    {
        match &self.services.event {
            Some(e) => Some(e.as_str()),
            None => None,
        }
    }

    /// The recorded media profile.
    pub fn profiles(&self) -> (p: &Profiles)
        ensures
            *p == self.profile(),
    {
        &self.profiles
    }

    /// The recorded service addresses.
    pub fn services(&self) -> (s: &Services)
        ensures
            *s == self.service_addresses(),
    {
        &self.services
    }

    /// Records what the camera reports of its capabilities.
    pub fn set_capabilities(&mut self, capabilities: Capabilities)
        ensures
            final(self).device() == old(self).device(),
            final(self).profile() == old(self).profile(),
            final(self).service_addresses() == old(self).service_addresses(),
            final(self).stream_record() == old(self).stream_record(),
            final(self).credentials() == old(self).credentials(),
            final(self).capabilities_record() == capabilities,
            final(self).device_info_record() == old(self).device_info_record(),
    {
        self.capabilities = capabilities;
    }

    /// Records what the camera reports of itself.
    pub fn set_device_info(&mut self, device_info: DeviceInfo)
        ensures
            final(self).device() == old(self).device(),
            final(self).profile() == old(self).profile(),
            final(self).service_addresses() == old(self).service_addresses(),
            final(self).stream_record() == old(self).stream_record(),
            final(self).credentials() == old(self).credentials(),
            final(self).device_info_record() == device_info,
            final(self).capabilities_record() == old(self).capabilities_record(),
    {
        self.device_info = device_info;
    }

    /// Records the media profile.
    pub fn set_profiles(&mut self, profiles: Profiles)
        ensures
            final(self).profile() == profiles,
            final(self).device() == old(self).device(),
            final(self).service_addresses() == old(self).service_addresses(),
            final(self).stream_record() == old(self).stream_record(),
            final(self).credentials() == old(self).credentials(),
            final(self).capabilities_record() == old(self).capabilities_record(),
            final(self).device_info_record() == old(self).device_info_record(),
    {
        self.profiles = profiles;
    }

    /// Records the stream URI.
    pub fn set_stream(&mut self, stream: StreamUri)
        ensures
            final(self).stream_record() == stream,
            final(self).device() == old(self).device(),
            final(self).profile() == old(self).profile(),
            final(self).service_addresses() == old(self).service_addresses(),
            final(self).credentials() == old(self).credentials(),
            final(self).capabilities_record() == old(self).capabilities_record(),
            final(self).device_info_record() == old(self).device_info_record(),
    {
        self.stream = stream;
    }

    /// Records the service addresses.
    pub fn set_services(&mut self, services: Services)
        ensures
            final(self).service_addresses() == services,
            final(self).device() == old(self).device(),
            final(self).profile() == old(self).profile(),
            final(self).stream_record() == old(self).stream_record(),
            final(self).credentials() == old(self).credentials(),
            final(self).capabilities_record() == old(self).capabilities_record(),
            final(self).device_info_record() == old(self).device_info_record(),
    {
        self.services = services;
    }
}

} // verus!
