use onvif_cam_rs::device::camera::Camera;
use onvif_cam_rs::device::{Auth, Device, DeviceTypes, Profiles, Services, StreamUri};

const URL: &str = "http://192.168.86.200:8080/onvif/device_service";

#[test]
fn credentials_hold_what_they_were_made_with() {
    let auth = Auth::new("admin", "password");
    assert_eq!(auth.username, "admin");
    assert_eq!(auth.password, "password");
    let copy = auth.duplicate();
    assert_eq!(copy.username, "admin");
    assert_eq!(copy.password, "password");
}

#[test]
fn camera_from_a_url_starts_empty() {
    let camera = Camera::from(URL);
    let device = camera.base_device();
    assert_eq!(device.url_onvif.as_str(), URL);
    assert_eq!(device.device_type, DeviceTypes::Camera);
    assert!(device.scopes.is_empty());
    assert!(device.auth.is_none());
    assert!(camera.auth.is_none());
    assert!(camera.stream.uri.is_none());
    assert!(camera.profiles().token.is_none());
    assert!(camera.event_service().is_none());
    assert_eq!(camera.stream_profile_token(), "");
}

#[test]
fn camera_from_a_bad_url_is_refused() {
    assert!(Camera::try_from_str("not a url").is_none());
    assert!(Camera::try_from_str("").is_none());
    let camera = Camera::try_from_str(URL).unwrap();
    assert_eq!(camera.base_device().url_onvif.as_str(), URL);
}

#[test]
fn camera_for_a_device_takes_its_credentials() {
    let device = Device {
        url_onvif: url::Url::parse(URL).unwrap(),
        device_type: DeviceTypes::Camera,
        scopes: vec!["onvif://www.onvif.org/type/video_encoder".to_string()],
        auth: Some(Auth::new("admin", "password")),
    };
    let camera = Camera::new(device);
    let auth = camera.auth.as_ref().unwrap();
    assert_eq!(auth.username, "admin");
    assert_eq!(auth.password, "password");
    assert_eq!(camera.base_device().scopes.len(), 1);
    assert!(camera.base_device().auth.is_some());
    assert!(camera.stream.uri.is_none());
}

#[test]
fn camera_for_a_device_without_credentials() {
    let device = Device {
        url_onvif: url::Url::parse(URL).unwrap(),
        device_type: DeviceTypes::Camera,
        scopes: Vec::new(),
        auth: None,
    };
    let camera = Camera::new(device);
    assert!(camera.auth.is_none());
}

#[test]
fn recorded_profile_token_selects_the_stream() {
    let mut camera = Camera::from(URL);
    camera.set_profiles(Profiles { token: Some("profile_1".to_string()) });
    assert_eq!(camera.stream_profile_token(), "profile_1");
    camera.set_services(Services {
        event: Some("http://192.168.86.200:8080/onvif/event".to_string()),
        analytics: None,
        media2: None,
    });
    assert_eq!(camera.event_service(), Some("http://192.168.86.200:8080/onvif/event"));
    camera.set_stream(StreamUri { uri: Some("rtsp://192.168.86.200/stream".to_string()) });
    assert_eq!(camera.stream.uri.as_deref(), Some("rtsp://192.168.86.200/stream"));
    assert_eq!(camera.stream_profile_token(), "profile_1");
}
