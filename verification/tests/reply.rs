use onvif_cam_rs::client::discovery::SeenAddresses;
use onvif_cam_rs::client::reply::{device_from_reply, element_text, on_reply, ReplyError, ReplyStep};
use onvif_cam_rs::device::DeviceTypes;

const REPLY: &str = r#"<?xml version="1.0" encoding="UTF-8"?>
<SOAP-ENV:Envelope xmlns:d="http://schemas.xmlsoap.org/ws/2005/04/discovery">
<SOAP-ENV:Body><d:ProbeMatches><d:ProbeMatch>
<d:Types>dn:NetworkVideoTransmitter tds:Device</d:Types>
<d:Scopes>onvif://www.onvif.org/type/video_encoder onvif://www.onvif.org/name/IPC</d:Scopes>
<d:XAddrs>http://192.168.86.200:8080/onvif/device_service</d:XAddrs>
</d:ProbeMatch></d:ProbeMatches></SOAP-ENV:Body></SOAP-ENV:Envelope>"#;

#[test]
fn prefixed_elements_are_found_by_local_name() {
    assert_eq!(
        element_text(REPLY, "XAddrs").as_deref(),
        Some("http://192.168.86.200:8080/onvif/device_service")
    );
    assert_eq!(
        element_text(REPLY, "Types").as_deref(),
        Some("dn:NetworkVideoTransmitter tds:Device")
    );
    assert_eq!(
        element_text(REPLY, "Scopes").as_deref(),
        Some("onvif://www.onvif.org/type/video_encoder onvif://www.onvif.org/name/IPC")
    );
}

#[test]
fn unprefixed_elements_are_found() {
    assert_eq!(element_text("<a><XAddrs>x</XAddrs></a>", "XAddrs").as_deref(), Some("x"));
}

#[test]
fn the_first_element_wins() {
    assert_eq!(element_text("<d:A>one</d:A><d:A>two</d:A>", "A").as_deref(), Some("one"));
}

#[test]
fn missing_elements_give_nothing() {
    assert!(element_text(REPLY, "Missing").is_none());
    assert!(element_text("", "A").is_none());
    assert!(element_text("<d:AB>x</d:AB>", "A").is_none());
}

#[test]
fn text_runs_to_the_end_when_unclosed() {
    assert_eq!(element_text("<A>tail", "A").as_deref(), Some("tail"));
    assert_eq!(element_text("<A>", "A").as_deref(), Some(""));
}

#[test]
fn a_reply_names_its_device() {
    let device = device_from_reply(REPLY).unwrap();
    assert_eq!(device.url_onvif.as_str(), "http://192.168.86.200:8080/onvif/device_service");
    assert_eq!(device.device_type, DeviceTypes::Camera);
    assert_eq!(
        device.scopes,
        vec!["onvif://www.onvif.org/type/video_encoder", "onvif://www.onvif.org/name/IPC"]
    );
    assert!(device.auth.is_none());
}

#[test]
fn a_reply_without_a_field_names_no_device() {
    assert_eq!(device_from_reply("<d:Types>t</d:Types>").unwrap_err(), ReplyError::MissingXAddrs);
    assert_eq!(
        device_from_reply("<d:XAddrs>not a url</d:XAddrs>").unwrap_err(),
        ReplyError::BadXAddrs
    );
    assert_eq!(
        device_from_reply("<d:XAddrs>http://h/x</d:XAddrs>").unwrap_err(),
        ReplyError::MissingTypes
    );
    assert_eq!(
        device_from_reply("<d:XAddrs>http://h/x</d:XAddrs><d:Types>t</d:Types>").unwrap_err(),
        ReplyError::MissingScopes
    );
}

#[test]
fn each_sender_is_read_once() {
    let mut seen = SeenAddresses::new();
    let first = on_reply(&mut seen, "192.168.86.200:3702", REPLY);
    assert!(matches!(first, ReplyStep::Found(_)));
    let again = on_reply(&mut seen, "192.168.86.200:3702", REPLY);
    assert!(matches!(again, ReplyStep::AlreadySeen));
    let other = on_reply(&mut seen, "92.168.86.200:3702", "<d:Types>t</d:Types>");
    assert!(matches!(other, ReplyStep::Rejected(ReplyError::MissingXAddrs)));
    let other_again = on_reply(&mut seen, "92.168.86.200:3702", REPLY);
    assert!(matches!(other_again, ReplyStep::AlreadySeen));
    assert!(seen.contains("192.168.86.200:3702"));
    assert!(seen.contains("92.168.86.200:3702"));
}
