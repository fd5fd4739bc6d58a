use onvif_cam_rs::client::retry::needs_fresh_message_id;
use onvif_cam_rs::client::soap::soap_envelope;
use onvif_cam_rs::client::{soap_msg, Messages};
use onvif_cam_rs::device::Auth;

/// The text the request is expected to have, laid out as ONVIF clients send it.
fn expected(msg_type: &Messages, uuid: &str, security_header: Option<&str>) -> String {
    let prefix = r#"<Envelope xmlns="http://www.w3.org/2003/05/soap-envelope"
                         xmlns:tds="http://www.onvif.org/ver10/device/wsdl">"#;

    let prefix_profiles = r#"<Envelope xmlns="http://www.w3.org/2003/05/soap-envelope"
                         xmlns:trt="http://www.onvif.org/ver10/media/wsdl">"#;

    let prefix_stream_uri = r#"<Envelope xmlns="http://www.w3.org/2003/05/soap-envelope"
                         xmlns:trt="http://www.onvif.org/ver10/media/wsdl"
                         xmlns:tt="http://www.onvif.org/ver10/schema">"#;

    let prefix_discovery_pt1 = r#"<?xml version="1.0" encoding="UTF-8"?>
                        <e:Envelope xmlns:e="http://www.w3.org/2003/05/soap-envelope"
                        xmlns:w="http://schemas.xmlsoap.org/ws/2004/08/addressing"
                        xmlns:d="http://schemas.xmlsoap.org/ws/2005/04/discovery"
                        xmlns:dn="http://www.onvif.org/ver10/network/wsdl">"#;

    let header_pt1 = format!("<e:Header><w:MessageID>uuid:{uuid}</w:MessageID>");
    let header_pt2 = r#"<w:To>urn:schemas-xmlsoap-org:ws:2005:04:discovery</w:To>
                     <w:Action>http://schemas.xmlsoap.org/ws/2005/04/discovery/Probe</w:Action>
                     </e:Header>"#;

    let body_open = "<Body>";
    let suffix = "</Body></Envelope>";
    let suffix_discovery = r#"<e:Body>
                                   <d:Probe>
                                       <d:Types>dn:NetworkVideoTransmitter</d:Types>
                                   </d:Probe>
                               </e:Body>
                           </e:Envelope>"#;

    let stream_prefix = r#"<trt:GetStreamUri>"#;
    let stream_suffix = r#"<trt:StreamSetup>
               <tt:Stream>RTP-Unicast</tt:Stream>
               <tt:Transport>
                   <tt:Protocol>RTSP</tt:Protocol>
               </tt:Transport>
           </trt:StreamSetup>
       </trt:GetStreamUri>"#;
    let security_line = match security_header {
        Some(sh) => format!("\n                {sh}"),
        None => String::new(),
    };
    let make_envelope = |env_prefix: &str, body: &str| -> String {
        let header = match security_header {
            Some(sh) => sh.to_string(),
            None => String::new(),
        };
        format!(
            "
                {env_prefix}
                {header}
                {body_open}
                {body}
                {suffix}
            "
        )
    };
    match msg_type {
        Messages::Discovery => format!(
            "
                {prefix_discovery_pt1}
                {header_pt1}{security_line}
                {header_pt2}
                {suffix_discovery}
            "
        ),
        Messages::Capabilities => make_envelope(
            prefix,
            r#"<tds:GetCapabilities>
                <tds:Category>All</tds:Category>
                </tds:GetCapabilities>"#,
        ),
        Messages::DeviceInfo => make_envelope(prefix, "<tds:GetDeviceInformation/>"),
        Messages::Profiles => make_envelope(prefix_profiles, "<trt:GetProfiles/>"),
        Messages::GetStreamURI(ref profile_token) => make_envelope(
            prefix_stream_uri,
            &format!(
                "{stream_prefix}
                <trt:ProfileToken>{profile_token}</trt:ProfileToken>
                {stream_suffix}"
            ),
        ),
        Messages::GetServices => make_envelope(
            prefix,
            r#"<tds:GetServices>
                <tds:IncludeCapability>true</tds:IncludeCapability>
                </tds:GetServices>"#,
        ),
        Messages::PullMessages => make_envelope(
            prefix,
            r#"<wsnt:PullMessages>
                    <wsnt:Timeout>PT5S</wsnt:Timeout>
                    <wsnt:MessageLimit>10</wsnt:MessageLimit>
                </wsnt:PullMessages>"#,
        ),
        Messages::CreatePullPointSubscriptionRequest => {
            make_envelope(prefix, "<tev:CreatePullPointSubscription/>")
        }
        Messages::GetProfiles => make_envelope(prefix, "<tr2:GetProfiles/>"),
        Messages::GetDNS => make_envelope(prefix, "<tds:GetDNS/>"),
        _ => unreachable!(),
    }
}

const NIL: &str = "00000000-0000-0000-0000-000000000000";

#[test]
fn device_request_without_authentication() {
    let msg = Messages::DeviceInfo;
    assert_eq!(soap_envelope(&msg, 0, None), expected(&msg, NIL, None));
    assert_eq!(soap_msg(&msg, 0, None), expected(&msg, NIL, None));
}

#[test]
fn requests_with_multi_line_bodies() {
    for msg in [Messages::Capabilities, Messages::GetServices, Messages::PullMessages] {
        assert_eq!(soap_envelope(&msg, 0, None), expected(&msg, NIL, None));
    }
}

#[test]
fn requests_that_differ_only_in_body() {
    for msg in [Messages::CreatePullPointSubscriptionRequest, Messages::GetProfiles, Messages::GetDNS] {
        assert_eq!(soap_envelope(&msg, 7, None), expected(&msg, NIL, None));
    }
}

#[test]
fn media_request_uses_the_media_namespace() {
    let msg = Messages::Profiles;
    assert_eq!(soap_envelope(&msg, 0, Some("<Header/>")), expected(&msg, NIL, Some("<Header/>")));
}

#[test]
fn stream_request_carries_the_profile_token() {
    let msg = Messages::GetStreamURI("profile_1".to_string());
    let text = soap_envelope(&msg, 0, None);
    assert_eq!(text, expected(&msg, NIL, None));
    assert!(text.contains("<trt:ProfileToken>profile_1</trt:ProfileToken>"));
}

#[test]
fn probe_carries_the_message_id() {
    let msg = Messages::Discovery;
    let id: u128 = 0x67e5504410b1426f9247bb680e5fe0c8;
    let text = soap_envelope(&msg, id, None);
    assert_eq!(text, expected(&msg, "67e55044-10b1-426f-9247-bb680e5fe0c8", None));
    assert!(text.contains("<w:MessageID>uuid:67e55044-10b1-426f-9247-bb680e5fe0c8</w:MessageID>"));
}

#[test]
fn probe_carries_the_security_header() {
    let msg = Messages::Discovery;
    let text = soap_envelope(&msg, 0, Some("<Header/>"));
    assert_eq!(text, expected(&msg, NIL, Some("<Header/>")));
    assert!(text.contains("</w:MessageID>\n                <Header/>\n                <w:To>"));
}

#[test]
fn authenticated_probe_carries_a_username_token() {
    let auth = Auth::new("admin", "password");
    let msg = Messages::Discovery;
    let text = soap_msg(&msg, 0, Some(&auth));
    let header_start = text.find("<Header>").unwrap();
    let header_end = text.find("</Header>").unwrap() + "</Header>".len();
    let header = &text[header_start..header_end];
    assert!(header.contains("<Username>admin</Username>"));
    assert_eq!(text, expected(&msg, NIL, Some(header)));
    assert_eq!(soap_msg(&msg, 0, None), expected(&msg, NIL, None));
}

#[test]
fn authenticated_request_carries_a_username_token() {
    let auth = Auth::new("admin", "password");
    let msg = Messages::Capabilities;
    let text = soap_msg(&msg, 0, Some(&auth));
    let header_start = text.find("<Header>").unwrap();
    let header_end = text.find("</Header>").unwrap() + "</Header>".len();
    let header = &text[header_start..header_end];
    assert!(header.contains("<Username>admin</Username>"));
    assert_eq!(text, expected(&msg, NIL, Some(header)));
}

#[test]
fn only_the_probe_needs_a_fresh_message_id() {
    assert!(needs_fresh_message_id(&Messages::Discovery));
    assert!(!needs_fresh_message_id(&Messages::Capabilities));
    assert!(!needs_fresh_message_id(&Messages::GetStreamURI(String::new())));
}

#[test]
fn different_requests_have_different_texts() {
    let all = vec![
        Messages::Discovery,
        Messages::Capabilities,
        Messages::DeviceInfo,
        Messages::Profiles,
        Messages::GetStreamURI("a".to_string()),
        Messages::GetStreamURI("b".to_string()),
        Messages::GetServices,
        Messages::GetServiceCapabilities,
        Messages::GetDNS,
        Messages::GetNetworkInterfaces,
        Messages::GetNetworkProtocols,
        Messages::GetNetworkDefaultGateway,
        Messages::GetDot11Capabilities,
        Messages::GetDot11Status,
        Messages::GetSystemUris,
        Messages::GetSystemLog,
        Messages::GetDiscoveryMode,
        Messages::GetGeoLocation,
        Messages::GetStorageConfigurations,
        Messages::CreatePullPointSubscriptionRequest,
        Messages::GetAnalyticsConfigurations,
        Messages::GetEventProperties,
        Messages::GetProfiles,
        Messages::GetEventBrokers,
        Messages::PullMessages,
    ];
    let texts: Vec<String> = all.iter().map(|m| soap_msg(m, 0, None)).collect();
    for i in 0..texts.len() {
        for j in 0..texts.len() {
            assert_eq!(texts[i] == texts[j], i == j);
        }
    }
}
