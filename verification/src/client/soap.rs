//! SOAP envelopes of the ONVIF requests this client sends, and the WS-Discovery
//! probe.

use vstd::prelude::*;
use vstd::string::StringExecFns;
use crate::client::security::{is_security_header, ws_security_header};
use crate::codec::uuid_hyphenated;
use crate::device::Auth;
use crate::trusted::uuid_text;

verus! {

/// All of the ONVIF requests that this client supports.
#[derive(Debug)]
pub enum Messages {
    Discovery,
    Capabilities,
    DeviceInfo,
    Profiles,
    GetStreamURI(String),
    /// A summarized version of Capabilities.
    GetServices,
    GetServiceCapabilities,
    GetDNS,
    GetNetworkInterfaces,
    GetNetworkProtocols,
    GetNetworkDefaultGateway,
    GetDot11Capabilities,
    GetDot11Status,
    GetSystemUris,
    GetSystemLog,
    GetDiscoveryMode,
    GetGeoLocation,
    GetStorageConfigurations,
    CreatePullPointSubscriptionRequest,
    GetAnalyticsConfigurations,
    GetEventProperties,
    GetProfiles,
    GetEventBrokers,
    PullMessages,
}

/// The line break and indentation that precede each part of an envelope.
pub open spec fn part_break() -> Seq<char> {
    "\n                "@
}

/// The line break and indentation that end an envelope.
pub open spec fn final_break() -> Seq<char> {
    "\n            "@
}

/// The opening of the envelope of a device-service request.
pub open spec fn device_envelope_open() -> Seq<char> {
    "<Envelope xmlns=\"http://www.w3.org/2003/05/soap-envelope\"\n                         xmlns:tds=\"http://www.onvif.org/ver10/device/wsdl\">"@
}

/// The opening of the envelope of a media-service request.
pub open spec fn media_envelope_open() -> Seq<char> {
    "<Envelope xmlns=\"http://www.w3.org/2003/05/soap-envelope\"\n                         xmlns:trt=\"http://www.onvif.org/ver10/media/wsdl\">"@
}

/// The opening of the envelope of a stream URI request.
pub open spec fn stream_envelope_open() -> Seq<char> {
    "<Envelope xmlns=\"http://www.w3.org/2003/05/soap-envelope\"\n                         xmlns:trt=\"http://www.onvif.org/ver10/media/wsdl\"\n                         xmlns:tt=\"http://www.onvif.org/ver10/schema\">"@
}

/// The XML declaration and envelope opening of a discovery probe.
pub open spec fn probe_envelope_open() -> Seq<char> {
    "<?xml version=\"1.0\" encoding=\"UTF-8\"?>\n                        <e:Envelope xmlns:e=\"http://www.w3.org/2003/05/soap-envelope\"\n                        xmlns:w=\"http://schemas.xmlsoap.org/ws/2004/08/addressing\"\n                        xmlns:d=\"http://schemas.xmlsoap.org/ws/2005/04/discovery\"\n                        xmlns:dn=\"http://www.onvif.org/ver10/network/wsdl\">"@
}

/// The addressing header of a discovery probe after its message id.
pub open spec fn probe_header_close() -> Seq<char> {
    "<w:To>urn:schemas-xmlsoap-org:ws:2005:04:discovery</w:To>\n                     <w:Action>http://schemas.xmlsoap.org/ws/2005/04/discovery/Probe</w:Action>\n                     </e:Header>"@
}

/// The body of a discovery probe, which asks for network video transmitters.
pub open spec fn probe_body() -> Seq<char> {
    "<e:Body>\n                                   <d:Probe>\n                                       <d:Types>dn:NetworkVideoTransmitter</d:Types>\n                                   </d:Probe>\n                               </e:Body>\n                           </e:Envelope>"@
}

/// The stream setup that follows the profile token of a stream URI request.
pub open spec fn stream_setup() -> Seq<char> {
    "<trt:StreamSetup>\n               <tt:Stream>RTP-Unicast</tt:Stream>\n               <tt:Transport>\n                   <tt:Protocol>RTSP</tt:Protocol>\n               </tt:Transport>\n           </trt:StreamSetup>\n       </trt:GetStreamUri>"@
}

/// The body element of each request; empty for the discovery probe, whose
/// body is fixed.
pub open spec fn request_body(msg: Messages) -> Seq<char> {
    match msg {
        Messages::Discovery => seq![],
        Messages::Capabilities => "<tds:GetCapabilities>\n                <tds:Category>All</tds:Category>\n                </tds:GetCapabilities>"@,
        Messages::DeviceInfo => "<tds:GetDeviceInformation/>"@,
        Messages::Profiles => "<trt:GetProfiles/>"@,
        Messages::GetStreamURI(token) => "<trt:GetStreamUri>"@ + "\n                <trt:ProfileToken>"@ + token@ + "</trt:ProfileToken>\n                "@ + stream_setup(),
        Messages::GetServices => "<tds:GetServices>\n                <tds:IncludeCapability>true</tds:IncludeCapability>\n                </tds:GetServices>"@,
        Messages::GetServiceCapabilities => "<tds:GetServiceCapabilities/>"@,
        Messages::GetDNS => "<tds:GetDNS/>"@,
        Messages::GetNetworkInterfaces => "<tds:GetNetworkInterfaces/>"@,
        Messages::GetNetworkProtocols => "<tds:GetNetworkProtocols/>"@,
        Messages::GetNetworkDefaultGateway => "<tds:GetNetworkDefaultGateway/>"@,
        Messages::GetDot11Capabilities => "<tds:GetDot11Capabilities/>"@,
        Messages::GetDot11Status => "<tds:GetDot11Status/>"@,
        Messages::GetSystemUris => "<tds:GetSystemUris/>"@,
        Messages::GetSystemLog => "<tds:GetSystemLog/>"@,
        Messages::GetDiscoveryMode => "<tds:GetDiscoveryMode/>"@,
        Messages::GetGeoLocation => "<tds:GetGeoLocation/>"@,
        Messages::GetStorageConfigurations => "<tds:GetStorageConfigurations/>"@,
        Messages::CreatePullPointSubscriptionRequest => "<tev:CreatePullPointSubscription/>"@,
        Messages::GetAnalyticsConfigurations => "<tns:GetAnalyticsConfigurations/>"@,
        Messages::GetEventProperties => "<tds:GetEventProperties/>"@,
        Messages::GetProfiles => "<tr2:GetProfiles/>"@,
        Messages::GetEventBrokers => "<tds:GetEventBrokers/>"@,
        Messages::PullMessages => "<wsnt:PullMessages>\n                    <wsnt:Timeout>PT5S</wsnt:Timeout>\n                    <wsnt:MessageLimit>10</wsnt:MessageLimit>\n                </wsnt:PullMessages>"@,
    }
}

/// The envelope opening of each request.
pub open spec fn envelope_open(msg: Messages) -> Seq<char> {
    match msg {
        Messages::Discovery => probe_envelope_open(),
        Messages::Profiles => media_envelope_open(),
        Messages::GetStreamURI(_) => stream_envelope_open(),
        _ => device_envelope_open(),
    }
}

/// Appends the body element of `msg` to `out`.
fn append_request_body(out: &mut String, msg: &Messages)
    ensures
        final(out)@ == old(out)@ + request_body(*msg),
{
    match msg {
        Messages::Discovery => {
            assert(old(out)@ + request_body(*msg) =~= old(out)@);
        },
        Messages::Capabilities => out.append("<tds:GetCapabilities>\n                <tds:Category>All</tds:Category>\n                </tds:GetCapabilities>"),
        Messages::DeviceInfo => out.append("<tds:GetDeviceInformation/>"),
        Messages::Profiles => out.append("<trt:GetProfiles/>"),
        Messages::GetStreamURI(token) => {
            out.append("<trt:GetStreamUri>");
            out.append("\n                <trt:ProfileToken>");
            out.append(token.as_str());
            out.append("</trt:ProfileToken>\n                ");
            out.append("<trt:StreamSetup>\n               <tt:Stream>RTP-Unicast</tt:Stream>\n               <tt:Transport>\n                   <tt:Protocol>RTSP</tt:Protocol>\n               </tt:Transport>\n           </trt:StreamSetup>\n       </trt:GetStreamUri>");
            assert(out@ =~= old(out)@ + request_body(*msg));
        },
        Messages::GetServices => out.append("<tds:GetServices>\n                <tds:IncludeCapability>true</tds:IncludeCapability>\n                </tds:GetServices>"),
        Messages::GetServiceCapabilities => out.append("<tds:GetServiceCapabilities/>"),
        Messages::GetDNS => out.append("<tds:GetDNS/>"),
        Messages::GetNetworkInterfaces => out.append("<tds:GetNetworkInterfaces/>"),
        Messages::GetNetworkProtocols => out.append("<tds:GetNetworkProtocols/>"),
        Messages::GetNetworkDefaultGateway => out.append("<tds:GetNetworkDefaultGateway/>"),
        Messages::GetDot11Capabilities => out.append("<tds:GetDot11Capabilities/>"),
        Messages::GetDot11Status => out.append("<tds:GetDot11Status/>"),
        Messages::GetSystemUris => out.append("<tds:GetSystemUris/>"),
        Messages::GetSystemLog => out.append("<tds:GetSystemLog/>"),
        Messages::GetDiscoveryMode => out.append("<tds:GetDiscoveryMode/>"),
        Messages::GetGeoLocation => out.append("<tds:GetGeoLocation/>"),
        Messages::GetStorageConfigurations => out.append("<tds:GetStorageConfigurations/>"),
        Messages::CreatePullPointSubscriptionRequest => out.append("<tev:CreatePullPointSubscription/>"),
        Messages::GetAnalyticsConfigurations => out.append("<tns:GetAnalyticsConfigurations/>"),
        Messages::GetEventProperties => out.append("<tds:GetEventProperties/>"),
        Messages::GetProfiles => out.append("<tr2:GetProfiles/>"),
        Messages::GetEventBrokers => out.append("<tds:GetEventBrokers/>"),
        Messages::PullMessages => out.append("<wsnt:PullMessages>\n                    <wsnt:Timeout>PT5S</wsnt:Timeout>\n                    <wsnt:MessageLimit>10</wsnt:MessageLimit>\n                </wsnt:PullMessages>"),
    }
}

/// Appends the envelope opening of `msg` to `out`.
fn append_envelope_open(out: &mut String, msg: &Messages)
    ensures
        final(out)@ == old(out)@ + envelope_open(*msg),
{
    match msg {
        Messages::Discovery => out.append("<?xml version=\"1.0\" encoding=\"UTF-8\"?>\n                        <e:Envelope xmlns:e=\"http://www.w3.org/2003/05/soap-envelope\"\n                        xmlns:w=\"http://schemas.xmlsoap.org/ws/2004/08/addressing\"\n                        xmlns:d=\"http://schemas.xmlsoap.org/ws/2005/04/discovery\"\n                        xmlns:dn=\"http://www.onvif.org/ver10/network/wsdl\">"),
        Messages::Profiles => out.append("<Envelope xmlns=\"http://www.w3.org/2003/05/soap-envelope\"\n                         xmlns:trt=\"http://www.onvif.org/ver10/media/wsdl\">"),
        Messages::GetStreamURI(_) => out.append("<Envelope xmlns=\"http://www.w3.org/2003/05/soap-envelope\"\n                         xmlns:trt=\"http://www.onvif.org/ver10/media/wsdl\"\n                         xmlns:tt=\"http://www.onvif.org/ver10/schema\">"),
        _ => out.append("<Envelope xmlns=\"http://www.w3.org/2003/05/soap-envelope\"\n                         xmlns:tds=\"http://www.onvif.org/ver10/device/wsdl\">"),
    }
}

/// The discovery probe whose message id is `message_id` (the text after
/// `uuid:`), carrying the security header `header` on a line of its own in its
/// `<e:Header>`, after the message id, when there is one.
pub open spec fn probe_text(message_id: Seq<char>, header: Option<Seq<char>>) -> Seq<char> {
    part_break() + probe_envelope_open() + part_break() + "<e:Header><w:MessageID>uuid:"@ + message_id
        + "</w:MessageID>"@ + match header {
        Some(h) => part_break() + h,
        None => seq![],
    } + part_break() + probe_header_close() + part_break() + probe_body() + final_break()
}

/// The envelope of request `msg` with the SOAP header text `header` (empty
/// when the request is sent without authentication).
pub open spec fn request_text(msg: Messages, header: Seq<char>) -> Seq<char> {
    part_break() + envelope_open(msg) + part_break() + header + part_break() + "<Body>"@
        + part_break() + request_body(msg) + part_break() + "</Body></Envelope>"@ + final_break()
}

/// The text sent for `msg`: the probe for `Discovery`, whose message id is the
/// hyphenated UUID `message_id`; otherwise the request envelope. Each carries
/// the given security header; a request without one has an empty header line,
/// a probe without one no header line.
pub open spec fn soap_text(msg: Messages, message_id: u128, header: Option<Seq<char>>) -> Seq<char> {
    match msg {
        Messages::Discovery => probe_text(uuid_hyphenated(message_id), header),
        _ => request_text(
            msg,
            match header {
                Some(h) => h,
                None => seq![],
            },
        ),
    }
}

/// The text sent for `msg`, with the given security header already built.
pub fn soap_envelope(msg: &Messages, message_id: u128, security_header: Option<&str>) -> (text: String)
    ensures
        text@ == soap_text(
            *msg,
            message_id,
            match security_header {
                Some(h) => Some(h@),
                None => None,
            },
        ),
{
    let mut out = String::new();
    match msg {
        Messages::Discovery => {
            let id = uuid_text(message_id);
            out.append("\n                ");
            append_envelope_open(&mut out, msg);
            out.append("\n                ");
            out.append("<e:Header><w:MessageID>uuid:");
            out.append(id.as_str());
            out.append("</w:MessageID>");
            match security_header {
                Some(h) => {
                    out.append("\n                ");
                    out.append(h);
                },
                None => {},
            }
            out.append("\n                ");
            out.append("<w:To>urn:schemas-xmlsoap-org:ws:2005:04:discovery</w:To>\n                     <w:Action>http://schemas.xmlsoap.org/ws/2005/04/discovery/Probe</w:Action>\n                     </e:Header>");
            out.append("\n                ");
            out.append("<e:Body>\n                                   <d:Probe>\n                                       <d:Types>dn:NetworkVideoTransmitter</d:Types>\n                                   </d:Probe>\n                               </e:Body>\n                           </e:Envelope>");
            out.append("\n            ");
            assert(out@ =~= soap_text(
                *msg,
                message_id,
                match security_header {
                    Some(h) => Some(h@),
                    None => None,
                },
            ));
        },
        _ => {
            out.append("\n                ");
            append_envelope_open(&mut out, msg);
            out.append("\n                ");
            match security_header {
                Some(h) => out.append(h),
                None => {},
            }
            out.append("\n                ");
            out.append("<Body>");
            out.append("\n                ");
            append_request_body(&mut out, msg);
            out.append("\n                ");
            out.append("</Body></Envelope>");
            out.append("\n            ");
            assert(out@ =~= soap_text(
                *msg,
                message_id,
                match security_header {
                    Some(h) => Some(h@),
                    None => None,
                },
            ));
        },
    }
    out
}

/// The SOAP text of request `msg`. `Discovery` carries `message_id` as its
/// message id. Every request, the probe included, carries a fresh WS-Security
/// UsernameToken header for the user name and password of `auth` when it is
/// given, and none when it is not.
pub fn soap_msg(msg_type: &Messages, message_id: u128, auth: Option<&Auth>) -> (text: String)
    ensures
        auth is None ==> text@ == soap_text(*msg_type, message_id, None),
        auth matches Some(a) ==> exists|h: Seq<char>|
            is_security_header(h, a.username@, a.password@) && text@ == soap_text(
                *msg_type,
                message_id,
                Some(h),
            ),
{
    match auth {
        Some(a) => {
            let header = ws_security_header(a.username.as_str(), a.password.as_str());
            let text = soap_envelope(msg_type, message_id, Some(header.as_str()));
            assert(is_security_header(header@, a.username@, a.password@));
            text
        },
        None => soap_envelope(msg_type, message_id, None),
    }
}

/// The text that precedes the place of the security header in the text sent
/// for `msg`.
pub open spec fn text_before_header(msg: Messages, message_id: u128) -> Seq<char> {
    match msg {
        Messages::Discovery => part_break() + probe_envelope_open() + part_break()
            + "<e:Header><w:MessageID>uuid:"@ + uuid_hyphenated(message_id) + "</w:MessageID>"@,
        _ => part_break() + envelope_open(msg) + part_break(),
    }
}

/// The text that follows the place of the security header in the text sent
/// for `msg`.
pub open spec fn text_after_header(msg: Messages) -> Seq<char> {
    match msg {
        Messages::Discovery => part_break() + probe_header_close() + part_break() + probe_body()
            + final_break(),
        _ => part_break() + "<Body>"@ + part_break() + request_body(msg) + part_break()
            + "</Body></Envelope>"@ + final_break(),
    }
}

/// How the security header `h` enters the text sent for `msg`: on its own
/// line in the probe, as the header line of any other request.
pub open spec fn header_insert(msg: Messages, h: Seq<char>) -> Seq<char> {
    match msg {
        Messages::Discovery => part_break() + h,
        _ => h,
    }
}

/// The security header enters the text whole, at one place, between the
/// envelope opening and the body: the text with a header is the text without
/// one with the header put in, and taking it out gives back the text without.
pub proof fn lemma_header_splice(msg: Messages, message_id: u128, h: Seq<char>)
    ensures
        soap_text(msg, message_id, None) == text_before_header(msg, message_id)
            + text_after_header(msg),
        soap_text(msg, message_id, Some(h)) == text_before_header(msg, message_id)
            + header_insert(msg, h) + text_after_header(msg),
{
    match msg {
        Messages::Discovery => {
            assert(soap_text(msg, message_id, None) =~= text_before_header(msg, message_id)
                + text_after_header(msg));
            assert(soap_text(msg, message_id, Some(h)) =~= text_before_header(msg, message_id)
                + header_insert(msg, h) + text_after_header(msg));
        },
        _ => {
            assert(soap_text(msg, message_id, None) =~= text_before_header(msg, message_id)
                + text_after_header(msg));
            assert(soap_text(msg, message_id, Some(h)) =~= text_before_header(msg, message_id)
                + header_insert(msg, h) + text_after_header(msg));
        },
    }
}

/// Every request other than the probe ignores the message id, and sending it
/// without authentication is sending it with an empty header.
pub proof fn lemma_request_without_header(msg: Messages, first: u128, second: u128)
    requires
        !(msg is Discovery),
    ensures
        soap_text(msg, first, None) == soap_text(msg, second, Some(seq![])),
{
}

/// The XML namespace prefix of the service that each request is addressed to.
pub open spec fn service_prefix(msg: Messages) -> Seq<char> {
    match msg {
        Messages::Profiles | Messages::GetStreamURI(_) => "trt"@,
        Messages::CreatePullPointSubscriptionRequest => "tev"@,
        Messages::GetAnalyticsConfigurations => "tns"@,
        Messages::GetProfiles => "tr2"@,
        Messages::PullMessages => "wsnt"@,
        _ => "tds"@,
    }
}

/// The name of the ONVIF operation that each request invokes.
pub open spec fn operation_name(msg: Messages) -> Seq<char> {
    match msg {
        Messages::Discovery => "Probe"@,
        Messages::Capabilities => "GetCapabilities"@,
        Messages::DeviceInfo => "GetDeviceInformation"@,
        Messages::Profiles => "GetProfiles"@,
        Messages::GetStreamURI(_) => "GetStreamUri"@,
        Messages::GetServices => "GetServices"@,
        Messages::GetServiceCapabilities => "GetServiceCapabilities"@,
        Messages::GetDNS => "GetDNS"@,
        Messages::GetNetworkInterfaces => "GetNetworkInterfaces"@,
        Messages::GetNetworkProtocols => "GetNetworkProtocols"@,
        Messages::GetNetworkDefaultGateway => "GetNetworkDefaultGateway"@,
        Messages::GetDot11Capabilities => "GetDot11Capabilities"@,
        Messages::GetDot11Status => "GetDot11Status"@,
        Messages::GetSystemUris => "GetSystemUris"@,
        Messages::GetSystemLog => "GetSystemLog"@,
        Messages::GetDiscoveryMode => "GetDiscoveryMode"@,
        Messages::GetGeoLocation => "GetGeoLocation"@,
        Messages::GetStorageConfigurations => "GetStorageConfigurations"@,
        Messages::CreatePullPointSubscriptionRequest => "CreatePullPointSubscription"@,
        Messages::GetAnalyticsConfigurations => "GetAnalyticsConfigurations"@,
        Messages::GetEventProperties => "GetEventProperties"@,
        Messages::GetProfiles => "GetProfiles"@,
        Messages::GetEventBrokers => "GetEventBrokers"@,
        Messages::PullMessages => "PullMessages"@,
    }
}

/// The requests that carry no parameters.
pub open spec fn is_bare_query(msg: Messages) -> bool {
    !(msg is Discovery || msg is Capabilities || msg is GetServices || msg is GetStreamURI
        || msg is PullMessages)
}

/// The empty element `<prefix:name/>`.
pub open spec fn empty_element(prefix: Seq<char>, name: Seq<char>) -> Seq<char> {
    "<"@ + prefix + ":"@ + name + "/>"@
}

/// The start tag `<prefix:name>`.
pub open spec fn start_tag(prefix: Seq<char>, name: Seq<char>) -> Seq<char> {
    "<"@ + prefix + ":"@ + name + ">"@
}

/// The end tag `</prefix:name>`.
pub open spec fn end_tag(prefix: Seq<char>, name: Seq<char>) -> Seq<char> {
    "</"@ + prefix + ":"@ + name + ">"@
}

/// The body of every request names the operation it invokes, in the
/// namespace of its service: a request without parameters is the single empty
/// element of that operation, and one with parameters is an element of that
/// operation, from its start tag to its end tag.
pub proof fn lemma_body_names_operation(msg: Messages)
    requires
        !(msg is Discovery),
    ensures
        is_bare_query(msg) ==> request_body(msg) == empty_element(
            service_prefix(msg),
            operation_name(msg),
        ),
        !is_bare_query(msg) ==> {
            let body = request_body(msg);
            let open = start_tag(service_prefix(msg), operation_name(msg));
            let close = end_tag(service_prefix(msg), operation_name(msg));
            &&& body.len() >= open.len() + close.len()
            &&& body.subrange(0, open.len() as int) == open
            &&& body.subrange(body.len() - close.len(), body.len() as int) == close
        },
{
    reveal_strlit("<");
    reveal_strlit(":");
    reveal_strlit("/>");
    reveal_strlit(">");
    reveal_strlit("</");
    reveal_strlit("tds");
    reveal_strlit("trt");
    reveal_strlit("tev");
    reveal_strlit("tns");
    reveal_strlit("tr2");
    reveal_strlit("wsnt");
    match msg {
        Messages::Capabilities => {
            reveal_strlit("GetCapabilities");
            reveal_strlit("<tds:GetCapabilities>\n                <tds:Category>All</tds:Category>\n                </tds:GetCapabilities>");
            let body = request_body(msg);
            assert(body.subrange(0, 21) =~= start_tag(service_prefix(msg), operation_name(msg)));
            assert(body.subrange(body.len() - 22, body.len() as int) =~= end_tag(service_prefix(msg), operation_name(msg)));
        },
        Messages::GetServices => {
            reveal_strlit("GetServices");
            reveal_strlit("<tds:GetServices>\n                <tds:IncludeCapability>true</tds:IncludeCapability>\n                </tds:GetServices>");
            let body = request_body(msg);
            assert(body.subrange(0, 17) =~= start_tag(service_prefix(msg), operation_name(msg)));
            assert(body.subrange(body.len() - 18, body.len() as int) =~= end_tag(service_prefix(msg), operation_name(msg)));
        },
        Messages::PullMessages => {
            reveal_strlit("PullMessages");
            reveal_strlit("<wsnt:PullMessages>\n                    <wsnt:Timeout>PT5S</wsnt:Timeout>\n                    <wsnt:MessageLimit>10</wsnt:MessageLimit>\n                </wsnt:PullMessages>");
            let body = request_body(msg);
            assert(body.subrange(0, 19) =~= start_tag(service_prefix(msg), operation_name(msg)));
            assert(body.subrange(body.len() - 20, body.len() as int) =~= end_tag(service_prefix(msg), operation_name(msg)));
        },
        Messages::GetStreamURI(token) => {
            reveal_strlit("GetStreamUri");
            reveal_strlit("<trt:GetStreamUri>");
            reveal_strlit("\n                <trt:ProfileToken>");
            reveal_strlit("</trt:ProfileToken>\n                ");
            reveal_strlit("<trt:StreamSetup>\n               <tt:Stream>RTP-Unicast</tt:Stream>\n               <tt:Transport>\n                   <tt:Protocol>RTSP</tt:Protocol>\n               </tt:Transport>\n           </trt:StreamSetup>\n       </trt:GetStreamUri>");
            let head = "<trt:GetStreamUri>"@;
            let rest = "\n                <trt:ProfileToken>"@ + token@ + "</trt:ProfileToken>\n                "@;
            let setup = stream_setup();
            let body = request_body(msg);
            assert(body =~= head + (rest + setup));
            assert(body.subrange(0, 18) =~= head);
            assert(head =~= start_tag(service_prefix(msg), operation_name(msg)));
            assert(body =~= (head + rest) + setup);
            assert(body.subrange(body.len() - 19, body.len() as int) =~= setup.subrange(setup.len() - 19, setup.len() as int));
            assert(setup.subrange(setup.len() - 19, setup.len() as int) =~= end_tag(service_prefix(msg), operation_name(msg)));
        },
        Messages::DeviceInfo => {
            reveal_strlit("GetDeviceInformation");
            reveal_strlit("<tds:GetDeviceInformation/>");
            assert(request_body(msg) =~= empty_element(service_prefix(msg), operation_name(msg)));
        },
        Messages::Profiles => {
            reveal_strlit("GetProfiles");
            reveal_strlit("<trt:GetProfiles/>");
            assert(request_body(msg) =~= empty_element(service_prefix(msg), operation_name(msg)));
        },
        Messages::GetServiceCapabilities => {
            reveal_strlit("GetServiceCapabilities");
            reveal_strlit("<tds:GetServiceCapabilities/>");
            assert(request_body(msg) =~= empty_element(service_prefix(msg), operation_name(msg)));
        },
        Messages::GetDNS => {
            reveal_strlit("GetDNS");
            reveal_strlit("<tds:GetDNS/>");
            assert(request_body(msg) =~= empty_element(service_prefix(msg), operation_name(msg)));
        },
        Messages::GetNetworkInterfaces => {
            reveal_strlit("GetNetworkInterfaces");
            reveal_strlit("<tds:GetNetworkInterfaces/>");
            assert(request_body(msg) =~= empty_element(service_prefix(msg), operation_name(msg)));
        },
        Messages::GetNetworkProtocols => {
            reveal_strlit("GetNetworkProtocols");
            reveal_strlit("<tds:GetNetworkProtocols/>");
            assert(request_body(msg) =~= empty_element(service_prefix(msg), operation_name(msg)));
        },
        Messages::GetNetworkDefaultGateway => {
            reveal_strlit("GetNetworkDefaultGateway");
            reveal_strlit("<tds:GetNetworkDefaultGateway/>");
            assert(request_body(msg) =~= empty_element(service_prefix(msg), operation_name(msg)));
        },
        Messages::GetDot11Capabilities => {
            reveal_strlit("GetDot11Capabilities");
            reveal_strlit("<tds:GetDot11Capabilities/>");
            assert(request_body(msg) =~= empty_element(service_prefix(msg), operation_name(msg)));
        },
        Messages::GetDot11Status => {
            reveal_strlit("GetDot11Status");
            reveal_strlit("<tds:GetDot11Status/>");
            assert(request_body(msg) =~= empty_element(service_prefix(msg), operation_name(msg)));
        },
        Messages::GetSystemUris => {
            reveal_strlit("GetSystemUris");
            reveal_strlit("<tds:GetSystemUris/>");
            assert(request_body(msg) =~= empty_element(service_prefix(msg), operation_name(msg)));
        },
        Messages::GetSystemLog => {
            reveal_strlit("GetSystemLog");
            reveal_strlit("<tds:GetSystemLog/>");
            assert(request_body(msg) =~= empty_element(service_prefix(msg), operation_name(msg)));
        },
        Messages::GetDiscoveryMode => {
            reveal_strlit("GetDiscoveryMode");
            reveal_strlit("<tds:GetDiscoveryMode/>");
            assert(request_body(msg) =~= empty_element(service_prefix(msg), operation_name(msg)));
        },
        Messages::GetGeoLocation => {
            reveal_strlit("GetGeoLocation");
            reveal_strlit("<tds:GetGeoLocation/>");
            assert(request_body(msg) =~= empty_element(service_prefix(msg), operation_name(msg)));
        },
        Messages::GetStorageConfigurations => {
            reveal_strlit("GetStorageConfigurations");
            reveal_strlit("<tds:GetStorageConfigurations/>");
            assert(request_body(msg) =~= empty_element(service_prefix(msg), operation_name(msg)));
        },
        Messages::CreatePullPointSubscriptionRequest => {
            reveal_strlit("CreatePullPointSubscription");
            reveal_strlit("<tev:CreatePullPointSubscription/>");
            assert(request_body(msg) =~= empty_element(service_prefix(msg), operation_name(msg)));
        },
        Messages::GetAnalyticsConfigurations => {
            reveal_strlit("GetAnalyticsConfigurations");
            reveal_strlit("<tns:GetAnalyticsConfigurations/>");
            assert(request_body(msg) =~= empty_element(service_prefix(msg), operation_name(msg)));
        },
        Messages::GetEventProperties => {
            reveal_strlit("GetEventProperties");
            reveal_strlit("<tds:GetEventProperties/>");
            assert(request_body(msg) =~= empty_element(service_prefix(msg), operation_name(msg)));
        },
        Messages::GetProfiles => {
            reveal_strlit("GetProfiles");
            reveal_strlit("<tr2:GetProfiles/>");
            assert(request_body(msg) =~= empty_element(service_prefix(msg), operation_name(msg)));
        },
        Messages::GetEventBrokers => {
            reveal_strlit("GetEventBrokers");
            reveal_strlit("<tds:GetEventBrokers/>");
            assert(request_body(msg) =~= empty_element(service_prefix(msg), operation_name(msg)));
        },
        Messages::Discovery => {},
    }
}

/// The element `<prefix:name>content</prefix:name>`.
pub open spec fn text_element(prefix: Seq<char>, name: Seq<char>, content: Seq<char>) -> Seq<char> {
    start_tag(prefix, name) + content + end_tag(prefix, name)
}

/// The parameters that requests carry: capabilities of every category,
/// services with their capabilities, the stream URI of the given profile
/// token, and pulled messages with a five-second timeout and at most ten
/// messages.
pub proof fn lemma_request_parameters(token: Seq<char>)
    ensures
        forall|m: Messages| #![trigger request_body(m)] m is Capabilities ==> request_body(m) == text_element(
            "tds"@,
            "GetCapabilities"@,
            part_break() + text_element("tds"@, "Category"@, "All"@) + part_break(),
        ),
        forall|m: Messages| #![trigger request_body(m)] m is GetServices ==> request_body(m) == text_element(
            "tds"@,
            "GetServices"@,
            part_break() + text_element("tds"@, "IncludeCapability"@, "true"@) + part_break(),
        ),
        forall|m: Messages| #![trigger request_body(m)] m is PullMessages ==> request_body(m) == text_element(
            "wsnt"@,
            "PullMessages"@,
            "\n                    "@ + text_element("wsnt"@, "Timeout"@, "PT5S"@)
                + "\n                    "@ + text_element("wsnt"@, "MessageLimit"@, "10"@)
                + part_break(),
        ),
        forall|m: Messages| #![trigger request_body(m)] m matches Messages::GetStreamURI(t) && t@ == token ==> request_body(m)
            == start_tag("trt"@, "GetStreamUri"@) + part_break() + text_element(
            "trt"@,
            "ProfileToken"@,
            token,
        ) + part_break() + stream_setup(),
{
    reveal_strlit("<");
    reveal_strlit(":");
    reveal_strlit(">");
    reveal_strlit("</");
    reveal_strlit("tds");
    reveal_strlit("trt");
    reveal_strlit("wsnt");
    reveal_strlit("\n                ");
    reveal_strlit("\n                    ");
    reveal_strlit("GetCapabilities");
    reveal_strlit("Category");
    reveal_strlit("All");
    reveal_strlit("GetServices");
    reveal_strlit("IncludeCapability");
    reveal_strlit("true");
    reveal_strlit("PullMessages");
    reveal_strlit("Timeout");
    reveal_strlit("PT5S");
    reveal_strlit("MessageLimit");
    reveal_strlit("10");
    reveal_strlit("GetStreamUri");
    reveal_strlit("ProfileToken");
    reveal_strlit("<trt:GetStreamUri>");
    reveal_strlit("\n                <trt:ProfileToken>");
    reveal_strlit("</trt:ProfileToken>\n                ");
    reveal_strlit("<tds:GetCapabilities>\n                <tds:Category>All</tds:Category>\n                </tds:GetCapabilities>");
    reveal_strlit("<tds:GetServices>\n                <tds:IncludeCapability>true</tds:IncludeCapability>\n                </tds:GetServices>");
    reveal_strlit("<wsnt:PullMessages>\n                    <wsnt:Timeout>PT5S</wsnt:Timeout>\n                    <wsnt:MessageLimit>10</wsnt:MessageLimit>\n                </wsnt:PullMessages>");
    assert(request_body(Messages::Capabilities) =~= text_element(
        "tds"@,
        "GetCapabilities"@,
        part_break() + text_element("tds"@, "Category"@, "All"@) + part_break(),
    ));
    assert(request_body(Messages::GetServices) =~= text_element(
        "tds"@,
        "GetServices"@,
        part_break() + text_element("tds"@, "IncludeCapability"@, "true"@) + part_break(),
    ));
    assert(request_body(Messages::PullMessages) =~= text_element(
        "wsnt"@,
        "PullMessages"@,
        "\n                    "@ + text_element("wsnt"@, "Timeout"@, "PT5S"@)
            + "\n                    "@ + text_element("wsnt"@, "MessageLimit"@, "10"@)
            + part_break(),
    ));
    assert forall|m: Messages| #![trigger request_body(m)] m matches Messages::GetStreamURI(t) && t@ == token implies request_body(m)
        == start_tag("trt"@, "GetStreamUri"@) + part_break() + text_element(
        "trt"@,
        "ProfileToken"@,
        token,
    ) + part_break() + stream_setup() by {
        assert(request_body(m) =~= start_tag("trt"@, "GetStreamUri"@) + part_break() + text_element(
            "trt"@,
            "ProfileToken"@,
            token,
        ) + part_break() + stream_setup());
    }
}

/// The number of each kind of request, in the order of `Messages`.
pub open spec fn request_kind(msg: Messages) -> int {
    match msg {
        Messages::Discovery => 0,
        Messages::Capabilities => 1,
        Messages::DeviceInfo => 2,
        Messages::Profiles => 3,
        Messages::GetStreamURI(_) => 4,
        Messages::GetServices => 5,
        Messages::GetServiceCapabilities => 6,
        Messages::GetDNS => 7,
        Messages::GetNetworkInterfaces => 8,
        Messages::GetNetworkProtocols => 9,
        Messages::GetNetworkDefaultGateway => 10,
        Messages::GetDot11Capabilities => 11,
        Messages::GetDot11Status => 12,
        Messages::GetSystemUris => 13,
        Messages::GetSystemLog => 14,
        Messages::GetDiscoveryMode => 15,
        Messages::GetGeoLocation => 16,
        Messages::GetStorageConfigurations => 17,
        Messages::CreatePullPointSubscriptionRequest => 18,
        Messages::GetAnalyticsConfigurations => 19,
        Messages::GetEventProperties => 20,
        Messages::GetProfiles => 21,
        Messages::GetEventBrokers => 22,
        Messages::PullMessages => 23,
    }
}

/// `first` and `second` are the same request: of the same kind, and for
/// stream URI requests with the same profile token.
pub open spec fn same_request(first: Messages, second: Messages) -> bool {
    match (first, second) {
        (Messages::GetStreamURI(a), Messages::GetStreamURI(b)) => a@ == b@,
        _ => request_kind(first) == request_kind(second),
    }
}

/// Where the envelope openings and the part break differ from each other.
proof fn lemma_envelope_openings()
    ensures
        part_break().len() == 17,
        device_envelope_open().len() == 134,
        media_envelope_open().len() == 133,
        stream_envelope_open().len() == 203,
        probe_envelope_open().len() == 365,
        device_envelope_open()[1] == 'E',
        media_envelope_open()[1] == 'E',
        stream_envelope_open()[1] == 'E',
        probe_envelope_open()[1] == '?',
        device_envelope_open()[90] == 'd',
        media_envelope_open()[90] == 'r',
        stream_envelope_open()[90] == 'r',
        media_envelope_open()[132] == '>',
        stream_envelope_open()[132] == '\n',
{
    reveal_strlit("\n                ");
    reveal_strlit("<Envelope xmlns=\"http://www.w3.org/2003/05/soap-envelope\"\n                         xmlns:tds=\"http://www.onvif.org/ver10/device/wsdl\">");
    reveal_strlit("<Envelope xmlns=\"http://www.w3.org/2003/05/soap-envelope\"\n                         xmlns:trt=\"http://www.onvif.org/ver10/media/wsdl\">");
    reveal_strlit("<Envelope xmlns=\"http://www.w3.org/2003/05/soap-envelope\"\n                         xmlns:trt=\"http://www.onvif.org/ver10/media/wsdl\"\n                         xmlns:tt=\"http://www.onvif.org/ver10/schema\">");
    reveal_strlit("<?xml version=\"1.0\" encoding=\"UTF-8\"?>\n                        <e:Envelope xmlns:e=\"http://www.w3.org/2003/05/soap-envelope\"\n                        xmlns:w=\"http://schemas.xmlsoap.org/ws/2004/08/addressing\"\n                        xmlns:d=\"http://schemas.xmlsoap.org/ws/2005/04/discovery\"\n                        xmlns:dn=\"http://www.onvif.org/ver10/network/wsdl\">");
}

/// The length and the ninth and tenth characters of the bodies of the
/// device-service requests, which tell them apart.
proof fn lemma_device_bodies()
    ensures
        request_body(Messages::Capabilities).len() == 109,
        request_body(Messages::Capabilities)[8] == 'C',
        request_body(Messages::Capabilities)[9] == 'a',
        request_body(Messages::DeviceInfo).len() == 27,
        request_body(Messages::DeviceInfo)[8] == 'D',
        request_body(Messages::DeviceInfo)[9] == 'e',
        request_body(Messages::GetServices).len() == 120,
        request_body(Messages::GetServices)[8] == 'S',
        request_body(Messages::GetServices)[9] == 'e',
        request_body(Messages::GetServiceCapabilities).len() == 29,
        request_body(Messages::GetServiceCapabilities)[8] == 'S',
        request_body(Messages::GetServiceCapabilities)[9] == 'e',
        request_body(Messages::GetDNS).len() == 13,
        request_body(Messages::GetDNS)[8] == 'D',
        request_body(Messages::GetDNS)[9] == 'N',
        request_body(Messages::GetNetworkInterfaces).len() == 27,
        request_body(Messages::GetNetworkInterfaces)[8] == 'N',
        request_body(Messages::GetNetworkInterfaces)[9] == 'e',
        request_body(Messages::GetNetworkProtocols).len() == 26,
        request_body(Messages::GetNetworkProtocols)[8] == 'N',
        request_body(Messages::GetNetworkProtocols)[9] == 'e',
        request_body(Messages::GetNetworkDefaultGateway).len() == 31,
        request_body(Messages::GetNetworkDefaultGateway)[8] == 'N',
        request_body(Messages::GetNetworkDefaultGateway)[9] == 'e',
        request_body(Messages::GetDot11Capabilities).len() == 27,
        request_body(Messages::GetDot11Capabilities)[8] == 'D',
        request_body(Messages::GetDot11Capabilities)[9] == 'o',
        request_body(Messages::GetDot11Status).len() == 21,
        request_body(Messages::GetDot11Status)[8] == 'D',
        request_body(Messages::GetDot11Status)[9] == 'o',
        request_body(Messages::GetSystemUris).len() == 20,
        request_body(Messages::GetSystemUris)[8] == 'S',
        request_body(Messages::GetSystemUris)[9] == 'y',
        request_body(Messages::GetSystemLog).len() == 19,
        request_body(Messages::GetSystemLog)[8] == 'S',
        request_body(Messages::GetSystemLog)[9] == 'y',
        request_body(Messages::GetDiscoveryMode).len() == 23,
        request_body(Messages::GetDiscoveryMode)[8] == 'D',
        request_body(Messages::GetDiscoveryMode)[9] == 'i',
        request_body(Messages::GetGeoLocation).len() == 21,
        request_body(Messages::GetGeoLocation)[8] == 'G',
        request_body(Messages::GetGeoLocation)[9] == 'e',
        request_body(Messages::GetStorageConfigurations).len() == 31,
        request_body(Messages::GetStorageConfigurations)[8] == 'S',
        request_body(Messages::GetStorageConfigurations)[9] == 't',
        request_body(Messages::CreatePullPointSubscriptionRequest).len() == 34,
        request_body(Messages::CreatePullPointSubscriptionRequest)[8] == 'a',
        request_body(Messages::CreatePullPointSubscriptionRequest)[9] == 't',
        request_body(Messages::GetAnalyticsConfigurations).len() == 33,
        request_body(Messages::GetAnalyticsConfigurations)[8] == 'A',
        request_body(Messages::GetAnalyticsConfigurations)[9] == 'n',
        request_body(Messages::GetEventProperties).len() == 25,
        request_body(Messages::GetEventProperties)[8] == 'E',
        request_body(Messages::GetEventProperties)[9] == 'v',
        request_body(Messages::GetProfiles).len() == 18,
        request_body(Messages::GetProfiles)[8] == 'P',
        request_body(Messages::GetProfiles)[9] == 'r',
        request_body(Messages::GetEventBrokers).len() == 22,
        request_body(Messages::GetEventBrokers)[8] == 'E',
        request_body(Messages::GetEventBrokers)[9] == 'v',
        request_body(Messages::PullMessages).len() == 172,
        request_body(Messages::PullMessages)[8] == 'l',
        request_body(Messages::PullMessages)[9] == 'l',
{
    reveal_strlit("<tds:GetCapabilities>\n                <tds:Category>All</tds:Category>\n                </tds:GetCapabilities>");
    reveal_strlit("<tds:GetDeviceInformation/>");
    reveal_strlit("<tds:GetServices>\n                <tds:IncludeCapability>true</tds:IncludeCapability>\n                </tds:GetServices>");
    reveal_strlit("<tds:GetServiceCapabilities/>");
    reveal_strlit("<tds:GetDNS/>");
    reveal_strlit("<tds:GetNetworkInterfaces/>");
    reveal_strlit("<tds:GetNetworkProtocols/>");
    reveal_strlit("<tds:GetNetworkDefaultGateway/>");
    reveal_strlit("<tds:GetDot11Capabilities/>");
    reveal_strlit("<tds:GetDot11Status/>");
    reveal_strlit("<tds:GetSystemUris/>");
    reveal_strlit("<tds:GetSystemLog/>");
    reveal_strlit("<tds:GetDiscoveryMode/>");
    reveal_strlit("<tds:GetGeoLocation/>");
    reveal_strlit("<tds:GetStorageConfigurations/>");
    reveal_strlit("<tev:CreatePullPointSubscription/>");
    reveal_strlit("<tns:GetAnalyticsConfigurations/>");
    reveal_strlit("<tds:GetEventProperties/>");
    reveal_strlit("<tr2:GetProfiles/>");
    reveal_strlit("<tds:GetEventBrokers/>");
    reveal_strlit("<wsnt:PullMessages>\n                    <wsnt:Timeout>PT5S</wsnt:Timeout>\n                    <wsnt:MessageLimit>10</wsnt:MessageLimit>\n                </wsnt:PullMessages>");
}

/// Requests with the same envelope opening and the same body are the same
/// request.
proof fn lemma_body_determines_request(first: Messages, second: Messages)
    requires
        !(first is Discovery),
        !(second is Discovery),
        envelope_open(first) == envelope_open(second),
        request_body(first) == request_body(second),
    ensures
        same_request(first, second),
{
    lemma_envelope_openings();
    lemma_device_bodies();
    match (first, second) {
        (Messages::GetStreamURI(a), Messages::GetStreamURI(b)) => {
            reveal_strlit("<trt:GetStreamUri>");
            reveal_strlit("\n                <trt:ProfileToken>");
            let head = "<trt:GetStreamUri>"@ + "\n                <trt:ProfileToken>"@;
            let tail = "</trt:ProfileToken>\n                "@ + stream_setup();
            let body = request_body(first);
            assert(body =~= head + a@ + tail);
            assert(request_body(second) =~= head + b@ + tail);
            assert(a@.len() == b@.len());
            assert(a@ =~= body.subrange(head.len() as int, (head.len() + a@.len()) as int));
            assert(b@ =~= body.subrange(head.len() as int, (head.len() + b@.len()) as int));
        },
        _ => {},
    }
}

/// The opening that a text sent without authentication starts with.
pub open spec fn opening_of(msg: Messages) -> Seq<char> {
    match msg {
        Messages::Discovery => probe_envelope_open(),
        _ => envelope_open(msg),
    }
}

/// Every text sent starts with a line break and the envelope opening.
proof fn lemma_text_opens(msg: Messages, message_id: u128)
    ensures
        soap_text(msg, message_id, None).len() >= part_break().len() + opening_of(msg).len(),
        soap_text(msg, message_id, None).subrange(
            0,
            (part_break().len() + opening_of(msg).len()) as int,
        ) == part_break() + opening_of(msg),
{
    lemma_header_splice(msg, message_id, seq![]);
    let t = soap_text(msg, message_id, None);
    let head = part_break() + opening_of(msg);
    assert(t =~= head + t.subrange(head.len() as int, t.len() as int));
    assert(t.subrange(0, head.len() as int) =~= head);
}

/// The text of a request other than the probe, sent without authentication,
/// around its body.
proof fn lemma_text_around_body(msg: Messages, message_id: u128)
    requires
        !(msg is Discovery),
    ensures
        soap_text(msg, message_id, None) == (part_break() + envelope_open(msg) + part_break()
            + part_break() + "<Body>"@ + part_break()) + request_body(msg) + (part_break()
            + "</Body></Envelope>"@ + final_break()),
{
    assert(soap_text(msg, message_id, None) =~= (part_break() + envelope_open(msg) + part_break()
        + part_break() + "<Body>"@ + part_break()) + request_body(msg) + (part_break()
        + "</Body></Envelope>"@ + final_break()));
}

/// Requests whose texts agree have the same opening.
proof fn lemma_same_text_same_opening(first: Messages, second: Messages, message_id: u128)
    requires
        soap_text(first, message_id, None) == soap_text(second, message_id, None),
    ensures
        opening_of(first) == opening_of(second),
{
    lemma_envelope_openings();
    lemma_text_opens(first, message_id);
    lemma_text_opens(second, message_id);
    let t = soap_text(first, message_id, None);
    let o1 = opening_of(first);
    let o2 = opening_of(second);
    assert forall|i: int| 0 <= i < o1.len() && i < o2.len() implies o1[i] == o2[i] by {
        assert(t.subrange(0, 17 + o1.len() as int)[17 + i] == o1[i]);
        assert(t.subrange(0, 17 + o2.len() as int)[17 + i] == o2[i]);
    }
    if o1 != o2 {
        assert(o1[1] == o2[1]);
        assert(o1[90] == o2[90]);
        assert(o1[132] == o2[132]);
    }
}

/// Different requests are never sent as the same text: the kind of request
/// and, for a stream URI request, its profile token can be read back from the
/// text sent without authentication.
pub proof fn lemma_distinct_requests(first: Messages, second: Messages, message_id: u128)
    requires
        !same_request(first, second),
    ensures
        soap_text(first, message_id, None) != soap_text(second, message_id, None),
{
    let t1 = soap_text(first, message_id, None);
    let t2 = soap_text(second, message_id, None);
    if t1 == t2 {
        lemma_same_text_same_opening(first, second, message_id);
        lemma_envelope_openings();
        if first is Discovery || second is Discovery {
            assert(probe_envelope_open()[1] != device_envelope_open()[1]);
            assert(first is Discovery && second is Discovery);
        } else {
            lemma_text_around_body(first, message_id);
            lemma_text_around_body(second, message_id);
            let a = part_break() + envelope_open(first) + part_break() + part_break() + "<Body>"@
                + part_break();
            let c = part_break() + "</Body></Envelope>"@ + final_break();
            assert(request_body(first) =~= t1.subrange(a.len() as int, t1.len() - c.len()));
            assert(request_body(second) =~= t2.subrange(a.len() as int, t2.len() - c.len()));
            lemma_body_determines_request(first, second);
        }
    }
}

} // verus!
