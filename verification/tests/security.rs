use onvif_cam_rs::client::security::{password_digest_header, security_header_xml, ws_security_header};

fn header(username: &str, digest: &str, nonce_b64: &str, created: &str) -> String {
    format!(
        r#"<Header>
        <Security s:mustUnderstand="1" xmlns="http://docs.oasis-open.org/wss/2004/01/oasis-200401-wss-wssecurity-secext-1.0.xsd">
            <UsernameToken>
                <Username>{username}</Username>
                <Password Type="http://docs.oasis-open.org/wss/2004/01/oasis-200401-wss-username-token-profile-1.0#PasswordDigest">{digest}</Password>
                <Nonce EncodingType="http://docs.oasis-open.org/wss/2004/01/oasis-200401-wss-soap-message-security-1.0#Base64Binary">{nonce_b64}</Nonce>
                <Created xmlns="http://docs.oasis-open.org/wss/2004/01/oasis-200401-wss-wssecurity-utility-1.0.xsd">{created}</Created>
            </UsernameToken>
        </Security>
    </Header>"#
    )
}

#[test]
fn header_layout() {
    assert_eq!(security_header_xml("u", "d", "n", "c"), header("u", "d", "n", "c"));
}

#[test]
fn password_digest_is_base64_of_sha1_of_nonce_created_password() {
    let nonce: Vec<u8> = (0u8..16).collect();
    let text = password_digest_header("admin", "password", &nonce, "2024-01-01T00:00:00Z");
    assert_eq!(
        text,
        header(
            "admin",
            "9/VjIN6lj8wet7Cz82qOOP6yPE8=",
            "AAECAwQFBgcICQoLDA0ODw==",
            "2024-01-01T00:00:00Z"
        )
    );
}

#[test]
fn password_digest_uses_the_utf8_bytes_of_the_password() {
    let nonce: Vec<u8> = (0u8..16).collect();
    let text = password_digest_header("admin", "pässwörd", &nonce, "2024-01-01T00:00:00Z");
    assert!(text.contains(">5MrzUNM2u0NpfNN4kvk/3nvUYHA=</Password>"));
}

#[test]
fn empty_nonce_encodes_to_nothing() {
    let text = password_digest_header("admin", "password", &[], "x");
    assert!(text.contains("#Base64Binary\"></Nonce>"));
}

#[test]
fn fresh_header_carries_user_nonce_and_time() {
    let text = ws_security_header("admin", "secret");
    assert!(text.contains("<Username>admin</Username>"));
    let nonce_start = text.find("#Base64Binary\">").unwrap() + "#Base64Binary\">".len();
    let nonce_end = text[nonce_start..].find("</Nonce>").unwrap();
    assert_eq!(nonce_end, 24);
    assert!(text[nonce_start..nonce_start + nonce_end].ends_with("=="));
    let digest_start = text.find("#PasswordDigest\">").unwrap() + "#PasswordDigest\">".len();
    let digest_end = text[digest_start..].find("</Password>").unwrap();
    assert_eq!(digest_end, 28);
    let created_start = text.find("utility-1.0.xsd\">").unwrap() + "utility-1.0.xsd\">".len();
    let created_end = text[created_start..].find("</Created>").unwrap();
    assert_eq!(created_end, 20);
}

#[test]
fn two_fresh_headers_use_different_nonces() {
    let a = ws_security_header("admin", "secret");
    let b = ws_security_header("admin", "secret");
    let nonce = |t: &str| {
        let s = t.find("#Base64Binary\">").unwrap() + "#Base64Binary\">".len();
        t[s..s + 24].to_string()
    };
    assert_ne!(nonce(&a), nonce(&b));
}
