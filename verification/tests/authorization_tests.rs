use chat_server::routes::authorization::{registration_token, Authorization};
use chat_server::routes::is_authorization::BasicAuth;
use chat_server::routes::HeaderOutcome;

#[test]
fn registration_token_is_base64_of_the_password() {
    assert_eq!(registration_token("password1"), "cGFzc3dvcmQx");
    assert_eq!(registration_token(""), "");
    assert_eq!(registration_token("pässwörd"), "cMOkc3N3w7ZyZA==");
}

#[test]
fn token_reads_back_as_the_password() {
    for p in ["password1", "pässwörd", "a::b", ""] {
        let token = registration_token(p);
        let auth = Authorization::from_base64_encoded(&token).expect("token reads back");
        assert_eq!(auth.password, p);
    }
}

#[test]
fn token_with_separator_is_refused() {
    let token = registration_token("pass:::word");
    assert!(Authorization::from_base64_encoded(&token).is_none());
}

#[test]
fn bad_base64_and_bad_utf8_are_refused() {
    assert!(Authorization::from_base64_encoded("not base64!").is_none());
    assert!(Authorization::from_base64_encoded("cGFzc3dvcmQx=").is_none());
    // "/w==" decodes to the single byte 0xFF, which is not UTF-8.
    assert!(Authorization::from_base64_encoded("/w==").is_none());
}

#[test]
fn from_decoded_bytes_reads_the_text() {
    let auth = Authorization::from_decoded_bytes(b"secret".to_vec()).unwrap();
    assert_eq!(auth.password, "secret");
    assert!(Authorization::from_decoded_bytes(b"a:::b".to_vec()).is_none());
    assert!(Authorization::from_decoded_bytes(vec![0xC3]).is_none());
}

#[test]
fn bearer_header_gives_the_password() {
    let auth = Authorization::from_authorization_header("Bearer cGFzc3dvcmQx").unwrap();
    assert_eq!(auth.password, "password1");
    // Any scheme word is taken, and words after the token are ignored.
    let auth = Authorization::from_authorization_header("Anything  cGFzc3dvcmQx extra").unwrap();
    assert_eq!(auth.password, "password1");
}

#[test]
fn request_guard_outcomes() {
    assert!(matches!(Authorization::from_request_header(None), HeaderOutcome::Rejected));
    assert!(matches!(Authorization::from_request_header(Some("Bearer")), HeaderOutcome::Malformed));
    assert!(matches!(Authorization::from_request_header(Some("   ")), HeaderOutcome::Malformed));
    assert!(matches!(
        Authorization::from_request_header(Some("Bearer ###")),
        HeaderOutcome::Rejected
    ));
    match Authorization::from_request_header(Some("Bearer cGFzc3dvcmQx")) {
        HeaderOutcome::Accepted(a) => assert_eq!(a.password, "password1"),
        other => panic!("unexpected {:?}", other),
    }
}

#[test]
fn basic_header_gives_name_and_password() {
    // "user:pass"
    let auth = BasicAuth::from_authorization_header("Basic dXNlcjpwYXNz").unwrap();
    assert_eq!(auth.username, "user");
    assert_eq!(auth.password, "pass");
}

#[test]
fn basic_password_stops_at_the_second_colon() {
    // "user:pa:ss"
    let auth = BasicAuth::from_base64_encoded("dXNlcjpwYTpzcw==").unwrap();
    assert_eq!(auth.username, "user");
    assert_eq!(auth.password, "pa");
    let auth = BasicAuth::from_decoded_bytes(b":".to_vec()).unwrap();
    assert_eq!(auth.username, "");
    assert_eq!(auth.password, "");
}

#[test]
fn basic_request_guard_outcomes() {
    assert!(matches!(BasicAuth::from_request_header(None), HeaderOutcome::Rejected));
    assert!(matches!(BasicAuth::from_request_header(Some("Basic")), HeaderOutcome::Malformed));
    // "user" holds no colon.
    assert!(matches!(
        BasicAuth::from_request_header(Some("Basic dXNlcg==")),
        HeaderOutcome::Malformed
    ));
    assert!(matches!(BasicAuth::from_request_header(Some("Basic %%%")), HeaderOutcome::Rejected));
    assert!(matches!(BasicAuth::from_request_header(Some("Basic /w==")), HeaderOutcome::Rejected));
    match BasicAuth::from_request_header(Some("Basic dXNlcjpwYXNz")) {
        HeaderOutcome::Accepted(a) => {
            assert_eq!(a.username, "user");
            assert_eq!(a.password, "pass");
        }
        other => panic!("unexpected {:?}", other),
    }
}

#[test]
fn header_with_registration_token_gives_the_password() {
    for p in ["password1", "pässwörd", "x"] {
        let header = format!("Bearer {}", registration_token(p));
        let auth = Authorization::from_authorization_header(&header).unwrap();
        assert_eq!(auth.password, p);
    }
    // An empty password gives an empty token, and the header is one word only.
    let header = format!("Bearer {}", registration_token(""));
    assert!(matches!(Authorization::from_request_header(Some(&header)), HeaderOutcome::Malformed));
}

#[test]
fn basic_credentials_read_back() {
    for (u, p) in [("user", "pass"), ("", ""), ("nämé", "pässwörd")] {
        let token = registration_token(&format!("{}:{}", u, p));
        let auth = BasicAuth::from_base64_encoded(&token).unwrap();
        assert_eq!(auth.username, u);
        assert_eq!(auth.password, p);
    }
}
