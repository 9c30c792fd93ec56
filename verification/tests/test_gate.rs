use basic_auth_gate::AuthMiddleWare;
use basic_auth_gate::Decision;

fn deny_of(decision: Decision) -> (u16, String, String) {
    match decision {
        Decision::Deny(denial) => (denial.status, denial.body, denial.challenge),
        Decision::Forward => panic!("expected a denial"),
    }
}

#[test]
fn default_gate_configuration() {
    let gate = AuthMiddleWare::default();
    assert_eq!(gate.userlist, vec!["admin:admin".to_owned()]);
    assert_eq!(gate.scopes, vec!["/".to_owned()]);
}

#[test]
fn scope_matches_without_segment_boundary() {
    // "/scoped" is a plain character prefix of "/scopedXYZ", so the path is
    // in scope even though no path segment ends there.
    let gate = AuthMiddleWare::new(
        vec!["admin:admin".to_owned()],
        vec!["/scoped".to_owned()],
    );
    let (status, body, challenge) = deny_of(gate.evaluate("/scopedXYZ", None));
    assert_eq!(status, 401);
    assert_eq!(body, "Unauthorized");
    assert_eq!(challenge, "Basic realm=/scopedXYZ");
}

#[test]
fn shorter_path_is_not_in_scope() {
    let gate = AuthMiddleWare::new(
        vec!["admin:admin".to_owned()],
        vec!["/scoped".to_owned()],
    );
    assert!(!gate.inside_scopes("/scope"));
    assert!(matches!(gate.evaluate("/scope", None), Decision::Forward));
}

#[test]
fn empty_scope_list_forwards_everything() {
    let gate = AuthMiddleWare::new(vec!["admin:admin".to_owned()], vec![]);
    assert!(matches!(gate.evaluate("/", None), Decision::Forward));
    assert!(matches!(
        gate.evaluate("/anything", Some(b"Basic balbalbalba".as_slice())),
        Decision::Forward
    ));
}

#[test]
fn header_without_space_is_invalid() {
    let gate = AuthMiddleWare::default();
    let (status, body, challenge) = deny_of(gate.evaluate("/", Some(b"Basic".as_slice())));
    assert_eq!(status, 401);
    assert_eq!(body, "Invalid Auth header: missing credentials token");
    assert_eq!(challenge, "Basic realm=/");
}

#[test]
fn header_with_non_text_bytes_is_invalid() {
    let gate = AuthMiddleWare::default();
    let (status, body, _challenge) =
        deny_of(gate.evaluate("/", Some(b"Basic \xffYWRtaW4=".as_slice())));
    assert_eq!(status, 401);
    assert_eq!(body, "Invalid Auth header: failed to convert header to a str");
}

#[test]
fn credentials_with_invalid_utf8_fail() {
    // "/w==" is valid base64 and decodes to the single byte 0xff, which is
    // not UTF-8 text.
    let gate = AuthMiddleWare::default();
    let (status, body, _challenge) = deny_of(gate.evaluate("/", Some(b"Basic /w==".as_slice())));
    assert_eq!(status, 401);
    assert_eq!(body, "Auth failed ");
}

#[test]
fn credentials_absent_from_allow_list_fail() {
    // "dXNlcjpwYXNz" decodes to "user:pass", which is not on the list.
    let gate = AuthMiddleWare::default();
    let (status, body, _challenge) =
        deny_of(gate.evaluate("/", Some(b"Basic dXNlcjpwYXNz".as_slice())));
    assert_eq!(status, 401);
    assert_eq!(body, "Auth failed ");
}

#[test]
fn empty_credentials_token_fails() {
    // "Basic " carries an empty token: it decodes to the empty string,
    // which is not on the list.
    let gate = AuthMiddleWare::default();
    let (status, body, _challenge) = deny_of(gate.evaluate("/", Some(b"Basic ".as_slice())));
    assert_eq!(status, 401);
    assert_eq!(body, "Auth failed ");
}

#[test]
fn scheme_token_is_not_validated() {
    // Any scheme token is read past; only the token after the first space
    // counts.
    let gate = AuthMiddleWare::default();
    assert!(matches!(
        gate.evaluate("/", Some(b"Bearer YWRtaW46YWRtaW4=".as_slice())),
        Decision::Forward
    ));
}

#[test]
fn token_stops_at_second_space() {
    // Only the bytes between the first and the second space form the token.
    let gate = AuthMiddleWare::default();
    assert!(matches!(
        gate.evaluate("/", Some(b"Basic YWRtaW46YWRtaW4= trailing".as_slice())),
        Decision::Forward
    ));
}

#[test]
fn auth_checks_the_token_alone() {
    let gate = AuthMiddleWare::default();
    assert!(gate.auth(b"YWRtaW46YWRtaW4="));
    assert!(!gate.auth(b"balbalbalba"));
    // A token handed back undecoded would compare unequal to the
    // credential it encodes.
    assert!(!gate.auth(b"admin:admin"));
}

#[test]
fn same_request_same_decision() {
    let gate = AuthMiddleWare::default();
    let first = deny_of(gate.evaluate("/", Some(b"Basic balbalbalba".as_slice())));
    let second = deny_of(gate.evaluate("/", Some(b"Basic balbalbalba".as_slice())));
    assert_eq!(first, second);
    assert!(matches!(
        gate.evaluate("/", Some(b"Basic YWRtaW46YWRtaW4=".as_slice())),
        Decision::Forward
    ));
    assert!(matches!(
        gate.evaluate("/", Some(b"Basic YWRtaW46YWRtaW4=".as_slice())),
        Decision::Forward
    ));
}
