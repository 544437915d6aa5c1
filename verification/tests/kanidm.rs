use grand_casino::error::AppError;
use grand_casino::kanidm::{registrar_token, reset_token_of_body};
use grand_casino::kanidm::{
    create_person_outcome, group_add_outcome, request_failed, reset_intent_outcome, reset_token_from,
    RegistrarSettings,
};

fn settings() -> RegistrarSettings {
    RegistrarSettings::from_values(
        Some("tok".to_string()),
        Some("https://kanidm:8443/"),
        Some("https://localhost:8443//"),
        None,
    )
    .expect("configured")
}

#[test]
fn registration_needs_token_and_url() {
    assert!(RegistrarSettings::from_values(None, Some("https://k"), None, None).is_none());
    assert!(RegistrarSettings::from_values(Some("t".into()), None, None, None).is_none());
}

#[test]
fn settings_defaults_and_trimming() {
    let s = settings();
    assert_eq!(s.api_url, "https://kanidm:8443");
    assert_eq!(s.public_origin, "https://localhost:8443");
    assert_eq!(s.group, "casino_users");
    assert_eq!(s.reset_ttl, 86_400);
    let s = RegistrarSettings::from_values(Some("t".into()), Some("https://k/"), None, Some("g")).unwrap();
    assert_eq!(s.public_origin, "https://k");
    assert_eq!(s.group, "g");
}

#[test]
fn request_urls() {
    let s = settings();
    assert_eq!(s.person_url(), "https://kanidm:8443/v1/person");
    assert_eq!(s.group_member_url(), "https://kanidm:8443/v1/group/casino_users/_attr/member");
    assert_eq!(s.reset_intent_url("bob"), "https://kanidm:8443/v1/person/bob/_credential/_update_intent/86400");
    assert_eq!(s.reset_link("abc"), "https://localhost:8443/ui/reset?token=abc");
}

#[test]
fn answers_of_kanidm() {
    assert!(create_person_outcome(201).is_ok());
    for taken in [400, 409] {
        match create_person_outcome(taken) {
            Err(AppError::BadRequest(m)) => assert_eq!(m, "username is already taken or not allowed"),
            other => panic!("unexpected {:?}", other),
        }
    }
    match create_person_outcome(500) {
        Err(AppError::Internal(m)) => assert_eq!(m, "kanidm create person failed: 500 Internal Server Error"),
        other => panic!("unexpected {:?}", other),
    }
    assert!(group_add_outcome(200).is_ok());
    assert!(matches!(group_add_outcome(403), Err(AppError::Internal(m)) if m == "kanidm group add failed: 403 Forbidden"));
    assert!(reset_intent_outcome(299).is_ok());
    assert!(matches!(reset_intent_outcome(599), Err(AppError::Internal(m)) if m == "kanidm reset intent failed: 599 <unknown status code>"));
    assert_eq!(reset_token_from(Some("t".into())).unwrap(), "t");
    assert!(matches!(reset_token_from(None), Err(AppError::Internal(m)) if m == "kanidm reset intent missing token"));
    assert!(matches!(request_failed("kanidm group add", "timeout"), AppError::Internal(m) if m == "kanidm group add: timeout"));
}

#[test]
fn reset_token_from_the_answer_body() {
    assert_eq!(reset_token_of_body(br#"{"token":"abc123"}"#).unwrap(), "abc123");
    assert!(matches!(reset_token_of_body(br#"{"token":5}"#), Err(AppError::Internal(m)) if m == "kanidm reset intent missing token"));
    assert!(matches!(reset_token_of_body(b"not json"), Err(AppError::Internal(m)) if m == "kanidm reset intent decode: error decoding response body"));
}

#[test]
fn registrar_token_from_variable_or_file() {
    let tok = |x: &str| Some(x.to_string());
    assert_eq!(registrar_token(tok("direct"), Some(tok(" from-file\n"))), tok("direct"));
    assert_eq!(registrar_token(tok(""), Some(tok(" from-file\n"))), tok("from-file"));
    assert_eq!(registrar_token(None, Some(tok("from-file"))), tok("from-file"));
    assert_eq!(registrar_token(None, Some(None)), None);
    assert_eq!(registrar_token(tok(""), None), None);
    assert_eq!(registrar_token(None, None), None);
}
