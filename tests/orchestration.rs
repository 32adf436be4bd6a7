use resume_polish::service::{
    finish_polish, is_success_status, AIService, ConfigKey, PolishRequest, RemoteReply,
    ServiceError, MAX_TOKENS,
};

fn request(text: &str, section: &str) -> PolishRequest {
    PolishRequest { text: text.to_string(), section_type: section.to_string() }
}

fn service() -> AIService {
    AIService::new(
        Some("https://api.example.com/v1".to_string()),
        Some("SECRET-REDACTED".to_string()),
        Some("gpt-test".to_string()),
    )
    .unwrap()
}

#[test]
fn new_needs_every_setting() {
    let s = service();
    assert_eq!(s.api_base, "https://api.example.com/v1");
    assert_eq!(s.model, "gpt-test");
    let base = || Some("b".to_string());
    let key = || Some("k".to_string());
    let model = || Some("m".to_string());
    assert_eq!(AIService::new(None, key(), model()), Err(ServiceError::ConfigMissing(ConfigKey::ApiBase)));
    assert_eq!(AIService::new(base(), None, model()), Err(ServiceError::ConfigMissing(ConfigKey::ApiKey)));
    assert_eq!(AIService::new(base(), key(), None), Err(ServiceError::ConfigMissing(ConfigKey::Model)));
    assert_eq!(AIService::new(None, None, None), Err(ServiceError::ConfigMissing(ConfigKey::ApiBase)));
}

#[test]
fn completion_call_is_built_from_settings_and_prompt() {
    let s = service();
    let call = s.completion_call(&request("Managed a team", "skills"));
    assert_eq!(call.url, "https://api.example.com/v1/chat/completions");
    assert_eq!(call.authorization, "Bearer SECRET-REDACTED");
    assert_eq!(call.content_type, "application/json");
    assert_eq!(call.model, "gpt-test");
    assert_eq!(call.max_tokens, 2000);
    assert_eq!(MAX_TOKENS, 2000);
    assert_eq!(call.messages.len(), 2);
    assert_eq!(call.messages[0].role, "system");
    assert!(call.messages[0].content.starts_with("You are a senior resume consultant"));
    assert_eq!(call.messages[1].role, "user");
    assert!(call.messages[1].content.contains("skills description"));
    assert!(call.messages[1].content.ends_with("Original:\nManaged a team"));
}

#[test]
fn success_statuses() {
    assert!(is_success_status(200));
    assert!(is_success_status(204));
    assert!(is_success_status(299));
    assert!(!is_success_status(199));
    assert!(!is_success_status(300));
    assert!(!is_success_status(500));
}

#[test]
fn empty_choices_keep_original() {
    let r = finish_polish(request("Managed a team", "work_experience"), RemoteReply::Completed(vec![])).unwrap();
    assert_eq!(r.original, "Managed a team");
    assert_eq!(r.polished, "Managed a team");
    assert_eq!(r.improvements, vec!["Optimized language expressions and professionalism".to_string()]);
}

#[test]
fn server_error_is_rejected_with_body() {
    let r = finish_polish(
        request("x", "skills"),
        RemoteReply::Rejected { status: 500, body: Some("internal failure".to_string()) },
    );
    assert_eq!(r, Err(ServiceError::RemoteRejected { status: 500, body: "internal failure".to_string() }));
}

#[test]
fn unreadable_error_body_gets_placeholder() {
    let r = finish_polish(request("x", "skills"), RemoteReply::Rejected { status: 500, body: None });
    assert_eq!(r, Err(ServiceError::RemoteRejected { status: 500, body: "Unknown error".to_string() }));
}

#[test]
fn keyword_in_first_choice_gives_impact_note() {
    let r = finish_polish(
        request("Managed a team", "work_experience"),
        RemoteReply::Completed(vec!["\n Led a team to improve delivery \t".to_string()]),
    )
    .unwrap();
    assert_eq!(r.polished, "Led a team to improve delivery");
    assert_eq!(
        r.improvements,
        vec![
            "Added more details and quantified information".to_string(),
            "Strengthened impact and achievement descriptions".to_string(),
            "Enriched professional expressions and terminology".to_string(),
        ]
    );
}

#[test]
fn malformed_body_is_reported() {
    let r = finish_polish(request("x", "project"), RemoteReply::Malformed("expected value at line 1".to_string()));
    assert_eq!(r, Err(ServiceError::RemoteMalformed("expected value at line 1".to_string())));
}

#[test]
fn transport_failure_is_reported() {
    let r = finish_polish(request("x", "project"), RemoteReply::Unreachable("connection refused".to_string()));
    assert_eq!(r, Err(ServiceError::RemoteUnavailable("connection refused".to_string())));
}

#[test]
fn first_choice_is_trimmed_and_annotated() {
    let r = finish_polish(
        request("Managed a team", "work_experience"),
        RemoteReply::Completed(vec![
            "  Led a cross-functional team of 8, improving delivery speed by 30%.  ".to_string(),
            "ignored".to_string(),
        ]),
    )
    .unwrap();
    assert_eq!(r.original, "Managed a team");
    assert_eq!(r.polished, "Led a cross-functional team of 8, improving delivery speed by 30%.");
    assert!(r.improvements.contains(&"Added more details and quantified information".to_string()));
    // "improving" does not hold the literal keyword "improve", so no impact note
    assert!(!r.improvements.contains(&"Strengthened impact and achievement descriptions".to_string()));
    assert_eq!(
        r.improvements,
        vec![
            "Added more details and quantified information".to_string(),
            "Enriched professional expressions and terminology".to_string(),
        ]
    );
}
