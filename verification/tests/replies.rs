use reward_ledger::extender::{interpret, is_success, judge_member, ExtensionReply, ExtensionResult};

fn answered(status: u16, body: &str) -> ExtensionReply {
    ExtensionReply::Answered { status, body: body.to_string() }
}

#[test]
fn success_class_is_two_hundred_to_two_ninety_nine() {
    assert!(!is_success(0));
    assert!(!is_success(199));
    assert!(is_success(200));
    assert!(is_success(204));
    assert!(is_success(299));
    assert!(!is_success(300));
    assert!(!is_success(404));
    assert!(!is_success(500));
    assert!(!is_success(u16::MAX));
}

#[test]
fn expiry_is_read_from_the_answer() {
    let reply = answered(200, r#"{"telegram_id": 7, "subscription_end": "2030-01-31T10:00:00+00:00", "plan": "pro"}"#);
    assert_eq!(
        interpret(reply),
        ExtensionResult::Granted { subscription_end: "2030-01-31T10:00:00+00:00".to_string() }
    );
}

#[test]
fn escapes_in_the_expiry_are_decoded() {
    let reply = answered(201, r#"{"subscription_end": "aA\n\"b\""}"#);
    assert_eq!(interpret(reply), ExtensionResult::Granted { subscription_end: "aA\n\"b\"".to_string() });
}

#[test]
fn answer_without_expiry_is_a_bad_answer() {
    for body in [r#"{}"#, r#"{"subscription_end": null}"#, r#"{"subscription_end": 17}"#, r#"{"subscription_end": ""}"#, r#"["subscription_end"]"#, r#""subscription_end""#, r#"{"other": {"subscription_end": "2030"}}"#] {
        assert_eq!(
            interpret(answered(200, body)),
            ExtensionResult::BadAnswer { detail: "no subscription_end in the answer".to_string() },
            "{}",
            body
        );
    }
}

#[test]
fn malformed_answer_is_a_bad_answer_with_the_parser_text() {
    match interpret(answered(200, "{\"subscription_end\": \"2030\"")) {
        ExtensionResult::BadAnswer { detail } => {
            assert!(detail.contains("line 1"), "{}", detail);
            assert_ne!(detail, "no subscription_end in the answer");
        },
        other => panic!("{:?}", other),
    }
    assert!(matches!(interpret(answered(200, "")), ExtensionResult::BadAnswer { .. }));
    assert!(matches!(
        interpret(answered(200, r#"{"subscription_end": "2030"} trailing"#)),
        ExtensionResult::BadAnswer { .. }
    ));
}

#[test]
fn status_outside_the_success_class_is_a_failed_call() {
    let body = r#"{"subscription_end": "2030-01-31"}"#;
    for status in [199u16, 300, 400, 404, 500, 503] {
        assert_eq!(
            interpret(answered(status, body)),
            ExtensionResult::CallFailed { detail: body.to_string() }
        );
    }
}

#[test]
fn no_response_is_a_failed_call() {
    assert_eq!(
        interpret(ExtensionReply::Unreachable { detail: "connection refused".to_string() }),
        ExtensionResult::CallFailed { detail: "connection refused".to_string() }
    );
}

#[test]
fn unreadable_body_is_judged_by_the_status() {
    assert_eq!(
        interpret(ExtensionReply::Unreadable { status: 200, detail: "reset".to_string() }),
        ExtensionResult::BadAnswer { detail: "reset".to_string() }
    );
    assert_eq!(
        interpret(ExtensionReply::Unreadable { status: 502, detail: "reset".to_string() }),
        ExtensionResult::CallFailed { detail: "reset".to_string() }
    );
}

#[test]
fn member_lookup_is_judged() {
    assert_eq!(
        judge_member(Ok(Some("2030".to_string()))),
        ExtensionResult::Granted { subscription_end: "2030".to_string() }
    );
    assert_eq!(
        judge_member(Ok(Some(String::new()))),
        ExtensionResult::BadAnswer { detail: "no subscription_end in the answer".to_string() }
    );
    assert_eq!(
        judge_member(Ok(None)),
        ExtensionResult::BadAnswer { detail: "no subscription_end in the answer".to_string() }
    );
    assert_eq!(
        judge_member(Err("EOF".to_string())),
        ExtensionResult::BadAnswer { detail: "EOF".to_string() }
    );
}
