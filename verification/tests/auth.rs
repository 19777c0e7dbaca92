use pixelvault_desktop::auth::{
    check_device_status, device_complete, device_complete_request, device_start_request,
    error_message, load_session, request_failed, sign_in_complete, sign_in_start, sign_out, store,
    stored_email, stored_key, JobStep, KeychainJob, KeychainOp, KeychainRead, Session,
};
use pixelvault_desktop::config::api_base;

fn found(text: &str) -> KeychainRead {
    KeychainRead::Found(text.to_string())
}

fn describe(op: &KeychainOp) -> String {
    match op {
        KeychainOp::Write { entry, secret } => format!("write {entry}={secret}"),
        KeychainOp::Delete { entry } => format!("delete {entry}"),
    }
}

/// Runs a job whose changes fail as told; gives what was performed and the end.
fn run(job: &KeychainJob, failing: &[&str]) -> (Vec<String>, Result<(), String>) {
    let mut done = vec![];
    let mut at: usize = 0;
    loop {
        let op = describe(&job.ops[at]);
        let outcome = if failing.iter().any(|f| op.contains(f)) {
            Err(format!("cannot {op}"))
        } else {
            Ok(())
        };
        done.push(op);
        match job.next(at, outcome) {
            JobStep::Perform(i) => at = i,
            JobStep::Done(r) => return (done, r),
        }
    }
}

#[test]
fn a_session_is_stored_key_first() {
    let job = store("k1", "ada@example.com");
    assert_eq!(
        run(&job, &[]),
        (
            vec![
                "write api_key=k1".to_string(),
                "write email=ada@example.com".to_string()
            ],
            Ok(())
        )
    );
    assert_eq!(
        run(&job, &["api_key"]),
        (
            vec!["write api_key=k1".to_string()],
            Err("cannot write api_key=k1".to_string())
        )
    );
    assert_eq!(
        run(&job, &["email="]).1,
        Err("cannot write email=ada@example.com".to_string())
    );
}

#[test]
fn signing_out_tries_both_entries() {
    let job = sign_out();
    let both = vec!["delete api_key".to_string(), "delete email".to_string()];
    assert_eq!(run(&job, &[]), (both.clone(), Ok(())));
    assert_eq!(run(&job, &["delete"]), (both, Ok(())));
}

#[test]
fn stored_entries_are_read() {
    assert_eq!(stored_key(found("k")), Some("k".to_string()));
    assert_eq!(stored_key(KeychainRead::Missing), None);
    assert_eq!(stored_key(KeychainRead::Failed("locked".to_string())), None);
    assert_eq!(stored_email(found("e")), Some("e".to_string()));
    assert_eq!(stored_email(KeychainRead::Missing), None);
}

#[test]
fn a_session_needs_both_entries() {
    let s = load_session(found("k"), found("e")).unwrap().unwrap();
    assert_eq!((s.api_key.as_str(), s.email.as_str()), ("k", "e"));
    assert!(load_session(KeychainRead::Missing, found("e")).unwrap().is_none());
    assert!(load_session(found("k"), KeychainRead::Missing).unwrap().is_none());
    let locked = || KeychainRead::Failed("locked".to_string());
    assert_eq!(load_session(locked(), found("e")).err(), Some("locked".to_string()));
    assert_eq!(load_session(found("k"), locked()).err(), Some("locked".to_string()));
}

#[test]
fn sign_in_requests_hold_trimmed_input() {
    let r = sign_in_start("https://api", "  ada@example.com\n");
    assert_eq!(r.url, "https://api/v1/auth/device/start");
    assert_eq!(r.fields.len(), 1);
    assert_eq!(r.fields[0].name, "email");
    assert_eq!(r.fields[0].value, "ada@example.com");
    let r = sign_in_complete("https://api", " a@b ", "\u{a0}123 456\t");
    assert_eq!(r.url, "https://api/v1/auth/device/complete");
    assert_eq!(r.fields.len(), 2);
    assert_eq!((r.fields[0].name.as_str(), r.fields[0].value.as_str()), ("email", "a@b"));
    assert_eq!((r.fields[1].name.as_str(), r.fields[1].value.as_str()), ("code", "123 456"));
}

#[test]
fn device_requests_take_their_input_as_it_is() {
    assert_eq!(device_start_request("b", " e ").fields[0].value, " e ");
    assert_eq!(device_complete_request("b", "e", " c ").fields[1].value, " c ");
}

#[test]
fn refusals_are_explained() {
    assert_eq!(check_device_status(204, None), Ok(()));
    assert_eq!(
        check_device_status(422, Some("Invalid code".to_string())),
        Err("Invalid code".to_string())
    );
    assert_eq!(
        check_device_status(404, None),
        Err("Request failed (404 Not Found)".to_string())
    );
    assert_eq!(error_message(None, 599), "Request failed (599 <unknown status code>)");
    assert_eq!(error_message(Some("m".to_string()), 500), "m");
    assert_eq!(request_failed("418 I'm a teapot"), "Request failed (418 I'm a teapot)");
}

#[test]
fn fallback_messages_show_the_status_as_the_http_library_does() {
    for code in 100..1000u16 {
        let status = reqwest::StatusCode::from_u16(code).unwrap();
        assert_eq!(error_message(None, code), format!("Request failed ({status})"));
    }
}

#[test]
fn a_received_session_is_taken_over() {
    let s = device_complete(Ok(Session {
        api_key: "k".to_string(),
        email: "e".to_string(),
    }))
    .unwrap();
    assert_eq!((s.api_key.as_str(), s.email.as_str()), ("k", "e"));
    assert_eq!(
        device_complete(Err("missing field".to_string())).err(),
        Some("bad response: missing field".to_string())
    );
}

#[test]
fn the_api_base_can_be_overridden() {
    assert_eq!(api_base(None), "https://api.pixelvault.dev");
    assert_eq!(
        api_base(Some("https://api-staging.pixelvault.dev".to_string())),
        "https://api-staging.pixelvault.dev"
    );
}
