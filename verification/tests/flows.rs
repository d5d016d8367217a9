use legal_toolkit_auth::record::{stored_token, token_record};
use legal_toolkit_auth::steps::{
    after_delete, after_load, after_presence, after_profile, after_store, belongs, is_success,
    report,
};
use legal_toolkit_auth::{
    AuthConfig, AuthError, AuthManager, AuthResult, Effect, Event, Flow, Operation, Outcome,
    Stage, SubscriptionInfo, TokenResponse, UserCredentials, UserProfile,
};

fn manager() -> AuthManager {
    AuthManager::new(AuthConfig::from_base_url(None), Ok(())).unwrap()
}

fn manager_at(base: &str) -> AuthManager {
    AuthManager::new(AuthConfig::from_base_url(Some(base.to_string())), Ok(())).unwrap()
}

fn profile() -> UserProfile {
    UserProfile {
        id: 1,
        email: "a@b.com".to_string(),
        full_name: "Ada Byron".to_string(),
        is_active: true,
        created_at: "2024-01-02T03:04:05Z".to_string(),
        subscription: Some(SubscriptionInfo {
            plan_type: "pro".to_string(),
            status: "active".to_string(),
            created_at: "2024-02-03T04:05:06Z".to_string(),
        }),
    }
}

fn token_body(token: &str) -> Event {
    Event::TokenBody(TokenResponse {
        access_token: token.to_string(),
        token_type: "bearer".to_string(),
    })
}

fn signed_in(message: &str, token: &str) -> AuthResult {
    AuthResult {
        success: true,
        user_id: Some("1".to_string()),
        message: message.to_string(),
        token: Some(token.to_string()),
        user_profile: Some(profile()),
    }
}

fn unsuccessful(message: &str) -> AuthResult {
    AuthResult {
        success: false,
        user_id: None,
        message: message.to_string(),
        token: None,
        user_profile: None,
    }
}

/// Runs a flow to its end against a backend that keeps what it is given and
/// a server that answers with `replies`. Returns the outcome and the effects
/// in the order in which the flow asked for them.
fn run(
    manager: &AuthManager,
    mut flow: Flow,
    held: &mut Option<String>,
    replies: Vec<Event>,
) -> (Outcome, Vec<Effect>) {
    let mut replies = replies.into_iter();
    let mut effects = Vec::new();
    while let Some(effect) = flow.effect() {
        effects.push(effect.clone());
        let event = match effect {
            Effect::LoadRecord => match held.clone() {
                Some(record) => Event::Found(record),
                None => Event::Missing,
            },
            Effect::StoreRecord { record } => {
                *held = Some(record);
                Event::Stored
            }
            Effect::DeleteRecord => match held.take() {
                Some(_) => Event::Deleted,
                None => Event::Missing,
            },
            _ => match replies.next() {
                Some(event) => event,
                None => panic!("the server has no answer left for {:?}", effects.last()),
            },
        };
        flow = manager.resume(flow, event);
    }
    assert!(replies.next().is_none());
    assert!(flow.is_done());
    (flow.into_outcome().unwrap(), effects)
}

fn accepted_login_replies(token: &str) -> Vec<Event> {
    vec![Event::Status(200), token_body(token), Event::Status(200), Event::ProfileBody(profile())]
}

#[test]
fn login_with_valid_credentials_signs_in_and_persists_the_token() {
    let manager = manager();
    let mut held = None;
    let (outcome, effects) =
        run(&manager, manager.login("a@b.com", "secret"), &mut held, accepted_login_replies("abc"));
    assert_eq!(outcome, Outcome::Auth(Ok(signed_in("Login successful", "abc"))));
    match &outcome {
        Outcome::Auth(Ok(result)) => {
            assert!(result.success);
            assert_eq!(result.token, Some("abc".to_string()));
            assert_eq!(result.user_profile, Some(profile()));
        }
        other => panic!("unexpected outcome {:?}", other),
    }
    assert_eq!(effects.len(), 5);
    assert_eq!(
        effects[0],
        Effect::PostLogin {
            url: "http://localhost:8000/auth/login".to_string(),
            credentials: UserCredentials {
                email: "a@b.com".to_string(),
                password: "secret".to_string()
            },
        }
    );
    assert_eq!(effects[1], Effect::ReadTokenBody);
    assert!(matches!(effects[2], Effect::StoreRecord { .. }));
    assert_eq!(
        effects[3],
        Effect::GetProfile {
            url: "http://localhost:8000/user/profile".to_string(),
            authorization: "Bearer abc".to_string(),
        }
    );
    assert_eq!(effects[4], Effect::ReadProfileBody);

    let (loaded, _) = run(&manager, manager.load_token(), &mut held, vec![]);
    assert_eq!(loaded, Outcome::Token(Ok(Some("abc".to_string()))));
}

#[test]
fn login_refused_with_401_is_unsuccessful_and_persists_nothing() {
    let manager = manager();
    let mut held = None;
    let (before, _) = run(&manager, manager.has_stored_token(), &mut held, vec![]);
    assert_eq!(before, Outcome::Present(false));

    let replies =
        vec![Event::Status(401), Event::ErrorText(Some("{\"detail\":\"bad password\"}".to_string()))];
    let (outcome, effects) = run(&manager, manager.login("a@b.com", "wrong"), &mut held, replies);
    assert_eq!(
        outcome,
        Outcome::Auth(Ok(unsuccessful("Login failed: {\"detail\":\"bad password\"}")))
    );
    assert_eq!(effects.len(), 2);
    assert_eq!(effects[1], Effect::ReadErrorText);
    assert_eq!(held, None);

    let (after, _) = run(&manager, manager.has_stored_token(), &mut held, vec![]);
    assert_eq!(after, Outcome::Present(false));
}

#[test]
fn login_refused_keeps_an_earlier_token() {
    let manager = manager();
    let mut held = Some(token_record("old", "2024-01-02T03:04:05Z"));
    let replies = vec![Event::Status(403), Event::ErrorText(Some("no".to_string()))];
    let (outcome, _) = run(&manager, manager.login("a@b.com", "wrong"), &mut held, replies);
    assert_eq!(outcome, Outcome::Auth(Ok(unsuccessful("Login failed: no"))));
    assert_eq!(held, Some(token_record("old", "2024-01-02T03:04:05Z")));
}

#[test]
fn login_refused_without_readable_text_says_unknown_error() {
    let manager = manager();
    let mut held = None;
    let replies = vec![Event::Status(500), Event::ErrorText(None)];
    let (outcome, _) = run(&manager, manager.login("a@b.com", "pw"), &mut held, replies);
    assert_eq!(outcome, Outcome::Auth(Ok(unsuccessful("Login failed: Unknown error"))));
}

#[test]
fn login_fails_when_the_server_is_unreachable() {
    let manager = manager();
    let mut held = None;
    let replies = vec![Event::Unreachable("connection refused".to_string())];
    let (outcome, effects) = run(&manager, manager.login("a@b.com", "pw"), &mut held, replies);
    assert_eq!(outcome, Outcome::Auth(Err("Network error: connection refused".to_string())));
    assert_eq!(effects.len(), 1);
    assert_eq!(held, None);
}

#[test]
fn login_fails_when_the_token_response_is_malformed() {
    let manager = manager();
    let mut held = None;
    let replies = vec![Event::Status(200), Event::Malformed("missing field".to_string())];
    let (outcome, _) = run(&manager, manager.login("a@b.com", "pw"), &mut held, replies);
    assert_eq!(
        outcome,
        Outcome::Auth(Err("Failed to parse login response: missing field".to_string()))
    );
    assert_eq!(held, None);
}

#[test]
fn login_fails_when_the_token_cannot_be_saved() {
    let manager = manager();
    let flow = manager.login("a@b.com", "pw");
    let flow = manager.resume(flow, Event::Status(200));
    let flow = manager.resume(flow, token_body("abc"));
    assert!(matches!(flow.effect(), Some(Effect::StoreRecord { .. })));
    let flow = manager.resume(flow, Event::BackendFailure("locked".to_string()));
    assert_eq!(
        flow.into_outcome(),
        Some(Outcome::Auth(Err("Failed to save token to keyring: locked".to_string())))
    );
}

#[test]
fn login_fails_when_the_profile_cannot_be_fetched_but_keeps_the_token() {
    let manager = manager();
    let mut held = None;
    let replies = vec![Event::Status(200), token_body("abc"), Event::Status(500)];
    let (outcome, _) = run(&manager, manager.login("a@b.com", "pw"), &mut held, replies);
    assert_eq!(outcome, Outcome::Auth(Err("Failed to get user profile".to_string())));
    assert_eq!(stored_token(&held.unwrap()), Ok(Some("abc".to_string())));
}

#[test]
fn login_treats_every_status_from_200_to_299_as_success() {
    let manager = manager();
    for status in [200u16, 201, 204, 299] {
        let flow = manager.resume(manager.login("a", "b"), Event::Status(status));
        assert_eq!(flow.stage, Stage::TokenArriving);
    }
    for status in [100u16, 199, 300, 301, 400, 401, 404, 500, 599, 0, u16::MAX] {
        let flow = manager.resume(manager.login("a", "b"), Event::Status(status));
        assert_eq!(flow.stage, Stage::LoginRejected);
    }
}

#[test]
fn status_success_class_is_exact() {
    assert!(!is_success(199));
    assert!(is_success(200));
    assert!(is_success(299));
    assert!(!is_success(300));
}

#[test]
fn login_uses_the_configured_base_url() {
    let manager = manager_at("https://api.example.org");
    let flow = manager.login("a@b.com", "pw");
    assert_eq!(
        flow.effect(),
        Some(Effect::PostLogin {
            url: "https://api.example.org/auth/login".to_string(),
            credentials: UserCredentials {
                email: "a@b.com".to_string(),
                password: "pw".to_string()
            },
        })
    );
    let flow = manager.get_user_profile("t0k");
    assert_eq!(
        flow.effect(),
        Some(Effect::GetProfile {
            url: "https://api.example.org/user/profile".to_string(),
            authorization: "Bearer t0k".to_string(),
        })
    );
}

#[test]
fn captured_record_depends_on_the_time_given() {
    let manager = manager();
    let flow = manager.login("a@b.com", "pw");
    let flow = manager.advance(flow, Event::Status(200), "ignored");
    let flow = manager.advance(flow, token_body("abc"), "2024-01-02T03:04:05Z");
    assert_eq!(
        flow.effect(),
        Some(Effect::StoreRecord {
            record: r#"{"access_token":"abc","stored_at":"2024-01-02T03:04:05Z"}"#.to_string()
        })
    );
}

#[test]
fn record_captured_now_carries_a_current_rfc3339_time() {
    let manager = manager();
    let before = chrono::Utc::now();
    let flow = manager.save_token("abc");
    let after = chrono::Utc::now();
    let record = match flow.effect() {
        Some(Effect::StoreRecord { record }) => record,
        other => panic!("unexpected effect {:?}", other),
    };
    let value: serde_json::Value = serde_json::from_str(&record).unwrap();
    assert_eq!(value["access_token"], serde_json::Value::String("abc".to_string()));
    let stored_at = value["stored_at"].as_str().unwrap();
    assert!(stored_at.ends_with('Z'));
    let instant = chrono::DateTime::parse_from_rfc3339(stored_at).unwrap();
    assert!(before <= instant && instant <= after);
    let as_chrono_writes = serde_json::to_value(instant.with_timezone(&chrono::Utc)).unwrap();
    assert_eq!(as_chrono_writes, value["stored_at"]);
}

#[test]
fn get_user_profile_returns_the_profile() {
    let manager = manager();
    let mut held = None;
    let replies = vec![Event::Status(200), Event::ProfileBody(profile())];
    let (outcome, effects) = run(&manager, manager.get_user_profile("abc"), &mut held, replies);
    assert_eq!(outcome, Outcome::Profile(Ok(profile())));
    assert_eq!(effects.len(), 2);
}

#[test]
fn get_user_profile_discards_the_server_detail_on_failure() {
    let manager = manager();
    for status in [401u16, 404, 500] {
        let mut held = None;
        let (outcome, effects) =
            run(&manager, manager.get_user_profile("abc"), &mut held, vec![Event::Status(status)]);
        assert_eq!(outcome, Outcome::Profile(Err("Failed to get user profile".to_string())));
        assert_eq!(effects.len(), 1);
    }
}

#[test]
fn get_user_profile_reports_transport_and_parse_failures() {
    let manager = manager();
    let mut held = None;
    let (outcome, _) = run(
        &manager,
        manager.get_user_profile("abc"),
        &mut held,
        vec![Event::Unreachable("dns".to_string())],
    );
    assert_eq!(outcome, Outcome::Profile(Err("Network error: dns".to_string())));
    let (outcome, _) = run(
        &manager,
        manager.get_user_profile("abc"),
        &mut held,
        vec![Event::Status(200), Event::Malformed("invalid type".to_string())],
    );
    assert_eq!(
        outcome,
        Outcome::Profile(Err("Failed to parse profile response: invalid type".to_string()))
    );
}

#[test]
fn validate_without_a_token_is_unsuccessful_and_no_error() {
    let manager = manager();
    let mut held = None;
    let (outcome, effects) = run(&manager, manager.validate_stored_token(), &mut held, vec![]);
    assert_eq!(outcome, Outcome::Auth(Ok(unsuccessful("No stored token found"))));
    assert_eq!(effects, vec![Effect::LoadRecord]);
}

#[test]
fn validate_with_an_accepted_token_returns_the_profile() {
    let manager = manager();
    let mut held = Some(token_record("abc", "2024-01-02T03:04:05Z"));
    let replies = vec![Event::Status(200), Event::ProfileBody(profile())];
    let (outcome, effects) = run(&manager, manager.validate_stored_token(), &mut held, replies);
    assert_eq!(outcome, Outcome::Auth(Ok(signed_in("Token valid", "abc"))));
    assert_eq!(
        effects[1],
        Effect::GetProfile {
            url: "http://localhost:8000/user/profile".to_string(),
            authorization: "Bearer abc".to_string(),
        }
    );
    assert_eq!(held, Some(token_record("abc", "2024-01-02T03:04:05Z")));
}

#[test]
fn validate_with_a_rejected_token_removes_it() {
    let manager = manager();
    let mut held = Some(token_record("abc", "2024-01-02T03:04:05Z"));
    let (outcome, effects) =
        run(&manager, manager.validate_stored_token(), &mut held, vec![Event::Status(401)]);
    assert_eq!(outcome, Outcome::Auth(Ok(unsuccessful("Token expired or invalid"))));
    assert_eq!(effects.last(), Some(&Effect::DeleteRecord));
    assert_eq!(held, None);
    let (present, _) = run(&manager, manager.has_stored_token(), &mut held, vec![]);
    assert_eq!(present, Outcome::Present(false));
}

#[test]
fn validate_removes_the_token_on_any_profile_failure() {
    let manager = manager();
    let failures = vec![
        vec![Event::Unreachable("offline".to_string())],
        vec![Event::Status(503)],
        vec![Event::Status(200), Event::Malformed("bad".to_string())],
    ];
    for replies in failures {
        let mut held = Some(token_record("abc", "2024-01-02T03:04:05Z"));
        let (outcome, _) = run(&manager, manager.validate_stored_token(), &mut held, replies);
        assert_eq!(outcome, Outcome::Auth(Ok(unsuccessful("Token expired or invalid"))));
        assert_eq!(held, None);
    }
}

#[test]
fn validate_fails_when_the_record_cannot_be_read_or_deleted() {
    let manager = manager();
    let flow = manager.resume(
        manager.validate_stored_token(),
        Event::BackendFailure("locked".to_string()),
    );
    assert_eq!(
        flow.into_outcome(),
        Some(Outcome::Auth(Err("Failed to load token from keyring: locked".to_string())))
    );

    let flow = manager.resume(manager.validate_stored_token(), Event::Found("{".to_string()));
    assert_eq!(
        flow.into_outcome(),
        Some(Outcome::Auth(Err(
            "Failed to parse token from keyring: EOF while parsing an object at line 1 column 1"
                .to_string()
        )))
    );

    let flow = manager.resume(
        manager.validate_stored_token(),
        Event::Found(token_record("abc", "t")),
    );
    let flow = manager.resume(flow, Event::Status(401));
    assert_eq!(flow.effect(), Some(Effect::DeleteRecord));
    let flow = manager.resume(flow, Event::BackendFailure("locked".to_string()));
    assert_eq!(
        flow.into_outcome(),
        Some(Outcome::Auth(Err("Failed to clear token from keyring: locked".to_string())))
    );
}

#[test]
fn validate_with_a_record_without_token_finds_none() {
    let manager = manager();
    let mut held = Some("{\"stored_at\":\"t\"}".to_string());
    let (outcome, effects) = run(&manager, manager.validate_stored_token(), &mut held, vec![]);
    assert_eq!(outcome, Outcome::Auth(Ok(unsuccessful("No stored token found"))));
    assert_eq!(effects, vec![Effect::LoadRecord]);
    assert_eq!(held, Some("{\"stored_at\":\"t\"}".to_string()));
}

#[test]
fn clear_token_on_an_empty_backend_is_no_error() {
    let manager = manager();
    let mut held = None;
    let (outcome, effects) = run(&manager, manager.clear_token(), &mut held, vec![]);
    assert_eq!(outcome, Outcome::Unit(Ok(())));
    assert_eq!(effects, vec![Effect::DeleteRecord]);
    assert_eq!(held, None);
    let (again, _) = run(&manager, manager.clear_token(), &mut held, vec![]);
    assert_eq!(again, Outcome::Unit(Ok(())));
}

#[test]
fn clear_token_removes_the_record() {
    let manager = manager();
    let mut held = Some(token_record("abc", "t"));
    let (outcome, _) = run(&manager, manager.clear_token(), &mut held, vec![]);
    assert_eq!(outcome, Outcome::Unit(Ok(())));
    assert_eq!(held, None);
}

#[test]
fn clear_token_reports_a_backend_failure() {
    let manager = manager();
    let flow = manager.resume(manager.clear_token(), Event::BackendFailure("locked".to_string()));
    assert_eq!(
        flow.into_outcome(),
        Some(Outcome::Unit(Err("Failed to clear token from keyring: locked".to_string())))
    );
}

#[test]
fn save_token_then_load_token_round_trips() {
    let manager = manager();
    let mut held = None;
    let (saved, effects) = run(&manager, manager.save_token("x"), &mut held, vec![]);
    assert_eq!(saved, Outcome::Unit(Ok(())));
    assert_eq!(effects.len(), 1);
    let (loaded, _) = run(&manager, manager.load_token(), &mut held, vec![]);
    assert_eq!(loaded, Outcome::Token(Ok(Some("x".to_string()))));
}

#[test]
fn save_token_overwrites_an_earlier_token() {
    let manager = manager();
    let mut held = None;
    run(&manager, manager.save_token("first"), &mut held, vec![]);
    run(&manager, manager.save_token_at("second", "2024-01-02T03:04:05Z"), &mut held, vec![]);
    assert_eq!(
        held,
        Some(r#"{"access_token":"second","stored_at":"2024-01-02T03:04:05Z"}"#.to_string())
    );
    let (loaded, _) = run(&manager, manager.load_token(), &mut held, vec![]);
    assert_eq!(loaded, Outcome::Token(Ok(Some("second".to_string()))));
}

#[test]
fn save_token_reports_a_backend_failure() {
    let manager = manager();
    let flow = manager.resume(
        manager.save_token_at("x", "t"),
        Event::BackendFailure("no keyring".to_string()),
    );
    assert_eq!(
        flow.into_outcome(),
        Some(Outcome::Unit(Err("Failed to save token to keyring: no keyring".to_string())))
    );
}

#[test]
fn load_token_from_an_empty_backend_is_none() {
    let manager = manager();
    let mut held = None;
    let (loaded, effects) = run(&manager, manager.load_token(), &mut held, vec![]);
    assert_eq!(loaded, Outcome::Token(Ok(None)));
    assert_eq!(effects, vec![Effect::LoadRecord]);
}

#[test]
fn load_token_reports_backend_and_parse_failures() {
    let manager = manager();
    let flow = manager.resume(manager.load_token(), Event::BackendFailure("locked".to_string()));
    assert_eq!(
        flow.into_outcome(),
        Some(Outcome::Token(Err("Failed to load token from keyring: locked".to_string())))
    );
    let flow = manager.resume(manager.load_token(), Event::Found("not json".to_string()));
    assert_eq!(
        flow.into_outcome(),
        Some(Outcome::Token(Err(
            "Failed to parse token from keyring: expected ident at line 1 column 2".to_string()
        )))
    );
}

#[test]
fn has_stored_token_is_false_before_and_true_after_login() {
    let manager = manager();
    let mut held = None;
    let (before, _) = run(&manager, manager.has_stored_token(), &mut held, vec![]);
    assert_eq!(before, Outcome::Present(false));
    let (login, _) =
        run(&manager, manager.login("a@b.com", "pw"), &mut held, accepted_login_replies("abc"));
    assert!(matches!(login, Outcome::Auth(Ok(_))));
    let (after, effects) = run(&manager, manager.has_stored_token(), &mut held, vec![]);
    assert_eq!(after, Outcome::Present(true));
    assert_eq!(effects, vec![Effect::LoadRecord]);
}

#[test]
fn has_stored_token_does_not_parse_the_record() {
    let manager = manager();
    let flow = manager.resume(manager.has_stored_token(), Event::Found("not json".to_string()));
    assert_eq!(flow.into_outcome(), Some(Outcome::Present(true)));
    let flow = manager.resume(
        manager.has_stored_token(),
        Event::BackendFailure("locked".to_string()),
    );
    assert_eq!(flow.into_outcome(), Some(Outcome::Present(false)));
}

#[test]
fn an_event_that_answers_nothing_leaves_the_flow_as_it_is() {
    let manager = manager();
    let unexpected = vec![
        Event::Stored,
        Event::Deleted,
        Event::Missing,
        Event::Found("x".to_string()),
        Event::ErrorText(None),
        Event::Malformed("x".to_string()),
        token_body("abc"),
        Event::ProfileBody(profile()),
        Event::BackendFailure("x".to_string()),
    ];
    for event in unexpected {
        let flow = manager.resume(manager.login("a@b.com", "pw"), event);
        assert_eq!(flow, manager.login("a@b.com", "pw"));
    }
    for event in [Event::Status(200), Event::Unreachable("x".to_string()), Event::Stored] {
        let flow = manager.resume(manager.load_token(), event);
        assert_eq!(flow, manager.load_token());
    }
}

#[test]
fn a_finished_flow_ignores_events() {
    let manager = manager();
    let done = manager.resume(manager.clear_token(), Event::Deleted);
    assert!(done.is_done());
    assert_eq!(done.effect(), None);
    let still = manager.resume(done, Event::BackendFailure("late".to_string()));
    assert_eq!(still.into_outcome(), Some(Outcome::Unit(Ok(()))));
}

#[test]
fn a_flow_whose_stage_is_not_its_operations_stays_as_it_is() {
    let manager = manager();
    let odd = Flow { operation: Operation::SaveToken, stage: Stage::Deleting };
    assert!(!belongs(odd.operation, &odd.stage));
    let next = manager.resume(odd, Event::Deleted);
    assert_eq!(next, Flow { operation: Operation::SaveToken, stage: Stage::Deleting });
    assert!(belongs(Operation::ClearToken, &Stage::Deleting));
    assert!(belongs(Operation::Login, &Stage::TokenArriving));
    assert!(!belongs(Operation::Login, &Stage::Loading));
    assert!(belongs(Operation::HasStoredToken, &Stage::Done(Outcome::Present(true))));
    assert!(!belongs(Operation::HasStoredToken, &Stage::Done(Outcome::Unit(Ok(())))));
}

#[test]
fn an_unfinished_flow_has_no_outcome() {
    let manager = manager();
    let flow = manager.load_token();
    assert!(!flow.is_done());
    assert_eq!(flow.into_outcome(), None);
}

#[test]
fn continuations_take_results_as_values() {
    let config = AuthConfig::from_base_url(None);
    assert_eq!(
        after_profile(Operation::GetUserProfile, "abc".to_string(), Ok(profile())),
        Stage::Done(Outcome::Profile(Ok(profile())))
    );
    assert_eq!(
        after_profile(Operation::ValidateStoredToken, "abc".to_string(), Err("x".to_string())),
        Stage::Deleting
    );
    assert_eq!(
        after_load(&config, Operation::LoadToken, Ok(Some("abc".to_string()))),
        Stage::Done(Outcome::Token(Ok(Some("abc".to_string()))))
    );
    assert_eq!(
        after_load(&config, Operation::ValidateStoredToken, Ok(Some("abc".to_string()))),
        Stage::ProfileSent {
            token: "abc".to_string(),
            url: "http://localhost:8000/user/profile".to_string(),
            authorization: "Bearer abc".to_string(),
        }
    );
    assert_eq!(
        after_presence(Operation::HasStoredToken, true),
        Stage::Done(Outcome::Present(true))
    );
    assert_eq!(
        after_presence(Operation::CheckAuthStatus, false),
        Stage::Done(Outcome::Status(Ok(false)))
    );
    assert_eq!(
        after_store(&config, Operation::SaveToken, "abc".to_string(), Ok(())),
        Stage::Done(Outcome::Unit(Ok(())))
    );
    assert_eq!(
        after_store(&config, Operation::Login, "abc".to_string(), Err("x".to_string())),
        Stage::Done(Outcome::Auth(Err("x".to_string())))
    );
    assert_eq!(
        after_delete(Operation::ClearToken, Err("x".to_string())),
        Stage::Done(Outcome::Unit(Err("x".to_string())))
    );
    assert_eq!(
        report(Operation::Login, Err("x".to_string())),
        Outcome::Auth(Err("x".to_string()))
    );
    assert_eq!(
        report(Operation::LoginUser, Err("x".to_string())),
        Outcome::Command(Err(AuthError {
            error_type: "LOGIN_FAILED".to_string(),
            message: "x".to_string(),
            user_message: "Login failed. Please check your credentials and try again."
                .to_string(),
        }))
    );
}
