use pinepods_web::http::{request_error, HttpMethod};
use pinepods_web::login::{LoginAction, LoginEvent, LoginFlow, LoginStage};
use pinepods_web::models::{
    GetApiDetails, GetUserDetails, GetUserIdResponse, KeyVerification, LoginResponse,
    LoginServerRequest, PinepodsCheckResponse,
};

fn details(username: Option<&str>) -> GetUserDetails {
    GetUserDetails {
        UserID: 3,
        Fullname: Some("Ada L".into()),
        Username: username.map(|s| s.to_string()),
        Email: Some("ada@example.com".into()),
        Hashed_PW: None,
        Salt: None,
        PreferredLanguage: Some("en".into()),
    }
}

fn config(api_url: Option<&str>) -> GetApiDetails {
    GetApiDetails {
        api_url: api_url.map(|s| s.to_string()),
        proxy_url: None,
        proxy_host: None,
        proxy_port: None,
        proxy_protocol: None,
        reverse_proxy: None,
        people_url: None,
    }
}

fn start() -> LoginFlow {
    let (flow, action) = LoginFlow::start("https://pods.example.com".into(), "ada".into(), "secret".into());
    assert!(matches!(action, LoginAction::CheckInstance));
    flow
}

fn step(flow: &mut LoginFlow, ev: LoginEvent) -> LoginAction {
    assert!(flow.admits(&ev));
    flow.advance(ev)
}

fn finish_error(action: LoginAction) -> String {
    match action {
        LoginAction::Finish(Err(e)) => e.message,
        other => panic!("expected a failure, got {:?}", other),
    }
}

/// Runs the flow up to the key verification.
fn up_to_key(flow: &mut LoginFlow) {
    let act = step(flow, LoginEvent::InstanceChecked(Ok(PinepodsCheckResponse { pinepods_instance: Some(true) })));
    match act {
        LoginAction::SendKeyRequest(req) => {
            assert_eq!(req.method, HttpMethod::Get);
            assert_eq!(req.url, "https://pods.example.com/api/data/get_key");
            assert_eq!(req.headers, vec![("Authorization".to_string(), "Basic YWRhOnNlY3JldA==".to_string())]);
        },
        other => panic!("unexpected {:?}", other),
    }
    assert!(matches!(step(flow, LoginEvent::KeyStatus(Ok(true))), LoginAction::ReadKeyBody));
    let act = step(flow, LoginEvent::KeyBody(Ok(LoginResponse { status: "success".into(), retrieved_key: "KEY-1".into() })));
    match act {
        LoginAction::VerifyKey(k) => assert_eq!(k, "KEY-1"),
        other => panic!("unexpected {:?}", other),
    }
}

#[test]
fn login_succeeds_through_all_steps() {
    let mut flow = start();
    assert_eq!(flow.auth_header, "Basic YWRhOnNlY3JldA==");
    up_to_key(&mut flow);
    match step(&mut flow, LoginEvent::KeyVerified(Ok(KeyVerification { status: "success".into() }))) {
        LoginAction::GetUserId(k) => assert_eq!(k, "KEY-1"),
        other => panic!("unexpected {:?}", other),
    }
    match step(&mut flow, LoginEvent::UserIdFetched(Ok(GetUserIdResponse { status: "success".into(), retrieved_id: Some(3) }))) {
        LoginAction::GetUserDetails(k, id) => {
            assert_eq!(k, "KEY-1");
            assert_eq!(id, 3);
        },
        other => panic!("unexpected {:?}", other),
    }
    match step(&mut flow, LoginEvent::DetailsFetched(Ok(details(Some("ada"))))) {
        LoginAction::GetApiConfig(k) => assert_eq!(k, "KEY-1"),
        other => panic!("unexpected {:?}", other),
    }
    match step(&mut flow, LoginEvent::ConfigFetched(Ok(config(Some("https://pods.example.com/api"))))) {
        LoginAction::Finish(Ok((d, req, cfg))) => {
            assert_eq!(d, details(Some("ada")));
            assert_eq!(
                req,
                LoginServerRequest {
                    server_name: "https://pods.example.com".into(),
                    username: "ada".into(),
                    password: "secret".into(),
                    api_key: Some("KEY-1".into()),
                }
            );
            assert_eq!(cfg, config(Some("https://pods.example.com/api")));
        },
        other => panic!("unexpected {:?}", other),
    }
    assert!(matches!(flow.stage, LoginStage::Finished));
    assert!(!flow.admits(&LoginEvent::KeyStatus(Ok(true))));
}

#[test]
fn login_stops_when_not_an_instance() {
    let mut flow = start();
    let act = step(&mut flow, LoginEvent::InstanceChecked(Ok(PinepodsCheckResponse { pinepods_instance: None })));
    assert_eq!(finish_error(act), "Pinepods instance not found at specified server");
}

#[test]
fn login_passes_on_reported_errors() {
    let mut flow = start();
    let act = step(&mut flow, LoginEvent::InstanceChecked(Err(request_error("Failed to verify Pinepods instance"))));
    assert_eq!(finish_error(act), "Failed to verify Pinepods instance");

    let mut flow = start();
    step(&mut flow, LoginEvent::InstanceChecked(Ok(PinepodsCheckResponse { pinepods_instance: Some(true) })));
    let act = step(&mut flow, LoginEvent::KeyStatus(Err(request_error("network down"))));
    assert_eq!(finish_error(act), "network down");
}

#[test]
fn login_refuses_bad_credentials() {
    let mut flow = start();
    step(&mut flow, LoginEvent::InstanceChecked(Ok(PinepodsCheckResponse { pinepods_instance: Some(true) })));
    let act = step(&mut flow, LoginEvent::KeyStatus(Ok(false)));
    assert_eq!(finish_error(act), "Failed to authenticate user. Incorrect credentials?");
}

#[test]
fn login_refuses_unverified_key() {
    let mut flow = start();
    up_to_key(&mut flow);
    let act = step(&mut flow, LoginEvent::KeyVerified(Ok(KeyVerification { status: "failure".into() })));
    assert_eq!(finish_error(act), "API key verification failed");
}

#[test]
fn login_refuses_missing_user_id_status() {
    let mut flow = start();
    up_to_key(&mut flow);
    step(&mut flow, LoginEvent::KeyVerified(Ok(KeyVerification { status: "success".into() })));
    let act = step(&mut flow, LoginEvent::UserIdFetched(Ok(GetUserIdResponse { status: "error".into(), retrieved_id: None })));
    assert_eq!(finish_error(act), "Failed to get user ID");
}

#[test]
fn login_does_not_admit_success_without_id() {
    let mut flow = start();
    up_to_key(&mut flow);
    step(&mut flow, LoginEvent::KeyVerified(Ok(KeyVerification { status: "success".into() })));
    let ev = LoginEvent::UserIdFetched(Ok(GetUserIdResponse { status: "success".into(), retrieved_id: None }));
    assert!(!flow.admits(&ev));
}

#[test]
fn login_refuses_nameless_user_and_urlless_server() {
    let mut flow = start();
    up_to_key(&mut flow);
    step(&mut flow, LoginEvent::KeyVerified(Ok(KeyVerification { status: "success".into() })));
    step(&mut flow, LoginEvent::UserIdFetched(Ok(GetUserIdResponse { status: "success".into(), retrieved_id: Some(3) })));
    let act = step(&mut flow, LoginEvent::DetailsFetched(Ok(details(None))));
    assert_eq!(finish_error(act), "Failed to get user details");

    let mut flow = start();
    up_to_key(&mut flow);
    step(&mut flow, LoginEvent::KeyVerified(Ok(KeyVerification { status: "success".into() })));
    step(&mut flow, LoginEvent::UserIdFetched(Ok(GetUserIdResponse { status: "success".into(), retrieved_id: Some(3) })));
    step(&mut flow, LoginEvent::DetailsFetched(Ok(details(Some("ada")))));
    let act = step(&mut flow, LoginEvent::ConfigFetched(Ok(config(None))));
    assert_eq!(finish_error(act), "Failed to get server details");
}

#[test]
fn login_events_out_of_order_are_not_admitted() {
    let flow = start();
    assert!(!flow.admits(&LoginEvent::KeyStatus(Ok(true))));
    assert!(flow.admits(&LoginEvent::InstanceChecked(Ok(PinepodsCheckResponse { pinepods_instance: None }))));
}
