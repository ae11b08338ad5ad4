use pinepods_web::endpoints::{
    add_login_user_failure, add_login_user_on_status, add_login_user_request,
    check_mfa_enabled_failure, check_mfa_enabled_on_status, check_mfa_enabled_request,
    create_first_admin_failure, create_first_admin_on_status, create_first_admin_request,
    failure_at, first_admin_request, first_login_done_on_body, first_login_done_on_status,
    first_login_done_request, get_api_config_on_status, get_api_config_request,
    get_time_info_on_status, get_time_info_request, get_user_details_on_status,
    get_user_details_request, get_user_id_on_status, get_user_id_request,
    pinepods_check_on_body, pinepods_check_on_status, pinepods_check_request,
    reset_password_create_code_failure, reset_password_create_code_on_body,
    reset_password_create_code_on_status, reset_password_create_code_request,
    self_service_status_on_body, self_service_status_on_status, self_service_status_request,
    setup_timezone_info_on_status, setup_timezone_info_request, verify_and_reset_password_on_status,
    verify_and_reset_password_request, verify_key_on_status, verify_key_request, verify_mfa_body,
    verify_mfa_on_status, verify_mfa_request, FailurePoint,
};
use pinepods_web::http::{HttpMethod, HttpRequest, ReplyStep};
use pinepods_web::models::{
    ErrorResponse, FirstLoginResponse, PinepodsCheckResponse, ResetCodeResponse,
    SelfServiceStatusResponse, UserErrorResponse,
};

fn pairs(v: &[(&str, &str)]) -> Vec<(String, String)> {
    v.iter().map(|(a, b)| (a.to_string(), b.to_string())).collect()
}

fn check(req: HttpRequest, method: HttpMethod, url: &str, headers: &[(&str, &str)]) {
    assert_eq!(req.method, method);
    assert_eq!(req.url, url);
    assert_eq!(req.headers, pairs(headers));
}

fn failure_message<T>(step: ReplyStep<T>) -> String {
    match step {
        ReplyStep::Finish(Err(e)) => e.message,
        _ => panic!("expected a failure"),
    }
}

const S: &str = "https://pods.example.com";

#[test]
fn requests_have_paths_and_headers() {
    check(pinepods_check_request(S), HttpMethod::Get, "https://pods.example.com/api/pinepods_check", &[]);
    check(verify_key_request(S, "k1"), HttpMethod::Get, "https://pods.example.com/api/data/verify_key", &[("Api-Key", "k1")]);
    check(get_user_id_request(S, "k1"), HttpMethod::Get, "https://pods.example.com/api/data/get_user", &[("Api-Key", "k1")]);
    check(get_user_details_request(S, "k1", 42), HttpMethod::Get, "https://pods.example.com/api/data/user_details_id/42", &[("Api-Key", "k1")]);
    check(get_api_config_request(S, "k1"), HttpMethod::Get, "https://pods.example.com/api/data/config", &[("Api-Key", "k1")]);
    check(add_login_user_request(S), HttpMethod::Post, "https://pods.example.com/api/data/add_login_user", &[("Content-Type", "application/json")]);
    check(
        first_login_done_request(S, "k1", 7),
        HttpMethod::Get,
        "https://pods.example.com/api/data/first_login_done/7",
        &[("Content-Type", "application/json"), ("Api-Key", "k1")],
    );
    check(
        setup_timezone_info_request(S, "k1"),
        HttpMethod::Post,
        "https://pods.example.com/api/data/setup_time_info",
        &[("Content-Type", "application/json"), ("Api-Key", "k1")],
    );
    check(
        get_time_info_request(S, "k1", -3),
        HttpMethod::Get,
        "https://pods.example.com/api/data/get_time_info?user_id=-3",
        &[("Content-Type", "application/json"), ("Api-Key", "k1")],
    );
    check(
        check_mfa_enabled_request(S, "k1", 12),
        HttpMethod::Get,
        "https://pods.example.com/api/data/check_mfa_enabled/12",
        &[("Content-Type", "application/json"), ("Api-Key", "k1")],
    );
    check(
        verify_mfa_request(S, "k1"),
        HttpMethod::Post,
        "https://pods.example.com/api/data/verify_mfa",
        &[("Content-Type", "application/json"), ("Api-Key", "k1")],
    );
    check(create_first_admin_request(S), HttpMethod::Post, "https://pods.example.com/api/data/create_first", &[]);
    check(
        reset_password_create_code_request(S),
        HttpMethod::Post,
        "https://pods.example.com/api/data/reset_password_create_code",
        &[("Content-Type", "application/json")],
    );
    check(
        verify_and_reset_password_request(S),
        HttpMethod::Post,
        "https://pods.example.com/api/data/verify_and_reset_password",
        &[("Content-Type", "application/json")],
    );
}

#[test]
fn self_service_request_trims_slashes() {
    check(
        self_service_status_request("https://pods.example.com//"),
        HttpMethod::Get,
        "https://pods.example.com/api/data/self_service_status",
        &[],
    );
}

#[test]
fn fixed_failure_messages() {
    assert_eq!(failure_message(pinepods_check_on_status(false)), "Failed to verify Pinepods instance");
    assert_eq!(failure_message(verify_key_on_status(false)), "Failed to get user data");
    assert_eq!(failure_message(get_user_id_on_status(false)), "Failed to get user ID");
    assert_eq!(failure_message(get_user_details_on_status(false)), "Failed to get user information");
    assert_eq!(failure_message(get_api_config_on_status(false)), "Failed to get user information");
    assert!(matches!(pinepods_check_on_status(true), ReplyStep::ReadBody));
    assert!(matches!(get_user_details_on_status(true), ReplyStep::ReadBody));
}

#[test]
fn status_text_failure_messages() {
    assert_eq!(failure_message(first_login_done_on_status(false, "Not Found")), "Error checking first login status: Not Found");
    assert_eq!(
        failure_message(setup_timezone_info_on_status(false, "Bad Request")),
        "Error setting up time info. Server Response: Bad Request"
    );
    assert_eq!(
        failure_message(get_time_info_on_status(false, "Unauthorized")),
        "Error fetching time info. Server Response: Unauthorized"
    );
    assert_eq!(failure_message(verify_mfa_on_status(false, "Forbidden")), "Error verifying MFA: Forbidden");
    assert_eq!(
        failure_message(self_service_status_on_status(false, "Internal Server Error")),
        "Error fetching self service status: Internal Server Error"
    );
    assert_eq!(
        failure_message(verify_and_reset_password_on_status(false, "Gone")),
        "Error creating reset code: Gone"
    );
    assert!(matches!(first_login_done_on_status(true, "OK"), ReplyStep::ReadBody));
    assert!(matches!(verify_mfa_on_status(true, "OK"), ReplyStep::ReadBody));
}

#[test]
fn instance_check_body() {
    let yes = PinepodsCheckResponse { pinepods_instance: Some(true) };
    assert_eq!(pinepods_check_on_body(yes.clone()).unwrap(), yes);
    let no = pinepods_check_on_body(PinepodsCheckResponse { pinepods_instance: Some(false) });
    assert_eq!(no.unwrap_err().message, "Pinepods instance not found");
    let missing = pinepods_check_on_body(PinepodsCheckResponse { pinepods_instance: None });
    assert_eq!(missing.unwrap_err().message, "Pinepods instance not found");
}

#[test]
fn add_user_reply_handling() {
    assert!(matches!(add_login_user_on_status(true), ReplyStep::Finish(Ok(true))));
    assert!(matches!(add_login_user_on_status(false), ReplyStep::ReadErrorBody));

    let detail = UserErrorResponse { detail: "Username taken".to_string() };
    assert_eq!(add_login_user_failure("{\"detail\":\"Username taken\"}", Some(detail)).message, "Username taken");

    let text = "duplicate key value violates unique constraint on username";
    assert_eq!(
        add_login_user_failure(text, None).message,
        "This username is already taken. Please choose a different username."
    );
    let text = "duplicate key value violates unique constraint on email";
    assert_eq!(
        add_login_user_failure(text, None).message,
        "This email is already registered. Please use a different email address."
    );
    let text = "duplicate key value on username and email";
    assert_eq!(
        add_login_user_failure(text, None).message,
        "This username is already taken. Please choose a different username."
    );
    let text = "username is invalid";
    assert_eq!(
        add_login_user_failure(text, None).message,
        "Unable to create user account. Please try again or contact support if the problem persists. Error: username is invalid"
    );
}

#[test]
fn body_readers() {
    assert!(first_login_done_on_body(FirstLoginResponse { FirstLogin: true }));
    assert!(!first_login_done_on_body(FirstLoginResponse { FirstLogin: false }));
    assert_eq!(
        self_service_status_on_body(SelfServiceStatusResponse { status: true, first_admin_created: false }),
        (true, false)
    );
    assert!(reset_password_create_code_on_body(ResetCodeResponse { code_created: true }));
    let body = verify_mfa_body(5, "123456".to_string());
    assert_eq!(body.user_id, 5);
    assert_eq!(body.mfa_code, "123456");
    let admin = first_admin_request("root".into(), "$hash".into(), "r@x.org".into(), "Root".into());
    assert_eq!(admin.username, "root");
    assert_eq!(admin.password, "$hash");
    assert_eq!(admin.email, "r@x.org");
    assert_eq!(admin.fullname, "Root");
}

#[test]
fn mfa_and_admin_failures() {
    assert!(matches!(check_mfa_enabled_on_status(true), ReplyStep::ReadBody));
    assert!(matches!(check_mfa_enabled_on_status(false), ReplyStep::ReadErrorBody));
    assert_eq!(
        check_mfa_enabled_failure("Bad Gateway", Some("upstream down".to_string())).message,
        "Error checking MFA enabled status: Bad Gateway - upstream down"
    );
    assert_eq!(
        check_mfa_enabled_failure("Bad Gateway", None).message,
        "Error checking MFA enabled status: Bad Gateway - Failed to read error message"
    );
    assert!(matches!(create_first_admin_on_status(true), ReplyStep::Finish(Ok(()))));
    assert!(matches!(create_first_admin_on_status(false), ReplyStep::ReadErrorBody));
    assert_eq!(create_first_admin_failure(Some("exists".to_string())).message, "Error creating admin: exists");
    assert_eq!(create_first_admin_failure(None).message, "Error creating admin: Unknown error");
}

#[test]
fn reset_code_failures() {
    assert!(matches!(reset_password_create_code_on_status(true), ReplyStep::ReadBody));
    assert!(matches!(reset_password_create_code_on_status(false), ReplyStep::ReadErrorBody));
    let parsed = ErrorResponse { detail: "No such user".to_string() };
    assert_eq!(reset_password_create_code_failure(Some(parsed), "Not Found").message, "No such user");
    assert_eq!(reset_password_create_code_failure(None, "Not Found").message, "Error creating reset code: Not Found");
}

#[test]
fn failure_points() {
    let cases = [
        (FailurePoint::TimeSetupSerialization, "Serialization Error"),
        (FailurePoint::TimeSetupRequestBuilding, "Request Building Error"),
        (FailurePoint::TimeSetupNetwork, "Network Request Error"),
        (FailurePoint::TimeSetupParsing, "Response Parsing Error"),
        (FailurePoint::TimeFetchNetwork, "Network Request Error"),
        (FailurePoint::TimeFetchParsing, "Response Parsing Error"),
        (FailurePoint::MfaCheckNetwork, "Network Request Error: boom"),
        (FailurePoint::MfaCheckParsing, "Response Parsing Error: boom"),
        (FailurePoint::SelfServiceNetwork, "Network error: boom"),
        (FailurePoint::SelfServiceParsing, "Error parsing JSON: boom"),
        (FailurePoint::AdminPasswordHash, "Failed to hash password: boom"),
        (FailurePoint::AdminNetwork, "Network error: boom"),
    ];
    for (point, expected) in cases {
        assert_eq!(failure_at(point, "boom").message, expected);
    }
}
