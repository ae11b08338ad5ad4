//! The server API: for each call, the request it sends and what it makes of the
//! reply. Sending, reading bodies and JSON are the caller's part; every decision
//! on a reply is made here.
use vstd::prelude::*;
use vstd::string::*;
use crate::http::{header, pairs_view, request_error, HttpMethod, HttpRequest, ReplyStep, RequestError};
use crate::models::{
    AddUserRequest, CheckMfaEnabledResponse, CreateFirstAdminRequest, ErrorResponse,
    FirstLoginResponse, ForgotResetPasswordResponse, GetApiDetails, GetUserDetails,
    GetUserIdResponse, KeyVerification, PinepodsCheckResponse, ResetCodeResponse,
    SelfServiceStatusResponse, SetupTimeZoneInfoResponse, TimeInfoResponse, UserErrorResponse,
    VerifyMFABody, VerifyMFAResponse,
};
use crate::text::{
    contains_text, has_substring, i32_decimal, int_decimal, join2, join3, trim_end_char,
    trim_trailing_slashes,
};

verus! {

/// URL of an API path on a server: the server name followed by the path.
pub open spec fn api_url(server: Seq<char>, path: Seq<char>) -> Seq<char> {
    server + path
}

fn no_headers() -> (h: Vec<(String, String)>)
    ensures
        pairs_view(h@) == Seq::<(Seq<char>, Seq<char>)>::empty(),
{
    let h: Vec<(String, String)> = Vec::new();
    assert(pairs_view(h@) =~= Seq::<(Seq<char>, Seq<char>)>::empty());
    h
}

fn api_key_headers(api_key: &str) -> (h: Vec<(String, String)>)
    ensures
        pairs_view(h@) == seq![("Api-Key"@, api_key@)],
{
    let mut h: Vec<(String, String)> = Vec::new();
    h.push(header("Api-Key", api_key));
    assert(pairs_view(h@) =~= seq![("Api-Key"@, api_key@)]);
    h
}

fn json_headers() -> (h: Vec<(String, String)>)
    ensures
        pairs_view(h@) == seq![("Content-Type"@, "application/json"@)],
{
    let mut h: Vec<(String, String)> = Vec::new();
    h.push(header("Content-Type", "application/json"));
    assert(pairs_view(h@) =~= seq![("Content-Type"@, "application/json"@)]);
    h
}

fn json_api_key_headers(api_key: &str) -> (h: Vec<(String, String)>)
    ensures
        pairs_view(h@) == seq![("Content-Type"@, "application/json"@), ("Api-Key"@, api_key@)],
{
    let mut h: Vec<(String, String)> = Vec::new();
    h.push(header("Content-Type", "application/json"));
    h.push(header("Api-Key", api_key));
    assert(pairs_view(h@) =~= seq![("Content-Type"@, "application/json"@), ("Api-Key"@, api_key@)]);
    h
}

/// Reply step of the calls that read the body on success and fail with a fixed
/// message otherwise.
pub open spec fn body_or_fail<T>(r: ReplyStep<T>, ok: bool, message: Seq<char>) -> bool {
    if ok {
        r is ReadBody
    } else {
        r matches ReplyStep::Finish(Err(e)) && e.message@ == message
    }
}

fn body_or_fail_step<T>(ok: bool, message: &str) -> (r: ReplyStep<T>)
    ensures
        body_or_fail(r, ok, message@),
{
    if ok {
        ReplyStep::ReadBody
    } else {
        ReplyStep::Finish(Err(request_error(message)))
    }
}

fn body_or_fail_with_status<T>(ok: bool, prefix: &str, status_text: &str) -> (r: ReplyStep<T>)
    ensures
        body_or_fail(r, ok, prefix@ + status_text@),
{
    if ok {
        ReplyStep::ReadBody
    } else {
        ReplyStep::Finish(Err(RequestError { message: join2(prefix, status_text) }))
    }
}

// ---------------------------------------------------------------- instance check

/// `GET {server}/api/pinepods_check`.
pub fn pinepods_check_request(server_name: &str) -> (r: HttpRequest)
    ensures
        r.method == HttpMethod::Get,
        r.url@ == api_url(server_name@, "/api/pinepods_check"@),
        pairs_view(r.headers@).len() == 0,
{
    HttpRequest { method: HttpMethod::Get, url: join2(server_name, "/api/pinepods_check"), headers: no_headers() }
}

/// Instance check: read the body on success, else fail.
pub fn pinepods_check_on_status(ok: bool) -> (r: ReplyStep<PinepodsCheckResponse>)
    ensures
        body_or_fail(r, ok, "Failed to verify Pinepods instance"@),
{
    body_or_fail_step(ok, "Failed to verify Pinepods instance")
}

/// The server is a Pinepods instance only if it says so; a missing flag counts
/// as no.
pub fn pinepods_check_on_body(check: PinepodsCheckResponse) -> (r: Result<PinepodsCheckResponse, RequestError>)
    ensures
        check.pinepods_instance == Some(true) ==> r == Ok::<PinepodsCheckResponse, RequestError>(check),
        check.pinepods_instance != Some(true) ==> (r matches Err(e) && e.message@ == "Pinepods instance not found"@),
{
    if check.pinepods_instance.unwrap_or(false) {
        Ok(check)
    } else {
        Err(request_error("Pinepods instance not found"))
    }
}

// ---------------------------------------------------------------- key verification

/// `GET {server}/api/data/verify_key` with the API key.
pub fn verify_key_request(server_name: &str, api_key: &str) -> (r: HttpRequest)
    ensures
        r.method == HttpMethod::Get,
        r.url@ == api_url(server_name@, "/api/data/verify_key"@),
        pairs_view(r.headers@) == seq![("Api-Key"@, api_key@)],
{
    HttpRequest { method: HttpMethod::Get, url: join2(server_name, "/api/data/verify_key"), headers: api_key_headers(api_key) }
}

/// Key verification: read the body on success, else fail.
pub fn verify_key_on_status(ok: bool) -> (r: ReplyStep<KeyVerification>)
    ensures
        body_or_fail(r, ok, "Failed to get user data"@),
{
    body_or_fail_step(ok, "Failed to get user data")
}

// ---------------------------------------------------------------- user id

/// `GET {server}/api/data/get_user` with the API key.
pub fn get_user_id_request(server_name: &str, api_key: &str) -> (r: HttpRequest)
    ensures
        r.method == HttpMethod::Get,
        r.url@ == api_url(server_name@, "/api/data/get_user"@),
        pairs_view(r.headers@) == seq![("Api-Key"@, api_key@)],
{
    HttpRequest { method: HttpMethod::Get, url: join2(server_name, "/api/data/get_user"), headers: api_key_headers(api_key) }
}

/// User-id lookup: read the body on success, else fail.
pub fn get_user_id_on_status(ok: bool) -> (r: ReplyStep<GetUserIdResponse>)
    ensures
        body_or_fail(r, ok, "Failed to get user ID"@),
{
    body_or_fail_step(ok, "Failed to get user ID")
}

// ---------------------------------------------------------------- user details

/// `GET {server}/api/data/user_details_id/{user_id}` with the API key.
pub fn get_user_details_request(server_name: &str, api_key: &str, user_id: i32) -> (r: HttpRequest)
    ensures
        r.method == HttpMethod::Get,
        r.url@ == api_url(server_name@, "/api/data/user_details_id/"@ + int_decimal(user_id as int)),
        pairs_view(r.headers@) == seq![("Api-Key"@, api_key@)],
{
    let id = i32_decimal(user_id);
    let url = join3(server_name, "/api/data/user_details_id/", id.as_str());
    HttpRequest { method: HttpMethod::Get, url, headers: api_key_headers(api_key) }
}

/// User details: read the body on success, else fail.
pub fn get_user_details_on_status(ok: bool) -> (r: ReplyStep<GetUserDetails>)
    ensures
        body_or_fail(r, ok, "Failed to get user information"@),
{
    body_or_fail_step(ok, "Failed to get user information")
}

// ---------------------------------------------------------------- server configuration

/// `GET {server}/api/data/config` with the API key.
pub fn get_api_config_request(server_name: &str, api_key: &str) -> (r: HttpRequest)
    ensures
        r.method == HttpMethod::Get,
        r.url@ == api_url(server_name@, "/api/data/config"@),
        pairs_view(r.headers@) == seq![("Api-Key"@, api_key@)],
{
    HttpRequest { method: HttpMethod::Get, url: join2(server_name, "/api/data/config"), headers: api_key_headers(api_key) }
}

/// Server configuration: read the body on success, else fail.
pub fn get_api_config_on_status(ok: bool) -> (r: ReplyStep<GetApiDetails>)
    ensures
        body_or_fail(r, ok, "Failed to get user information"@),
{
    body_or_fail_step(ok, "Failed to get user information")
}


// ---------------------------------------------------------------- account creation

/// `POST {server}/api/data/add_login_user` with a JSON body.
pub fn add_login_user_request(server_name: &str) -> (r: HttpRequest)
    ensures
        r.method == HttpMethod::Post,
        r.url@ == api_url(server_name@, "/api/data/add_login_user"@),
        pairs_view(r.headers@) == seq![("Content-Type"@, "application/json"@)],
{
    HttpRequest { method: HttpMethod::Post, url: join2(server_name, "/api/data/add_login_user"), headers: json_headers() }
}

/// Account creation: success needs no body; a failure's body is read as text.
pub fn add_login_user_on_status(ok: bool) -> (r: ReplyStep<bool>)
    ensures
        ok ==> (r matches ReplyStep::Finish(Ok(b)) && b),
        !ok ==> r is ReadErrorBody,
{
    if ok {
        ReplyStep::Finish(Ok(true))
    } else {
        ReplyStep::ReadErrorBody
    }
}

/// The message of a refused account creation: the server's `detail` when its
/// error body is JSON, else a message chosen from the error text.
pub open spec fn add_user_failure_message(error_text: Seq<char>, parsed: Option<UserErrorResponse>) -> Seq<char> {
    match parsed {
        Some(body) => body.detail@,
        None => {
            if has_substring(error_text, "duplicate key value"@) && has_substring(error_text, "username"@) {
                "This username is already taken. Please choose a different username."@
            } else if has_substring(error_text, "duplicate key value"@) && has_substring(error_text, "email"@) {
                "This email is already registered. Please use a different email address."@
            } else {
                "Unable to create user account. Please try again or contact support if the problem persists. Error: "@
                    + error_text
            }
        },
    }
}

/// The error of a refused account creation, from the error text and its JSON
/// reading (`None` when it is not a JSON error body).
pub fn add_login_user_failure(error_text: &str, parsed: Option<UserErrorResponse>) -> (e: RequestError)
    ensures
        e.message@ == add_user_failure_message(error_text@, parsed),
{
    match parsed {
        Some(body) => RequestError { message: body.detail },
        None => {
            let duplicate = contains_text(error_text, "duplicate key value");
            if duplicate && contains_text(error_text, "username") {
                request_error("This username is already taken. Please choose a different username.")
            } else if duplicate && contains_text(error_text, "email") {
                request_error("This email is already registered. Please use a different email address.")
            } else {
                RequestError {
                    message: join2(
                        "Unable to create user account. Please try again or contact support if the problem persists. Error: ",
                        error_text,
                    ),
                }
            }
        },
    }
}

// ---------------------------------------------------------------- first login

/// `GET {server}/api/data/first_login_done/{user_id}`.
pub fn first_login_done_request(server_name: &str, api_key: &str, user_id: i32) -> (r: HttpRequest)
    ensures
        r.method == HttpMethod::Get,
        r.url@ == api_url(server_name@, "/api/data/first_login_done/"@ + int_decimal(user_id as int)),
        pairs_view(r.headers@) == seq![("Content-Type"@, "application/json"@), ("Api-Key"@, api_key@)],
{
    let id = i32_decimal(user_id);
    let url = join3(server_name, "/api/data/first_login_done/", id.as_str());
    HttpRequest { method: HttpMethod::Get, url, headers: json_api_key_headers(api_key) }
}

/// First-login check: read the body on success, else fail with the status text.
pub fn first_login_done_on_status(ok: bool, status_text: &str) -> (r: ReplyStep<bool>)
    ensures
        body_or_fail(r, ok, "Error checking first login status: "@ + status_text@),
{
    body_or_fail_with_status(ok, "Error checking first login status: ", status_text)
}

/// First-login check: the answer is the `FirstLogin` flag.
pub fn first_login_done_on_body(body: FirstLoginResponse) -> (r: bool)
    ensures
        r == body.FirstLogin,
{
    body.FirstLogin
}

// ---------------------------------------------------------------- time preferences

/// `POST {server}/api/data/setup_time_info` with a JSON body.
pub fn setup_timezone_info_request(server_name: &str, api_key: &str) -> (r: HttpRequest)
    ensures
        r.method == HttpMethod::Post,
        r.url@ == api_url(server_name@, "/api/data/setup_time_info"@),
        pairs_view(r.headers@) == seq![("Content-Type"@, "application/json"@), ("Api-Key"@, api_key@)],
{
    HttpRequest { method: HttpMethod::Post, url: join2(server_name, "/api/data/setup_time_info"), headers: json_api_key_headers(api_key) }
}

/// Time-preference setup: read the body on success, else fail with the status text.
pub fn setup_timezone_info_on_status(ok: bool, status_text: &str) -> (r: ReplyStep<SetupTimeZoneInfoResponse>)
    ensures
        body_or_fail(r, ok, "Error setting up time info. Server Response: "@ + status_text@),
{
    body_or_fail_with_status(ok, "Error setting up time info. Server Response: ", status_text)
}

/// `GET {server}/api/data/get_time_info?user_id={user_id}`.
pub fn get_time_info_request(server_name: &str, api_key: &str, user_id: i32) -> (r: HttpRequest)
    ensures
        r.method == HttpMethod::Get,
        r.url@ == api_url(server_name@, "/api/data/get_time_info?user_id="@ + int_decimal(user_id as int)),
        pairs_view(r.headers@) == seq![("Content-Type"@, "application/json"@), ("Api-Key"@, api_key@)],
{
    let id = i32_decimal(user_id);
    let url = join3(server_name, "/api/data/get_time_info?user_id=", id.as_str());
    HttpRequest { method: HttpMethod::Get, url, headers: json_api_key_headers(api_key) }
}

/// Time-preference lookup: read the body on success, else fail with the status text.
pub fn get_time_info_on_status(ok: bool, status_text: &str) -> (r: ReplyStep<TimeInfoResponse>)
    ensures
        body_or_fail(r, ok, "Error fetching time info. Server Response: "@ + status_text@),
{
    body_or_fail_with_status(ok, "Error fetching time info. Server Response: ", status_text)
}

// ---------------------------------------------------------------- multi-factor authentication

/// `GET {server}/api/data/check_mfa_enabled/{user_id}`.
pub fn check_mfa_enabled_request(server_name: &str, api_key: &str, user_id: i32) -> (r: HttpRequest)
    ensures
        r.method == HttpMethod::Get,
        r.url@ == api_url(server_name@, "/api/data/check_mfa_enabled/"@ + int_decimal(user_id as int)),
        pairs_view(r.headers@) == seq![("Content-Type"@, "application/json"@), ("Api-Key"@, api_key@)],
{
    let id = i32_decimal(user_id);
    let url = join3(server_name, "/api/data/check_mfa_enabled/", id.as_str());
    HttpRequest { method: HttpMethod::Get, url, headers: json_api_key_headers(api_key) }
}

/// MFA check: read the body on success, read the error text on failure.
pub fn check_mfa_enabled_on_status(ok: bool) -> (r: ReplyStep<CheckMfaEnabledResponse>)
    ensures
        ok ==> r is ReadBody,
        !ok ==> r is ReadErrorBody,
{
    if ok {
        ReplyStep::ReadBody
    } else {
        ReplyStep::ReadErrorBody
    }
}

/// The message of a failed MFA check: status text and error text (or a note
/// that the error text could not be read).
pub open spec fn check_mfa_failure_message(status_text: Seq<char>, error_text: Option<String>) -> Seq<char> {
    "Error checking MFA enabled status: "@ + status_text + " - "@ + match error_text {
        Some(t) => t@,
        None => "Failed to read error message"@,
    }
}

/// The error of a failed MFA check (`error_text` is `None` when the body could
/// not be read).
pub fn check_mfa_enabled_failure(status_text: &str, error_text: Option<String>) -> (e: RequestError)
    ensures
        e.message@ == check_mfa_failure_message(status_text@, error_text),
{
    let detail = match error_text {
        Some(t) => t,
        None => String::from_str("Failed to read error message"),
    };
    RequestError { message: join3("Error checking MFA enabled status: ", status_text, " - ").concat(detail.as_str()) }
}

/// `POST {server}/api/data/verify_mfa` with a JSON body.
pub fn verify_mfa_request(server_name: &str, api_key: &str) -> (r: HttpRequest)
    ensures
        r.method == HttpMethod::Post,
        r.url@ == api_url(server_name@, "/api/data/verify_mfa"@),
        pairs_view(r.headers@) == seq![("Content-Type"@, "application/json"@), ("Api-Key"@, api_key@)],
{
    HttpRequest { method: HttpMethod::Post, url: join2(server_name, "/api/data/verify_mfa"), headers: json_api_key_headers(api_key) }
}

/// Body of an MFA verification.
pub fn verify_mfa_body(user_id: i32, mfa_code: String) -> (b: VerifyMFABody)
    ensures
        b.user_id == user_id,
        b.mfa_code == mfa_code,
{
    VerifyMFABody { user_id, mfa_code }
}

/// MFA verification: read the body on success, else fail with the status text.
pub fn verify_mfa_on_status(ok: bool, status_text: &str) -> (r: ReplyStep<VerifyMFAResponse>)
    ensures
        body_or_fail(r, ok, "Error verifying MFA: "@ + status_text@),
{
    body_or_fail_with_status(ok, "Error verifying MFA: ", status_text)
}

// ---------------------------------------------------------------- self-service status

/// `GET {server}/api/data/self_service_status`, with trailing slashes of the
/// server name dropped.
pub fn self_service_status_request(server_name: &str) -> (r: HttpRequest)
    ensures
        r.method == HttpMethod::Get,
        r.url@ == api_url(trim_end_char(server_name@, '/'), "/api/data/self_service_status"@),
        pairs_view(r.headers@).len() == 0,
{
    let server = trim_trailing_slashes(server_name);
    HttpRequest { method: HttpMethod::Get, url: join2(server, "/api/data/self_service_status"), headers: no_headers() }
}

/// Self-service status: read the body on success, else fail with the status text.
pub fn self_service_status_on_status(ok: bool, status_text: &str) -> (r: ReplyStep<(bool, bool)>)
    ensures
        body_or_fail(r, ok, "Error fetching self service status: "@ + status_text@),
{
    body_or_fail_with_status(ok, "Error fetching self service status: ", status_text)
}

/// Self-service status: whether sign-up is on, and whether the first admin exists.
pub fn self_service_status_on_body(body: SelfServiceStatusResponse) -> (r: (bool, bool))
    ensures
        r == (body.status, body.first_admin_created),
{
    (body.status, body.first_admin_created)
}

// ---------------------------------------------------------------- first admin

/// Body of the first-admin creation, carrying the hashed password.
pub fn first_admin_request(username: String, hashed_password: String, email: String, fullname: String) -> (r: CreateFirstAdminRequest)
    ensures
        r.username == username,
        r.password == hashed_password,
        r.email == email,
        r.fullname == fullname,
{
    CreateFirstAdminRequest { username, password: hashed_password, email, fullname }
}

/// `POST {server}/api/data/create_first` with a JSON body.
pub fn create_first_admin_request(server_name: &str) -> (r: HttpRequest)
    ensures
        r.method == HttpMethod::Post,
        r.url@ == api_url(server_name@, "/api/data/create_first"@),
        pairs_view(r.headers@).len() == 0,
{
    HttpRequest { method: HttpMethod::Post, url: join2(server_name, "/api/data/create_first"), headers: no_headers() }
}

/// First-admin creation: success needs no body; a failure's body is read as text.
pub fn create_first_admin_on_status(ok: bool) -> (r: ReplyStep<()>)
    ensures
        ok ==> r matches ReplyStep::Finish(Ok(_)),
        !ok ==> r is ReadErrorBody,
{
    if ok {
        ReplyStep::Finish(Ok(()))
    } else {
        ReplyStep::ReadErrorBody
    }
}

/// The error of a failed first-admin creation (`error_text` is `None` when the
/// body could not be read).
pub fn create_first_admin_failure(error_text: Option<String>) -> (e: RequestError)
    ensures
        e.message@ == "Error creating admin: "@ + match error_text {
            Some(t) => t@,
            None => "Unknown error"@,
        },
{
    let detail = match error_text {
        Some(t) => t,
        None => String::from_str("Unknown error"),
    };
    RequestError { message: join2("Error creating admin: ", detail.as_str()) }
}

// ---------------------------------------------------------------- password reset

/// `POST {server}/api/data/reset_password_create_code` with a JSON body.
pub fn reset_password_create_code_request(server_name: &str) -> (r: HttpRequest)
    ensures
        r.method == HttpMethod::Post,
        r.url@ == api_url(server_name@, "/api/data/reset_password_create_code"@),
        pairs_view(r.headers@) == seq![("Content-Type"@, "application/json"@)],
{
    HttpRequest { method: HttpMethod::Post, url: join2(server_name, "/api/data/reset_password_create_code"), headers: json_headers() }
}

/// Reset-code request: read the body on success, read the JSON error body on failure.
pub fn reset_password_create_code_on_status(ok: bool) -> (r: ReplyStep<bool>)
    ensures
        ok ==> r is ReadBody,
        !ok ==> r is ReadErrorBody,
{
    if ok {
        ReplyStep::ReadBody
    } else {
        ReplyStep::ReadErrorBody
    }
}

/// Reset-code request: the answer is whether a code was created.
pub fn reset_password_create_code_on_body(body: ResetCodeResponse) -> (r: bool)
    ensures
        r == body.code_created,
{
    body.code_created
}

/// The error of a refused reset-code request: the server's `detail` when the
/// error body is JSON, else a message with the status text.
pub fn reset_password_create_code_failure(parsed: Option<ErrorResponse>, status_text: &str) -> (e: RequestError)
    ensures
        e.message@ == match parsed {
            Some(body) => body.detail@,
            None => "Error creating reset code: "@ + status_text@,
        },
{
    match parsed {
        Some(body) => RequestError { message: body.detail },
        None => RequestError { message: join2("Error creating reset code: ", status_text) },
    }
}

/// `POST {server}/api/data/verify_and_reset_password` with a JSON body.
pub fn verify_and_reset_password_request(server_name: &str) -> (r: HttpRequest)
    ensures
        r.method == HttpMethod::Post,
        r.url@ == api_url(server_name@, "/api/data/verify_and_reset_password"@),
        pairs_view(r.headers@) == seq![("Content-Type"@, "application/json"@)],
{
    HttpRequest { method: HttpMethod::Post, url: join2(server_name, "/api/data/verify_and_reset_password"), headers: json_headers() }
}

/// Password reset: read the body on success, else fail with the status text.
pub fn verify_and_reset_password_on_status(ok: bool, status_text: &str) -> (r: ReplyStep<ForgotResetPasswordResponse>)
    ensures
        body_or_fail(r, ok, "Error creating reset code: "@ + status_text@),
{
    body_or_fail_with_status(ok, "Error creating reset code: ", status_text)
}

// ---------------------------------------------------------------- transport failures

/// A place where a call can fail outside the server's answer, for the calls
/// that give such failures a message of their own.
#[derive(Debug, Clone, Copy, PartialEq, Eq, Structural)]
pub enum FailurePoint {
    /// time-preference setup: the body could not be serialized
    TimeSetupSerialization,
    /// time-preference setup: the request could not be built
    TimeSetupRequestBuilding,
    /// time-preference setup: the request could not be sent
    TimeSetupNetwork,
    /// time-preference setup: the reply could not be parsed
    TimeSetupParsing,
    /// time-preference lookup: the request could not be sent
    TimeFetchNetwork,
    /// time-preference lookup: the reply could not be parsed
    TimeFetchParsing,
    /// MFA check: the request could not be sent
    MfaCheckNetwork,
    /// MFA check: the reply could not be parsed
    MfaCheckParsing,
    /// self-service status: the request could not be sent
    SelfServiceNetwork,
    /// self-service status: the reply could not be parsed
    SelfServiceParsing,
    /// first admin: the password could not be hashed
    AdminPasswordHash,
    /// first admin: the request could not be sent
    AdminNetwork,
}

/// The message of a failure at `point`, whose own description is `detail`.
pub open spec fn failure_message(point: FailurePoint, detail: Seq<char>) -> Seq<char> {
    match point {
        FailurePoint::TimeSetupSerialization => "Serialization Error"@,
        FailurePoint::TimeSetupRequestBuilding => "Request Building Error"@,
        FailurePoint::TimeSetupNetwork => "Network Request Error"@,
        FailurePoint::TimeSetupParsing => "Response Parsing Error"@,
        FailurePoint::TimeFetchNetwork => "Network Request Error"@,
        FailurePoint::TimeFetchParsing => "Response Parsing Error"@,
        FailurePoint::MfaCheckNetwork => "Network Request Error: "@ + detail,
        FailurePoint::MfaCheckParsing => "Response Parsing Error: "@ + detail,
        FailurePoint::SelfServiceNetwork => "Network error: "@ + detail,
        FailurePoint::SelfServiceParsing => "Error parsing JSON: "@ + detail,
        FailurePoint::AdminPasswordHash => "Failed to hash password: "@ + detail,
        FailurePoint::AdminNetwork => "Network error: "@ + detail,
    }
}

/// The error for a failure at `point` described by `detail`.
pub fn failure_at(point: FailurePoint, detail: &str) -> (e: RequestError)
    ensures
        e.message@ == failure_message(point, detail@),
{
    match point {
        FailurePoint::TimeSetupSerialization => request_error("Serialization Error"),
        FailurePoint::TimeSetupRequestBuilding => request_error("Request Building Error"),
        FailurePoint::TimeSetupNetwork => request_error("Network Request Error"),
        FailurePoint::TimeSetupParsing => request_error("Response Parsing Error"),
        FailurePoint::TimeFetchNetwork => request_error("Network Request Error"),
        FailurePoint::TimeFetchParsing => request_error("Response Parsing Error"),
        FailurePoint::MfaCheckNetwork => RequestError { message: join2("Network Request Error: ", detail) },
        FailurePoint::MfaCheckParsing => RequestError { message: join2("Response Parsing Error: ", detail) },
        FailurePoint::SelfServiceNetwork => RequestError { message: join2("Network error: ", detail) },
        FailurePoint::SelfServiceParsing => RequestError { message: join2("Error parsing JSON: ", detail) },
        FailurePoint::AdminPasswordHash => RequestError { message: join2("Failed to hash password: ", detail) },
        FailurePoint::AdminNetwork => RequestError { message: join2("Network error: ", detail) },
    }
}

} // verus!
