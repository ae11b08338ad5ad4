//! The records exchanged with the Pinepods server. Their JSON form is produced
//! and read outside the library; here they are plain data.
use vstd::prelude::*;

verus! {

/// Credentials of a plain login.
#[derive(Debug, Clone, PartialEq)]
pub struct LoginRequest {
    pub username: String,
    pub password: String,
}

/// What a completed server login remembers about the server and the user.
#[derive(Debug, Clone, PartialEq)]
pub struct LoginServerRequest {
    pub server_name: String,
    pub username: String,
    pub password: String,
    pub api_key: Option<String>,
}

/// Reply of the key endpoint.
#[derive(Debug, Clone, PartialEq)]
pub struct LoginResponse {
    pub status: String,
    pub retrieved_key: String,
}

/// Reply of the instance check.
#[derive(Debug, Clone, PartialEq)]
pub struct PinepodsCheckResponse {
    pub pinepods_instance: Option<bool>,
}

/// Reply of the key verification.
#[derive(Debug, Clone, PartialEq)]
pub struct KeyVerification {
    pub status: String,
}

/// Reply of the user-id lookup.
#[derive(Debug, Clone, PartialEq)]
pub struct GetUserIdResponse {
    pub status: String,
    pub retrieved_id: Option<i32>,
}

/// The details the server keeps about a user.
#[allow(non_snake_case)]
#[derive(Debug, Clone, PartialEq)]
pub struct GetUserDetails {
    pub UserID: i32,
    pub Fullname: Option<String>,
    pub Username: Option<String>,
    pub Email: Option<String>,
    pub Hashed_PW: Option<String>,
    pub Salt: Option<String>,
    pub PreferredLanguage: Option<String>,
}

/// The server's configuration as the client sees it.
#[derive(Debug, Clone, PartialEq)]
pub struct GetApiDetails {
    pub api_url: Option<String>,
    pub proxy_url: Option<String>,
    pub proxy_host: Option<String>,
    pub proxy_port: Option<String>,
    pub proxy_protocol: Option<String>,
    pub reverse_proxy: Option<String>,
    pub people_url: Option<String>,
}

/// A new account to create.
#[derive(Debug, Clone, PartialEq)]
pub struct AddUserRequest {
    pub fullname: String,
    pub username: String,
    pub email: String,
    pub hash_pw: String,
}

/// Reply of the account creation.
#[derive(Debug, Clone, PartialEq)]
pub struct AddUserResponse {
    pub detail: String,
}

/// Error body of the account creation.
#[derive(Debug, Clone, PartialEq)]
pub struct UserErrorResponse {
    pub detail: String,
}

/// Reply of the first-login check.
#[allow(non_snake_case)]
#[derive(Debug, Clone, PartialEq)]
pub struct FirstLoginResponse {
    pub FirstLogin: bool,
}

/// Time and language preferences of a user.
#[derive(Debug, Clone, PartialEq)]
pub struct TimeZoneInfo {
    pub user_id: i32,
    pub timezone: String,
    pub hour_pref: i32,
    pub date_format: String,
    pub preferred_language: String,
}

/// Reply of the time-preference setup.
#[derive(Debug, Clone, PartialEq)]
pub struct SetupTimeZoneInfoResponse {
    pub success: bool,
}

/// Time preferences of a user as the server returns them.
#[derive(Debug, Clone, PartialEq)]
pub struct TimeInfoResponse {
    pub timezone: String,
    pub hour_pref: i16,
    pub date_format: String,
}

/// Reply of the MFA-enabled check.
#[derive(Debug, Clone, PartialEq)]
pub struct CheckMfaEnabledResponse {
    pub mfa_enabled: bool,
}

/// Body of an MFA verification.
#[derive(Debug, Clone, PartialEq)]
pub struct VerifyMFABody {
    pub user_id: i32,
    pub mfa_code: String,
}

/// Reply of an MFA verification.
#[derive(Debug, Clone, PartialEq)]
pub struct VerifyMFAResponse {
    pub verified: bool,
}

/// Whether self-service sign-up is on, and whether the first admin exists.
#[derive(Debug, Clone, PartialEq)]
pub struct SelfServiceStatusResponse {
    pub status: bool,
    pub first_admin_created: bool,
}

/// Body of the first-admin creation (the password already hashed).
#[derive(Debug, Clone, PartialEq)]
pub struct CreateFirstAdminRequest {
    pub username: String,
    pub password: String,
    pub email: String,
    pub fullname: String,
}

/// Reply of the first-admin creation.
#[derive(Debug, Clone, PartialEq)]
pub struct CreateFirstAdminResponse {
    pub message: String,
    pub user_id: i32,
}

/// Body of a password-reset code request.
#[derive(Debug, Clone, PartialEq)]
pub struct ResetCodePayload {
    pub email: String,
    pub username: String,
}

/// Reply of a password-reset code request.
#[derive(Debug, Clone, PartialEq)]
pub struct ResetCodeResponse {
    pub code_created: bool,
}

/// Error body of the server.
#[derive(Debug, Clone, PartialEq)]
pub struct ErrorResponse {
    pub detail: String,
}

/// Body of a password reset with a code.
#[derive(Debug, Clone, PartialEq)]
pub struct ResetForgotPasswordPayload {
    pub reset_code: String,
    pub email: String,
    pub new_password: String,
}

/// Reply of a password reset with a code.
#[derive(Debug, Clone, PartialEq)]
pub struct ForgotResetPasswordResponse {
    pub message: String,
}

} // verus!
