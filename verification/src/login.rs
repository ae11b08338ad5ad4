//! Logging in to a new server, as a sequence of steps: the flow says what to do
//! next, the caller does it and reports what happened.
//!
//! The steps: check that the server is a Pinepods instance; fetch an API key
//! with HTTP Basic credentials; verify the key; look up the user id; fetch the
//! user's details; fetch the server configuration. Any failure ends the flow
//! with an error; the last step ends it with the details, the login record and
//! the configuration.
use vstd::prelude::*;
use vstd::string::*;
use crate::encoding::{basic_auth_header, credentials_text, standard_base64};
use crate::endpoints::api_url;
use crate::http::{header, pairs_view, request_error, HttpMethod, HttpRequest, RequestError};
use crate::models::{
    GetApiDetails, GetUserDetails, GetUserIdResponse, KeyVerification, LoginResponse,
    LoginServerRequest, PinepodsCheckResponse,
};
use crate::text::join2;

verus! {

/// Where a login stands.
#[derive(Debug)]
pub enum LoginStage {
    /// waiting for the instance check
    CheckingInstance,
    /// waiting for the status of the key request
    FetchingKey,
    /// waiting for the body of the key reply
    ReadingKey,
    /// waiting for the verification of `api_key`
    VerifyingKey { api_key: String },
    /// waiting for the user id
    FetchingUserId { api_key: String },
    /// waiting for the user's details
    FetchingDetails { api_key: String },
    /// waiting for the server configuration
    FetchingConfig { api_key: String, details: GetUserDetails },
    /// over
    Finished,
}

/// What a successful login yields.
pub type LoginOutcome = (GetUserDetails, LoginServerRequest, GetApiDetails);

/// A login in progress.
#[derive(Debug)]
pub struct LoginFlow {
    pub server_name: String,
    pub username: String,
    pub password: String,
    /// the `Authorization` header value for the key request
    pub auth_header: String,
    pub stage: LoginStage,
}

/// What the caller is to do next.
#[derive(Debug)]
pub enum LoginAction {
    /// check that the server is a Pinepods instance, and report `InstanceChecked`
    CheckInstance,
    /// send this request and report its status as `KeyStatus`
    SendKeyRequest(HttpRequest),
    /// read the JSON body of the key reply and report `KeyBody`
    ReadKeyBody,
    /// verify this API key and report `KeyVerified`
    VerifyKey(String),
    /// look up the user id with this API key and report `UserIdFetched`
    GetUserId(String),
    /// fetch the details of this user with this API key and report `DetailsFetched`
    GetUserDetails(String, i32),
    /// fetch the server configuration with this API key and report `ConfigFetched`
    GetApiConfig(String),
    /// the login is over
    Finish(Result<LoginOutcome, RequestError>),
}

/// What happened when the caller did what it was asked.
#[derive(Debug)]
pub enum LoginEvent {
    InstanceChecked(Result<PinepodsCheckResponse, RequestError>),
    /// `Ok` with the success flag of the reply, or the error of sending
    KeyStatus(Result<bool, RequestError>),
    KeyBody(Result<LoginResponse, RequestError>),
    KeyVerified(Result<KeyVerification, RequestError>),
    UserIdFetched(Result<GetUserIdResponse, RequestError>),
    DetailsFetched(Result<GetUserDetails, RequestError>),
    ConfigFetched(Result<GetApiDetails, RequestError>),
}

/// The position of a stage in the sequence of steps.
pub open spec fn stage_rank(stage: LoginStage) -> nat {
    match stage {
        LoginStage::CheckingInstance => 0,
        LoginStage::FetchingKey => 1,
        LoginStage::ReadingKey => 2,
        LoginStage::VerifyingKey { .. } => 3,
        LoginStage::FetchingUserId { .. } => 4,
        LoginStage::FetchingDetails { .. } => 5,
        LoginStage::FetchingConfig { .. } => 6,
        LoginStage::Finished => 7,
    }
}

/// The event that `stage` waits for has arrived, and it is not a successful
/// user-id reply without an id (which the login cannot go on from).
pub open spec fn admits(stage: LoginStage, ev: LoginEvent) -> bool {
    match (stage, ev) {
        (LoginStage::CheckingInstance, LoginEvent::InstanceChecked(_)) => true,
        (LoginStage::FetchingKey, LoginEvent::KeyStatus(_)) => true,
        (LoginStage::ReadingKey, LoginEvent::KeyBody(_)) => true,
        (LoginStage::VerifyingKey { .. }, LoginEvent::KeyVerified(_)) => true,
        (LoginStage::FetchingUserId { .. }, LoginEvent::UserIdFetched(r)) => match r {
            Ok(u) => u.status@ == "success"@ ==> u.retrieved_id is Some,
            Err(_) => true,
        },
        (LoginStage::FetchingDetails { .. }, LoginEvent::DetailsFetched(_)) => true,
        (LoginStage::FetchingConfig { .. }, LoginEvent::ConfigFetched(_)) => true,
        _ => false,
    }
}

/// The request for the API key: `GET {server}/api/data/get_key` with the
/// `Authorization` header.
pub open spec fn is_key_request(req: HttpRequest, server: Seq<char>, auth_header: Seq<char>) -> bool {
    &&& req.method == HttpMethod::Get
    &&& req.url@ == api_url(server, "/api/data/get_key"@)
    &&& pairs_view(req.headers@) == seq![("Authorization"@, auth_header)]
}

/// The step ends the flow with the error `e`.
pub open spec fn ends_with(post: LoginFlow, act: LoginAction, e: RequestError) -> bool {
    post.stage is Finished && act == LoginAction::Finish(Err(e))
}

/// The step ends the flow with an error whose message is `message`.
pub open spec fn ends_with_message(post: LoginFlow, act: LoginAction, message: Seq<char>) -> bool {
    post.stage is Finished && (act matches LoginAction::Finish(Err(e)) && e.message@ == message)
}

/// One step of the flow: from `pre`, on `ev`, the flow becomes `post` and asks for `act`.
pub open spec fn transition(pre: LoginFlow, ev: LoginEvent, post: LoginFlow, act: LoginAction) -> bool {
    &&& post.server_name == pre.server_name
    &&& post.username == pre.username
    &&& post.password == pre.password
    &&& post.auth_header == pre.auth_header
    &&& match (pre.stage, ev) {
        (LoginStage::CheckingInstance, LoginEvent::InstanceChecked(Err(e))) => ends_with(post, act, e),
        (LoginStage::CheckingInstance, LoginEvent::InstanceChecked(Ok(c))) => {
            if c.pinepods_instance == Some(true) {
                post.stage is FetchingKey
                    && (act matches LoginAction::SendKeyRequest(req) && is_key_request(req, pre.server_name@, pre.auth_header@))
            } else {
                ends_with_message(post, act, "Pinepods instance not found at specified server"@)
            }
        },
        (LoginStage::FetchingKey, LoginEvent::KeyStatus(Err(e))) => ends_with(post, act, e),
        (LoginStage::FetchingKey, LoginEvent::KeyStatus(Ok(ok))) => {
            if ok {
                post.stage is ReadingKey && act is ReadKeyBody
            } else {
                ends_with_message(post, act, "Failed to authenticate user. Incorrect credentials?"@)
            }
        },
        (LoginStage::ReadingKey, LoginEvent::KeyBody(Err(e))) => ends_with(post, act, e),
        (LoginStage::ReadingKey, LoginEvent::KeyBody(Ok(k))) => {
            post.stage == LoginStage::VerifyingKey { api_key: k.retrieved_key }
                && act == LoginAction::VerifyKey(k.retrieved_key)
        },
        (LoginStage::VerifyingKey { api_key }, LoginEvent::KeyVerified(Err(e))) => ends_with(post, act, e),
        (LoginStage::VerifyingKey { api_key }, LoginEvent::KeyVerified(Ok(v))) => {
            if v.status@ == "success"@ {
                post.stage == LoginStage::FetchingUserId { api_key } && act == LoginAction::GetUserId(api_key)
            } else {
                ends_with_message(post, act, "API key verification failed"@)
            }
        },
        (LoginStage::FetchingUserId { api_key }, LoginEvent::UserIdFetched(Err(e))) => ends_with(post, act, e),
        (LoginStage::FetchingUserId { api_key }, LoginEvent::UserIdFetched(Ok(u))) => {
            if u.status@ == "success"@ {
                post.stage == LoginStage::FetchingDetails { api_key }
                    && act == LoginAction::GetUserDetails(api_key, u.retrieved_id.unwrap())
            } else {
                ends_with_message(post, act, "Failed to get user ID"@)
            }
        },
        (LoginStage::FetchingDetails { api_key }, LoginEvent::DetailsFetched(Err(e))) => ends_with(post, act, e),
        (LoginStage::FetchingDetails { api_key }, LoginEvent::DetailsFetched(Ok(d))) => {
            if d.Username is Some {
                post.stage == LoginStage::FetchingConfig { api_key, details: d } && act == LoginAction::GetApiConfig(api_key)
            } else {
                ends_with_message(post, act, "Failed to get user details"@)
            }
        },
        (LoginStage::FetchingConfig { api_key, details }, LoginEvent::ConfigFetched(Err(e))) => ends_with(post, act, e),
        (LoginStage::FetchingConfig { api_key, details }, LoginEvent::ConfigFetched(Ok(cfg))) => {
            if cfg.api_url is Some {
                post.stage is Finished && act == LoginAction::Finish(Ok((
                    details,
                    LoginServerRequest {
                        server_name: pre.server_name,
                        username: pre.username,
                        password: pre.password,
                        api_key: Some(api_key),
                    },
                    cfg,
                )))
            } else {
                ends_with_message(post, act, "Failed to get server details"@)
            }
        },
        _ => false,
    }
}

impl LoginFlow {
    /// Begins a login to `server_name` as `username`. The first thing to do is
    /// the instance check.
    pub fn start(server_name: String, username: String, password: String) -> (r: (LoginFlow, LoginAction))
        requires
            username@.len() + password@.len() < usize::MAX / 8,
        ensures
            r.0.server_name == server_name,
            r.0.username == username,
            r.0.password == password,
            r.0.auth_header@ == "Basic "@ + standard_base64(vstd::utf8::encode_utf8(credentials_text(username@, password@))),
            r.0.stage is CheckingInstance,
            r.1 is CheckInstance,
    {
        let auth_header = basic_auth_header(username.as_str(), password.as_str());
        (
            LoginFlow { server_name, username, password, auth_header, stage: LoginStage::CheckingInstance },
            LoginAction::CheckInstance,
        )
    }

    /// Whether the flow can take `ev` now (see `admits`).
    pub fn admits(&self, ev: &LoginEvent) -> (b: bool)
        ensures
            b == admits(self.stage, *ev),
    {
        let success = String::from_str("success");
        match (&self.stage, ev) {
            (LoginStage::CheckingInstance, LoginEvent::InstanceChecked(_)) => true,
            (LoginStage::FetchingKey, LoginEvent::KeyStatus(_)) => true,
            (LoginStage::ReadingKey, LoginEvent::KeyBody(_)) => true,
            (LoginStage::VerifyingKey { .. }, LoginEvent::KeyVerified(_)) => true,
            (LoginStage::FetchingUserId { .. }, LoginEvent::UserIdFetched(r)) => match r {
                Ok(u) => !(u.status == success) || u.retrieved_id.is_some(),
                Err(_) => true,
            },
            (LoginStage::FetchingDetails { .. }, LoginEvent::DetailsFetched(_)) => true,
            (LoginStage::FetchingConfig { .. }, LoginEvent::ConfigFetched(_)) => true,
            _ => false,
        }
    }

    /// Takes the outcome of the last action and says what to do next.
    pub fn advance(&mut self, ev: LoginEvent) -> (act: LoginAction)
        requires
            admits(old(self).stage, ev),
        ensures
            transition(*old(self), ev, *final(self), act),
    {
        let mut stage = LoginStage::Finished;
        core::mem::swap(&mut stage, &mut self.stage);
        let success = String::from_str("success");
        match (stage, ev) {
            (LoginStage::CheckingInstance, LoginEvent::InstanceChecked(Err(e))) => LoginAction::Finish(Err(e)),
            (LoginStage::CheckingInstance, LoginEvent::InstanceChecked(Ok(c))) => {
                if c.pinepods_instance.unwrap_or(false) {
                    let mut headers: Vec<(String, String)> = Vec::new();
                    headers.push(header("Authorization", self.auth_header.as_str()));
                    assert(pairs_view(headers@) =~= seq![("Authorization"@, self.auth_header@)]);
                    let req = HttpRequest {
                        method: HttpMethod::Get,
                        url: join2(self.server_name.as_str(), "/api/data/get_key"),
                        headers,
                    };
                    self.stage = LoginStage::FetchingKey;
                    LoginAction::SendKeyRequest(req)
                } else {
                    LoginAction::Finish(Err(request_error("Pinepods instance not found at specified server")))
                }
            },
            (LoginStage::FetchingKey, LoginEvent::KeyStatus(Err(e))) => LoginAction::Finish(Err(e)),
            (LoginStage::FetchingKey, LoginEvent::KeyStatus(Ok(ok))) => {
                if ok {
                    self.stage = LoginStage::ReadingKey;
                    LoginAction::ReadKeyBody
                } else {
                    LoginAction::Finish(Err(request_error("Failed to authenticate user. Incorrect credentials?")))
                }
            },
            (LoginStage::ReadingKey, LoginEvent::KeyBody(Err(e))) => LoginAction::Finish(Err(e)),
            (LoginStage::ReadingKey, LoginEvent::KeyBody(Ok(k))) => {
                let api_key = k.retrieved_key;
                let for_call = api_key.clone();
                self.stage = LoginStage::VerifyingKey { api_key };
                LoginAction::VerifyKey(for_call)
            },
            (LoginStage::VerifyingKey { api_key: _ }, LoginEvent::KeyVerified(Err(e))) => LoginAction::Finish(Err(e)),
            (LoginStage::VerifyingKey { api_key }, LoginEvent::KeyVerified(Ok(v))) => {
                if v.status == success {
                    let for_call = api_key.clone();
                    self.stage = LoginStage::FetchingUserId { api_key };
                    LoginAction::GetUserId(for_call)
                } else {
                    LoginAction::Finish(Err(request_error("API key verification failed")))
                }
            },
            (LoginStage::FetchingUserId { api_key: _ }, LoginEvent::UserIdFetched(Err(e))) => LoginAction::Finish(Err(e)),
            (LoginStage::FetchingUserId { api_key }, LoginEvent::UserIdFetched(Ok(u))) => {
                if u.status == success {
                    let user_id = u.retrieved_id.unwrap();
                    let for_call = api_key.clone();
                    self.stage = LoginStage::FetchingDetails { api_key };
                    LoginAction::GetUserDetails(for_call, user_id)
                } else {
                    LoginAction::Finish(Err(request_error("Failed to get user ID")))
                }
            },
            (LoginStage::FetchingDetails { api_key: _ }, LoginEvent::DetailsFetched(Err(e))) => LoginAction::Finish(Err(e)),
            (LoginStage::FetchingDetails { api_key }, LoginEvent::DetailsFetched(Ok(d))) => {
                if d.Username.is_some() {
                    let for_call = api_key.clone();
                    self.stage = LoginStage::FetchingConfig { api_key, details: d };
                    LoginAction::GetApiConfig(for_call)
                } else {
                    LoginAction::Finish(Err(request_error("Failed to get user details")))
                }
            },
            (LoginStage::FetchingConfig { api_key: _, details: _ }, LoginEvent::ConfigFetched(Err(e))) => LoginAction::Finish(Err(e)),
            (LoginStage::FetchingConfig { api_key, details }, LoginEvent::ConfigFetched(Ok(cfg))) => {
                if cfg.api_url.is_some() {
                    let record = LoginServerRequest {
                        server_name: self.server_name.clone(),
                        username: self.username.clone(),
                        password: self.password.clone(),
                        api_key: Some(api_key),
                    };
                    LoginAction::Finish(Ok((details, record, cfg)))
                } else {
                    LoginAction::Finish(Err(request_error("Failed to get server details")))
                }
            },
            (_, _) => {
                proof {
                    assert(false);
                }
                LoginAction::CheckInstance
            },
        }
    }
}


/// `flows[0]` took `events` one by one: `flows[i]` admitted `events[i]`, became
/// `flows[i + 1]` and asked for `actions[i]`.
pub open spec fn is_run(flows: Seq<LoginFlow>, events: Seq<LoginEvent>, actions: Seq<LoginAction>) -> bool {
    &&& flows.len() == events.len() + 1
    &&& actions.len() == events.len()
    &&& forall|i: int|
        #![trigger events[i]]
        0 <= i < events.len() ==> admits(flows[i].stage, events[i]) && transition(flows[i], events[i], flows[i + 1], actions[i])
}

/// The outcome carried by a successful `Finish` action.
pub open spec fn finished_outcome(act: LoginAction) -> LoginOutcome
    recommends
        act matches LoginAction::Finish(Ok(_)),
{
    match act {
        LoginAction::Finish(Ok(o)) => o,
        _ => arbitrary(),
    }
}

/// A step that does not end the flow moves it to the next stage.
proof fn lemma_step_rank(pre: LoginFlow, ev: LoginEvent, post: LoginFlow, act: LoginAction)
    requires
        admits(pre.stage, ev),
        transition(pre, ev, post, act),
    ensures
        stage_rank(pre.stage) < 7,
        post.stage is Finished || stage_rank(post.stage) == stage_rank(pre.stage) + 1,
        !(act is Finish) ==> stage_rank(post.stage) == stage_rank(pre.stage) + 1,
        act is Finish ==> post.stage is Finished,
{
}

/// In a run from a fresh flow, the `i`-th event finds the flow at stage `i`.
proof fn lemma_run_ranks(flows: Seq<LoginFlow>, events: Seq<LoginEvent>, actions: Seq<LoginAction>, i: int)
    requires
        is_run(flows, events, actions),
        flows[0].stage is CheckingInstance,
        0 <= i < events.len(),
    ensures
        stage_rank(flows[i].stage) == i,
        forall|j: int| 0 <= j < i ==> !(#[trigger] actions[j] is Finish),
    decreases i,
{
    if i > 0 {
        lemma_run_ranks(flows, events, actions, i - 1);
        assert(admits(flows[i - 1].stage, events[i - 1]));
        assert(admits(flows[i].stage, events[i]));
        lemma_step_rank(flows[i - 1], events[i - 1], flows[i], actions[i - 1]);
    }
}

/// A login ends in success only after all seven steps succeeded in order: the
/// server is a Pinepods instance, the key request was accepted, the key was
/// verified, the user id was found, the user has a name and the server has an
/// API URL. The outcome holds the fetched details and configuration, and the
/// login record holds the server, user name and password the login began with,
/// with the key that the key reply returned; every call after the key reply
/// was made with that key.
pub proof fn lemma_login_success(flows: Seq<LoginFlow>, events: Seq<LoginEvent>, actions: Seq<LoginAction>)
    requires
        is_run(flows, events, actions),
        flows[0].stage is CheckingInstance,
        events.len() > 0,
        actions.last() matches LoginAction::Finish(Ok(_)),
    ensures
        events.len() == 7,
        events[0] matches LoginEvent::InstanceChecked(Ok(c)) && c.pinepods_instance == Some(true),
        events[1] matches LoginEvent::KeyStatus(Ok(ok)) && ok,
        events[2] matches LoginEvent::KeyBody(Ok(k)) && {
            &&& finished_outcome(actions[6]).1 == (LoginServerRequest {
                server_name: flows[0].server_name,
                username: flows[0].username,
                password: flows[0].password,
                api_key: Some(k.retrieved_key),
            })
            &&& actions[2] == LoginAction::VerifyKey(k.retrieved_key)
            &&& actions[3] == LoginAction::GetUserId(k.retrieved_key)
            &&& actions[4] matches LoginAction::GetUserDetails(key, _) && key == k.retrieved_key
            &&& actions[5] == LoginAction::GetApiConfig(k.retrieved_key)
        },
        events[3] matches LoginEvent::KeyVerified(Ok(v)) && v.status@ == "success"@,
        events[4] matches LoginEvent::UserIdFetched(Ok(u)) && u.status@ == "success"@
            && actions[4] == LoginAction::GetUserDetails(k_of(events[2]), u.retrieved_id.unwrap()),
        events[5] matches LoginEvent::DetailsFetched(Ok(d)) && d.Username is Some
            && finished_outcome(actions[6]).0 == d,
        events[6] matches LoginEvent::ConfigFetched(Ok(cfg)) && cfg.api_url is Some
            && finished_outcome(actions[6]).2 == cfg,
{
    let n: int = events.len() as int;
    lemma_run_ranks(flows, events, actions, n - 1);
    assert(admits(flows[n - 1].stage, events[n - 1]));
    assert(transition(flows[n - 1], events[n - 1], flows[n], actions[n - 1]));
    assert(n == 7);
    assert forall|i: int| 0 <= i < 7 implies stage_rank(#[trigger] flows[i].stage) == i by {
        lemma_run_ranks(flows, events, actions, i);
    }
    assert(admits(flows[0].stage, events[0]) && transition(flows[0], events[0], flows[1], actions[0]));
    assert(admits(flows[1].stage, events[1]) && transition(flows[1], events[1], flows[2], actions[1]));
    assert(admits(flows[2].stage, events[2]) && transition(flows[2], events[2], flows[3], actions[2]));
    assert(admits(flows[3].stage, events[3]) && transition(flows[3], events[3], flows[4], actions[3]));
    assert(admits(flows[4].stage, events[4]) && transition(flows[4], events[4], flows[5], actions[4]));
    assert(admits(flows[5].stage, events[5]) && transition(flows[5], events[5], flows[6], actions[5]));
    assert(admits(flows[6].stage, events[6]) && transition(flows[6], events[6], flows[7], actions[6]));
}

/// A login takes at most seven steps, and only its last step can end it: no
/// action before the last one is `Finish`.
pub proof fn lemma_login_bounded(flows: Seq<LoginFlow>, events: Seq<LoginEvent>, actions: Seq<LoginAction>)
    requires
        is_run(flows, events, actions),
        flows[0].stage is CheckingInstance,
    ensures
        events.len() <= 7,
        forall|j: int| 0 <= j < events.len() - 1 ==> !(#[trigger] actions[j] is Finish),
{
    let n: int = events.len() as int;
    if n > 0 {
        lemma_run_ranks(flows, events, actions, n - 1);
        assert(admits(flows[n - 1].stage, events[n - 1]));
        lemma_step_rank(flows[n - 1], events[n - 1], flows[n], actions[n - 1]);
    }
}

/// Every step of a login admits a failed reply of the call it waits for, and
/// taking that reply ends the login, reporting that very error.
pub proof fn lemma_failed_reply_ends_login(pre: LoginFlow, e: RequestError, post: LoginFlow, act: LoginAction)
    ensures
        pre.stage is CheckingInstance ==> admits(pre.stage, LoginEvent::InstanceChecked(Err(e)))
            && (transition(pre, LoginEvent::InstanceChecked(Err(e)), post, act)
                ==> post.stage is Finished && act == LoginAction::Finish(Err(e))),
        pre.stage is FetchingKey ==> admits(pre.stage, LoginEvent::KeyStatus(Err(e)))
            && (transition(pre, LoginEvent::KeyStatus(Err(e)), post, act)
                ==> post.stage is Finished && act == LoginAction::Finish(Err(e))),
        pre.stage is ReadingKey ==> admits(pre.stage, LoginEvent::KeyBody(Err(e)))
            && (transition(pre, LoginEvent::KeyBody(Err(e)), post, act)
                ==> post.stage is Finished && act == LoginAction::Finish(Err(e))),
        pre.stage is VerifyingKey ==> admits(pre.stage, LoginEvent::KeyVerified(Err(e)))
            && (transition(pre, LoginEvent::KeyVerified(Err(e)), post, act)
                ==> post.stage is Finished && act == LoginAction::Finish(Err(e))),
        pre.stage is FetchingUserId ==> admits(pre.stage, LoginEvent::UserIdFetched(Err(e)))
            && (transition(pre, LoginEvent::UserIdFetched(Err(e)), post, act)
                ==> post.stage is Finished && act == LoginAction::Finish(Err(e))),
        pre.stage is FetchingDetails ==> admits(pre.stage, LoginEvent::DetailsFetched(Err(e)))
            && (transition(pre, LoginEvent::DetailsFetched(Err(e)), post, act)
                ==> post.stage is Finished && act == LoginAction::Finish(Err(e))),
        pre.stage is FetchingConfig ==> admits(pre.stage, LoginEvent::ConfigFetched(Err(e)))
            && (transition(pre, LoginEvent::ConfigFetched(Err(e)), post, act)
                ==> post.stage is Finished && act == LoginAction::Finish(Err(e))),
{
}

/// The key that a key-body event carries.
pub open spec fn k_of(ev: LoginEvent) -> String {
    match ev {
        LoginEvent::KeyBody(Ok(k)) => k.retrieved_key,
        _ => arbitrary(),
    }
}

} // verus!
