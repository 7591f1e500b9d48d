//! The login callback: a state machine that decides, step by step, what to
//! verify next and how the flow ends. The outside work of each step (the
//! token request, signature checks, fetching the provider's keys) is done by
//! the caller, which reports its result as an event.

use vstd::prelude::*;
use subtle::ConstantTimeEq;
use crate::json::{JsonValue, value_at, is_string_array, holds_strings, value_at_path, to_string_array};
use crate::session::{LoginState, SessionData, User};

verus! {

/// The query of a callback: either an error reported by the provider, or
/// an authorization code.
#[derive(Debug, PartialEq)]
pub enum CallbackData {
    Error { error: String, error_description: String },
    Code { code: String, session_state: String },
}

/// All parameters of a callback request.
#[derive(Debug, PartialEq)]
pub struct CallbackParams {
    pub iss: String,
    pub state: String,
    pub data: CallbackData,
}

/// One key of the provider's key set, as far as key selection needs it.
#[derive(Debug, PartialEq)]
pub struct KeyInfo {
    pub key_id: Option<String>,
    pub supported: bool,
}

/// The settings that the callback checks depend on.
#[derive(Debug, PartialEq)]
pub struct CallbackConfig {
    pub client_id: String,
    pub roles_path: Vec<String>,
}

/// Why a callback was refused after its login state was found.
#[derive(Debug, Clone, Copy, PartialEq, Eq, Structural)]
pub enum Rejection {
    CsrfMismatch,
    TokenExchange,
    MissingIdToken,
    IdToken,
    AccessTokenHash,
    KeyResolution,
    MissingKeyId,
    UnknownKey,
    UnsupportedKey,
    AccessToken,
    MissingEmail,
    MissingRoles,
    RolesNotStrings,
}

/// How a callback ends.
#[derive(Debug, PartialEq)]
pub enum Outcome {
    Authenticated,
    ProviderError { error: String, description: String },
    NoLoginInProgress,
    Rejected(Rejection),
    InternalError,
}

/// Where a callback stands.
#[derive(Debug, PartialEq)]
pub enum Stage {
    Start,
    ExchangingCode { nonce: String },
    VerifyingIdToken,
    CheckingAccessTokenHash { email: Option<String>, expected: String },
    ResolvingKey { email: Option<String> },
    VerifyingAccessToken { email: Option<String> },
    Done(Outcome),
}

/// What the caller reports back after doing the work of an action.
#[derive(Debug, PartialEq)]
pub enum Event {
    /// The callback request arrived with these parameters.
    Params(CallbackParams),
    /// The token request succeeded.
    Tokens { has_id_token: bool },
    /// The ID token's signature and nonce were verified; these are its claims.
    IdTokenClaims { email: Option<String>, access_token_hash: Option<String> },
    /// The hash of the returned access token, computed with the ID token's algorithm.
    AccessTokenHash(String),
    /// The access token's key id, and the provider's key set.
    Keys { key_id: Option<String>, keys: Vec<KeyInfo> },
    /// The access token's signature and audience were verified; this is its payload.
    AccessTokenClaims(JsonValue),
    /// The outside work of the current step failed.
    Failed,
    /// Session storage or the HTTP client failed.
    InternalFailure,
}

/// What the caller is to do next.
#[derive(Debug, PartialEq)]
pub enum Action {
    ExchangeCode { code: String, pkce_verifier: String },
    VerifyIdToken { nonce: String },
    HashAccessToken,
    ResolveKey,
    VerifyAccessToken { key_index: usize, audience: String },
    Respond(Outcome),
}

/// The HTTP status that ends a callback with `o`.
pub open spec fn status_of(o: Outcome) -> u16 {
    match o {
        Outcome::Authenticated => 307,
        Outcome::ProviderError { .. } => 400,
        Outcome::NoLoginInProgress => 400,
        Outcome::Rejected(_) => 401,
        Outcome::InternalError => 500,
    }
}

/// How a step ends when its outside work fails or an unexpected event comes.
pub open spec fn failure_of(stage: Stage) -> Outcome {
    match stage {
        Stage::Start => Outcome::NoLoginInProgress,
        Stage::ExchangingCode { .. } => Outcome::Rejected(Rejection::TokenExchange),
        Stage::VerifyingIdToken => Outcome::Rejected(Rejection::IdToken),
        Stage::CheckingAccessTokenHash { .. } => Outcome::Rejected(Rejection::AccessTokenHash),
        Stage::ResolvingKey { .. } => Outcome::Rejected(Rejection::KeyResolution),
        Stage::VerifyingAccessToken { .. } => Outcome::Rejected(Rejection::AccessToken),
        Stage::Done(_) => Outcome::InternalError,
    }
}

/// The key id of `key` is `kid`.
pub open spec fn key_matches(key: KeyInfo, kid: Seq<char>) -> bool {
    key.key_id matches Some(k) && k@ == kid
}

/// The index of the first key from index `i` on whose key id is `kid`.
pub open spec fn find_key_from(keys: Seq<KeyInfo>, kid: Seq<char>, i: int) -> Option<int>
    decreases keys.len() - i,
{
    if i < 0 || i >= keys.len() {
        None
    } else if key_matches(keys[i], kid) {
        Some(i)
    } else {
        find_key_from(keys, kid, i + 1)
    }
}

/// A key found from index `i` on lies within `keys`, at `i` or after.
pub proof fn lemma_find_key_in_range(keys: Seq<KeyInfo>, kid: Seq<char>, i: int)
    ensures
        find_key_from(keys, kid, i) matches Some(j) ==> i <= j < keys.len() && 0 <= j,
    decreases keys.len() - i,
{
    if 0 <= i < keys.len() && !key_matches(keys[i], kid) {
        lemma_find_key_in_range(keys, kid, i + 1);
    }
}

/// The flow ends with `o`: nothing is left in the session.
pub open spec fn ends_with(o: Outcome, next: Stage, action: Action, after: SessionData) -> bool {
    &&& next == Stage::Done(o)
    &&& action == Action::Respond(o)
    &&& after.is_empty()
}

/// The flow moves on to `stage` with `action`; the session is unchanged.
pub open spec fn moves_to(
    stage: Stage,
    act: Action,
    before: SessionData,
    next: Stage,
    action: Action,
    after: SessionData,
) -> bool {
    next == stage && action == act && after == before
}

/// The step from `stage` on `event`, with `before` the session at its start,
/// ends at `next` with `action` and leaves the session as `after`.
pub open spec fn transition(
    config: CallbackConfig,
    stage: Stage,
    event: Event,
    before: SessionData,
    next: Stage,
    action: Action,
    after: SessionData,
) -> bool {
    match stage {
        Stage::Done(o) => next == stage && action == Action::Respond(o) && after == before,
        _ => match event {
            Event::InternalFailure => ends_with(Outcome::InternalError, next, action, after),
            _ => match (stage, event) {
                (Stage::Start, Event::Params(p)) => match p.data {
                    CallbackData::Error { error, error_description } => ends_with(
                        Outcome::ProviderError { error, description: error_description },
                        next,
                        action,
                        after,
                    ),
                    CallbackData::Code { code, .. } => match before.login_state() {
                        None => ends_with(Outcome::NoLoginInProgress, next, action, after),
                        Some(login) => if login.csrf_token@ != p.state@ {
                            ends_with(Outcome::Rejected(Rejection::CsrfMismatch), next, action, after)
                        } else {
                            &&& next == Stage::ExchangingCode { nonce: login.nonce }
                            &&& action == Action::ExchangeCode { code, pkce_verifier: login.pkce_verifier }
                            &&& after == SessionData {
                                pkce_verifier: None,
                                csrf_token: None,
                                nonce: None,
                                user: before.user,
                            }
                        },
                    },
                },
                (Stage::ExchangingCode { nonce }, Event::Tokens { has_id_token }) => if has_id_token {
                    moves_to(Stage::VerifyingIdToken, Action::VerifyIdToken { nonce }, before, next, action, after)
                } else {
                    ends_with(Outcome::Rejected(Rejection::MissingIdToken), next, action, after)
                },
                (Stage::VerifyingIdToken, Event::IdTokenClaims { email, access_token_hash }) => match access_token_hash {
                    Some(expected) => moves_to(
                        Stage::CheckingAccessTokenHash { email, expected },
                        Action::HashAccessToken,
                        before,
                        next,
                        action,
                        after,
                    ),
                    None => moves_to(Stage::ResolvingKey { email }, Action::ResolveKey, before, next, action, after),
                },
                (Stage::CheckingAccessTokenHash { email, expected }, Event::AccessTokenHash(actual)) => if actual@ == expected@ {
                    moves_to(Stage::ResolvingKey { email }, Action::ResolveKey, before, next, action, after)
                } else {
                    ends_with(Outcome::Rejected(Rejection::AccessTokenHash), next, action, after)
                },
                (Stage::ResolvingKey { email }, Event::Keys { key_id, keys }) => match key_id {
                    None => ends_with(Outcome::Rejected(Rejection::MissingKeyId), next, action, after),
                    Some(kid) => match find_key_from(keys@, kid@, 0) {
                        None => ends_with(Outcome::Rejected(Rejection::UnknownKey), next, action, after),
                        Some(i) => if keys@[i].supported {
                            moves_to(
                                Stage::VerifyingAccessToken { email },
                                Action::VerifyAccessToken { key_index: i as usize, audience: config.client_id },
                                before,
                                next,
                                action,
                                after,
                            )
                        } else {
                            ends_with(Outcome::Rejected(Rejection::UnsupportedKey), next, action, after)
                        },
                    },
                },
                (Stage::VerifyingAccessToken { email }, Event::AccessTokenClaims(claims)) => match email {
                    None => ends_with(Outcome::Rejected(Rejection::MissingEmail), next, action, after),
                    Some(e) => match value_at(claims, config.roles_path@) {
                        None => ends_with(Outcome::Rejected(Rejection::MissingRoles), next, action, after),
                        Some(v) => if is_string_array(v) {
                            &&& next == Stage::Done(Outcome::Authenticated)
                            &&& action == Action::Respond(Outcome::Authenticated)
                            &&& after.pkce_verifier == before.pkce_verifier
                            &&& after.csrf_token == before.csrf_token
                            &&& after.nonce == before.nonce
                            &&& after.user matches Some(u) && u.email == e && holds_strings(v, u.roles@)
                        } else {
                            ends_with(Outcome::Rejected(Rejection::RolesNotStrings), next, action, after)
                        },
                    },
                },
                _ => ends_with(failure_of(stage), next, action, after),
            },
        },
    }
}

/// Relies on subtle's `ConstantTimeEq` for byte slices, which is true
/// exactly when both slices have the same length and the same bytes; the
/// bytes of two strings are equal exactly when the strings are.
#[verifier::external_body]
fn constant_time_eq(a: &str, b: &str) -> (r: bool)
    ensures
        r == (a@ == b@),
{
    bool::from(a.as_bytes().ct_eq(b.as_bytes()))
}

impl Outcome {
    /// The HTTP status of the response that ends a callback this way.
    pub fn status(&self) -> (r: u16)
        ensures
            r == status_of(*self),
    {
        match self {
            Outcome::Authenticated => 307,
            Outcome::ProviderError { .. } => 400,
            Outcome::NoLoginInProgress => 400,
            Outcome::Rejected(_) => 401,
            Outcome::InternalError => 500,
        }
    }

    /// A copy of this outcome.
    pub fn duplicate(&self) -> (r: Outcome)
        ensures
            r == *self,
    {
        match self {
            Outcome::Authenticated => Outcome::Authenticated,
            Outcome::ProviderError { error, description } => Outcome::ProviderError {
                error: error.clone(),
                description: description.clone(),
            },
            Outcome::NoLoginInProgress => Outcome::NoLoginInProgress,
            Outcome::Rejected(r) => Outcome::Rejected(*r),
            Outcome::InternalError => Outcome::InternalError,
        }
    }
}

/// Ends the flow with `o`, clearing the whole session.
fn finish(o: Outcome, session: &mut SessionData) -> (r: (Stage, Action))
    ensures
        ends_with(o, r.0, r.1, *final(session)),
{
    session.clear();
    let a = Action::Respond(o.duplicate());
    (Stage::Done(o), a)
}

/// How a step of `stage` ends when its outside work fails.
fn stage_failure(stage: &Stage) -> (o: Outcome)
    ensures
        o == failure_of(*stage),
{
    match stage {
        Stage::Start => Outcome::NoLoginInProgress,
        Stage::ExchangingCode { .. } => Outcome::Rejected(Rejection::TokenExchange),
        Stage::VerifyingIdToken => Outcome::Rejected(Rejection::IdToken),
        Stage::CheckingAccessTokenHash { .. } => Outcome::Rejected(Rejection::AccessTokenHash),
        Stage::ResolvingKey { .. } => Outcome::Rejected(Rejection::KeyResolution),
        Stage::VerifyingAccessToken { .. } => Outcome::Rejected(Rejection::AccessToken),
        Stage::Done(_) => Outcome::InternalError,
    }
}

/// The index of the first key in `keys` whose key id is `kid`.
pub fn find_key(keys: &Vec<KeyInfo>, kid: &String) -> (r: Option<usize>)
    ensures
        match r {
            Some(i) => find_key_from(keys@, kid@, 0) == Some(i as int),
            None => find_key_from(keys@, kid@, 0) is None,
        },
{
    let mut i: usize = 0;
    while i < keys.len()
        invariant
            i <= keys@.len(),
            find_key_from(keys@, kid@, 0) == find_key_from(keys@, kid@, i as int),
        decreases keys@.len() - i,
    {
        proof {
            lemma_find_key_in_range(keys@, kid@, i as int);
        }
        match &keys[i].key_id {
            Some(k) => {
                if *k == *kid {
                    return Some(i);
                }
            },
            None => {},
        }
        i = i + 1;
    }
    None
}

/// The first step: checks the callback parameters against the login in
/// progress, which is taken out of the session whatever comes of it.
fn start(config: &CallbackConfig, params: CallbackParams, session: &mut SessionData) -> (r: (
    Stage,
    Action,
))
    ensures
        transition(
            *config,
            Stage::Start,
            Event::Params(params),
            *old(session),
            r.0,
            r.1,
            *final(session),
        ),
{
    let CallbackParams { iss, state, data } = params;
    let code = match data {
        CallbackData::Error { error, error_description } => {
            return finish(Outcome::ProviderError { error, description: error_description }, session);
        },
        CallbackData::Code { code, session_state } => code,
    };
    let login: LoginState = match session.take_login_state() {
        Some(login) => login,
        None => {
            return finish(Outcome::NoLoginInProgress, session);
        },
    };
    if !constant_time_eq(login.csrf_token.as_str(), state.as_str()) {
        return finish(Outcome::Rejected(Rejection::CsrfMismatch), session);
    }
    let LoginState { pkce_verifier, csrf_token, nonce } = login;
    (Stage::ExchangingCode { nonce }, Action::ExchangeCode { code, pkce_verifier })
}

/// The last step: builds the user from the verified claims and stores it.
fn establish(
    config: &CallbackConfig,
    email: Option<String>,
    claims: JsonValue,
    session: &mut SessionData,
) -> (r: (Stage, Action))
    ensures
        transition(
            *config,
            Stage::VerifyingAccessToken { email },
            Event::AccessTokenClaims(claims),
            *old(session),
            r.0,
            r.1,
            *final(session),
        ),
{
    let email = match email {
        Some(e) => e,
        None => {
            return finish(Outcome::Rejected(Rejection::MissingEmail), session);
        },
    };
    let roles = match value_at_path(&claims, config.roles_path.as_slice()) {
        Some(v) => match to_string_array(v) {
            Some(roles) => roles,
            None => {
                return finish(Outcome::Rejected(Rejection::RolesNotStrings), session);
            },
        },
        None => {
            return finish(Outcome::Rejected(Rejection::MissingRoles), session);
        },
    };
    session.set_user(User { email, roles });
    (Stage::Done(Outcome::Authenticated), Action::Respond(Outcome::Authenticated))
}

/// Decides one step of the callback: given where the flow stands and what
/// the caller reports, returns where it stands next and what the caller is
/// to do. Every ending other than success leaves the session empty.
pub fn step(config: &CallbackConfig, stage: Stage, event: Event, session: &mut SessionData) -> (r: (
    Stage,
    Action,
))
    ensures
        transition(*config, stage, event, *old(session), r.0, r.1, *final(session)),
{
    if let Stage::Done(o) = stage {
        let a = Action::Respond(o.duplicate());
        return (Stage::Done(o), a);
    }
    if let Event::InternalFailure = event {
        return finish(Outcome::InternalError, session);
    }
    let failure = stage_failure(&stage);
    match stage {
        Stage::Start => match event {
            Event::Params(p) => start(config, p, session),
            _ => finish(failure, session),
        },
        Stage::ExchangingCode { nonce } => match event {
            Event::Tokens { has_id_token } => {
                if has_id_token {
                    (Stage::VerifyingIdToken, Action::VerifyIdToken { nonce })
                } else {
                    finish(Outcome::Rejected(Rejection::MissingIdToken), session)
                }
            },
            _ => finish(failure, session),
        },
        Stage::VerifyingIdToken => match event {
            Event::IdTokenClaims { email, access_token_hash } => match access_token_hash {
                Some(expected) => (
                    Stage::CheckingAccessTokenHash { email, expected },
                    Action::HashAccessToken,
                ),
                None => (Stage::ResolvingKey { email }, Action::ResolveKey),
            },
            _ => finish(failure, session),
        },
        Stage::CheckingAccessTokenHash { email, expected } => match event {
            Event::AccessTokenHash(actual) => {
                if constant_time_eq(actual.as_str(), expected.as_str()) {
                    (Stage::ResolvingKey { email }, Action::ResolveKey)
                } else {
                    finish(Outcome::Rejected(Rejection::AccessTokenHash), session)
                }
            },
            _ => finish(failure, session),
        },
        Stage::ResolvingKey { email } => match event {
            Event::Keys { key_id, keys } => match key_id {
                None => finish(Outcome::Rejected(Rejection::MissingKeyId), session),
                Some(kid) => match find_key(&keys, &kid) {
                    None => finish(Outcome::Rejected(Rejection::UnknownKey), session),
                    Some(i) => {
                        proof {
                            lemma_find_key_in_range(keys@, kid@, 0);
                        }
                        if keys[i].supported {
                            (
                                Stage::VerifyingAccessToken { email },
                                Action::VerifyAccessToken {
                                    key_index: i,
                                    audience: config.client_id.clone(),
                                },
                            )
                        } else {
                            finish(Outcome::Rejected(Rejection::UnsupportedKey), session)
                        }
                    },
                },
            },
            _ => finish(failure, session),
        },
        Stage::VerifyingAccessToken { email } => match event {
            Event::AccessTokenClaims(claims) => establish(config, email, claims, session),
            _ => finish(failure, session),
        },
        Stage::Done(o) => finish(failure, session),
    }
}

/// Every step that ends the flow other than by success leaves the session
/// empty.
pub proof fn failure_clears_session(
    config: CallbackConfig,
    stage: Stage,
    event: Event,
    before: SessionData,
    next: Stage,
    action: Action,
    after: SessionData,
)
    requires
        transition(config, stage, event, before, next, action, after),
        !(stage is Done),
        next matches Stage::Done(o) && o != Outcome::Authenticated,
    ensures
        after.is_empty(),
{
}

/// A callback whose `state` differs from the stored CSRF token ends with a
/// 401, and no login field is left in the session.
pub proof fn csrf_mismatch_rejected(
    config: CallbackConfig,
    params: CallbackParams,
    before: SessionData,
    next: Stage,
    action: Action,
    after: SessionData,
)
    requires
        params.data is Code,
        before.login_state() matches Some(login) && login.csrf_token@ != params.state@,
        transition(config, Stage::Start, Event::Params(params), before, next, action, after),
    ensures
        next == Stage::Done(Outcome::Rejected(Rejection::CsrfMismatch)),
        status_of(next->Done_0) == 401,
        after.has_no_login_fields(),
{
}

/// The first step of a callback always consumes the login in progress.
pub proof fn callback_consumes_login(
    config: CallbackConfig,
    params: CallbackParams,
    before: SessionData,
    next: Stage,
    action: Action,
    after: SessionData,
)
    requires
        transition(config, Stage::Start, Event::Params(params), before, next, action, after),
    ensures
        after.has_no_login_fields(),
{
}

/// No step brings login fields back into a session that has none.
pub proof fn steps_keep_login_absent(
    config: CallbackConfig,
    stage: Stage,
    event: Event,
    before: SessionData,
    next: Stage,
    action: Action,
    after: SessionData,
)
    requires
        before.has_no_login_fields(),
        transition(config, stage, event, before, next, action, after),
    ensures
        after.has_no_login_fields(),
{
}

/// A callback that arrives when no login is in progress, such as a second
/// use of a callback whose first use consumed the login, ends with a 400
/// "no login in progress".
pub proof fn replayed_callback_finds_no_login(
    config: CallbackConfig,
    params: CallbackParams,
    before: SessionData,
    next: Stage,
    action: Action,
    after: SessionData,
)
    requires
        params.data is Code,
        before.has_no_login_fields(),
        transition(config, Stage::Start, Event::Params(params), before, next, action, after),
    ensures
        next == Stage::Done(Outcome::NoLoginInProgress),
        status_of(next->Done_0) == 400,
        after.is_empty(),
{
}

/// An access token whose hash differs from the ID token's access-token-hash
/// claim ends the flow with a 401 and an empty session.
pub proof fn substituted_access_token_rejected(
    config: CallbackConfig,
    email: Option<String>,
    expected: String,
    actual: String,
    before: SessionData,
    next: Stage,
    action: Action,
    after: SessionData,
)
    requires
        actual@ != expected@,
        transition(
            config,
            Stage::CheckingAccessTokenHash { email, expected },
            Event::AccessTokenHash(actual),
            before,
            next,
            action,
            after,
        ),
    ensures
        next == Stage::Done(Outcome::Rejected(Rejection::AccessTokenHash)),
        status_of(next->Done_0) == 401,
        after.is_empty(),
{
}

} // verus!
