use oidc_pages::{
    step, Action, CallbackConfig, CallbackData, CallbackParams, Event, JsonValue, KeyInfo,
    LoginState, Outcome, Rejection, SessionData, Stage, User,
};

fn s(x: &str) -> String {
    x.to_string()
}

fn config() -> CallbackConfig {
    CallbackConfig {
        client_id: s("pages"),
        roles_path: vec![s("resource_access"), s("pages"), s("roles")],
    }
}

fn logging_in() -> SessionData {
    let mut session = SessionData::new();
    session.begin_login(LoginState {
        pkce_verifier: s("verifier"),
        csrf_token: s("csrf"),
        nonce: s("nonce"),
    });
    session
}

fn code_params(state: &str) -> CallbackParams {
    CallbackParams {
        iss: s("https://issuer.example"),
        state: s(state),
        data: CallbackData::Code { code: s("the-code"), session_state: s("ss") },
    }
}

fn claims(roles: JsonValue) -> JsonValue {
    JsonValue::Object(vec![(
        s("resource_access"),
        JsonValue::Object(vec![(s("pages"), JsonValue::Object(vec![(s("roles"), roles)]))]),
    )])
}

fn empty() -> SessionData {
    SessionData::new()
}

/// Runs the flow up to the access-token check, asserting each action.
fn up_to_access_token(session: &mut SessionData, email: Option<&str>) -> Stage {
    let cfg = config();
    let (st, act) = step(&cfg, Stage::Start, Event::Params(code_params("csrf")), session);
    assert_eq!(act, Action::ExchangeCode { code: s("the-code"), pkce_verifier: s("verifier") });
    assert_eq!(st, Stage::ExchangingCode { nonce: s("nonce") });
    let (st, act) = step(&cfg, st, Event::Tokens { has_id_token: true }, session);
    assert_eq!(act, Action::VerifyIdToken { nonce: s("nonce") });
    let (st, act) = step(
        &cfg,
        st,
        Event::IdTokenClaims { email: email.map(s), access_token_hash: Some(s("hash")) },
        session,
    );
    assert_eq!(act, Action::HashAccessToken);
    let (st, act) = step(&cfg, st, Event::AccessTokenHash(s("hash")), session);
    assert_eq!(act, Action::ResolveKey);
    let keys = vec![
        KeyInfo { key_id: None, supported: true },
        KeyInfo { key_id: Some(s("k1")), supported: true },
        KeyInfo { key_id: Some(s("k2")), supported: true },
    ];
    let (st, act) = step(&cfg, st, Event::Keys { key_id: Some(s("k2")), keys }, session);
    assert_eq!(act, Action::VerifyAccessToken { key_index: 2, audience: s("pages") });
    st
}

#[test]
fn successful_callback_stores_user() {
    let mut session = logging_in();
    let st = up_to_access_token(&mut session, Some("a@b.c"));
    let roles = JsonValue::Array(vec![JsonValue::Str(s("docs"))]);
    let (st, act) = step(&config(), st, Event::AccessTokenClaims(claims(roles)), &mut session);
    assert_eq!(st, Stage::Done(Outcome::Authenticated));
    assert_eq!(act, Action::Respond(Outcome::Authenticated));
    assert_eq!(Outcome::Authenticated.status(), 307);
    assert_eq!(session.user, Some(User { email: s("a@b.c"), roles: vec![s("docs")] }));
    assert_eq!(session.pkce_verifier, None);
    assert_eq!(session.csrf_token, None);
    assert_eq!(session.nonce, None);
}

#[test]
fn csrf_mismatch_is_unauthorized_and_clears_login() {
    let mut session = logging_in();
    let (st, act) = step(&config(), Stage::Start, Event::Params(code_params("forged")), &mut session);
    let expected = Outcome::Rejected(Rejection::CsrfMismatch);
    assert_eq!(act, Action::Respond(expected));
    assert_eq!(st, Stage::Done(Outcome::Rejected(Rejection::CsrfMismatch)));
    assert_eq!(Outcome::Rejected(Rejection::CsrfMismatch).status(), 401);
    assert_eq!(session, empty());
    assert_eq!(session.take_login_state(), None);
}

#[test]
fn replayed_callback_finds_no_login() {
    let mut session = logging_in();
    let st = up_to_access_token(&mut session, Some("a@b.c"));
    let roles = JsonValue::Array(vec![JsonValue::Str(s("docs"))]);
    let (st, _) = step(&config(), st, Event::AccessTokenClaims(claims(roles)), &mut session);
    assert_eq!(st, Stage::Done(Outcome::Authenticated));
    let (st, act) = step(&config(), Stage::Start, Event::Params(code_params("csrf")), &mut session);
    assert_eq!(st, Stage::Done(Outcome::NoLoginInProgress));
    assert_eq!(act, Action::Respond(Outcome::NoLoginInProgress));
    assert_eq!(Outcome::NoLoginInProgress.status(), 400);
    assert_eq!(session, empty());
}

#[test]
fn substituted_access_token_is_rejected() {
    let mut session = logging_in();
    let cfg = config();
    let (st, _) = step(&cfg, Stage::Start, Event::Params(code_params("csrf")), &mut session);
    let (st, _) = step(&cfg, st, Event::Tokens { has_id_token: true }, &mut session);
    let (st, _) = step(
        &cfg,
        st,
        Event::IdTokenClaims { email: Some(s("a@b.c")), access_token_hash: Some(s("expected")) },
        &mut session,
    );
    let (st, act) = step(&cfg, st, Event::AccessTokenHash(s("other")), &mut session);
    assert_eq!(st, Stage::Done(Outcome::Rejected(Rejection::AccessTokenHash)));
    assert_eq!(act, Action::Respond(Outcome::Rejected(Rejection::AccessTokenHash)));
    assert_eq!(session, empty());
}

#[test]
fn provider_error_is_bad_request() {
    let mut session = logging_in();
    let params = CallbackParams {
        iss: s("https://issuer.example"),
        state: s("csrf"),
        data: CallbackData::Error { error: s("access_denied"), error_description: s("no") },
    };
    let (st, _) = step(&config(), Stage::Start, Event::Params(params), &mut session);
    let o = Outcome::ProviderError { error: s("access_denied"), description: s("no") };
    assert_eq!(o.status(), 400);
    assert_eq!(st, Stage::Done(o));
    assert_eq!(session, empty());
}

#[test]
fn missing_id_token_is_rejected() {
    let mut session = logging_in();
    let cfg = config();
    let (st, _) = step(&cfg, Stage::Start, Event::Params(code_params("csrf")), &mut session);
    let (st, _) = step(&cfg, st, Event::Tokens { has_id_token: false }, &mut session);
    assert_eq!(st, Stage::Done(Outcome::Rejected(Rejection::MissingIdToken)));
}

#[test]
fn failed_token_request_is_rejected() {
    let mut session = logging_in();
    let cfg = config();
    let (st, _) = step(&cfg, Stage::Start, Event::Params(code_params("csrf")), &mut session);
    let (st, _) = step(&cfg, st, Event::Failed, &mut session);
    assert_eq!(st, Stage::Done(Outcome::Rejected(Rejection::TokenExchange)));
    assert_eq!(session, empty());
}

#[test]
fn no_hash_claim_skips_to_key_resolution() {
    let mut session = logging_in();
    let cfg = config();
    let (st, _) = step(&cfg, Stage::Start, Event::Params(code_params("csrf")), &mut session);
    let (st, _) = step(&cfg, st, Event::Tokens { has_id_token: true }, &mut session);
    let (st, act) = step(
        &cfg,
        st,
        Event::IdTokenClaims { email: Some(s("a@b.c")), access_token_hash: None },
        &mut session,
    );
    assert_eq!(act, Action::ResolveKey);
    assert_eq!(st, Stage::ResolvingKey { email: Some(s("a@b.c")) });
}

#[test]
fn key_problems_are_rejected() {
    let cfg = config();
    let email = Some(s("a@b.c"));
    let keys = || vec![KeyInfo { key_id: Some(s("k1")), supported: false }];
    let mut session = empty();
    let (st, _) = step(&cfg, Stage::ResolvingKey { email: email.clone() }, Event::Keys { key_id: None, keys: keys() }, &mut session);
    assert_eq!(st, Stage::Done(Outcome::Rejected(Rejection::MissingKeyId)));
    let (st, _) = step(&cfg, Stage::ResolvingKey { email: email.clone() }, Event::Keys { key_id: Some(s("k9")), keys: keys() }, &mut session);
    assert_eq!(st, Stage::Done(Outcome::Rejected(Rejection::UnknownKey)));
    let (st, _) = step(&cfg, Stage::ResolvingKey { email: email.clone() }, Event::Keys { key_id: Some(s("k1")), keys: keys() }, &mut session);
    assert_eq!(st, Stage::Done(Outcome::Rejected(Rejection::UnsupportedKey)));
    let (st, _) = step(&cfg, Stage::ResolvingKey { email }, Event::Failed, &mut session);
    assert_eq!(st, Stage::Done(Outcome::Rejected(Rejection::KeyResolution)));
}

#[test]
fn claim_problems_are_rejected() {
    let cfg = config();
    let mut session = logging_in();
    let roles = || JsonValue::Array(vec![JsonValue::Str(s("docs"))]);
    let (st, _) = step(&cfg, Stage::VerifyingAccessToken { email: None }, Event::AccessTokenClaims(claims(roles())), &mut session);
    assert_eq!(st, Stage::Done(Outcome::Rejected(Rejection::MissingEmail)));
    assert_eq!(session, empty());
    let email = Some(s("a@b.c"));
    let (st, _) = step(&cfg, Stage::VerifyingAccessToken { email: email.clone() }, Event::AccessTokenClaims(JsonValue::Object(vec![])), &mut session);
    assert_eq!(st, Stage::Done(Outcome::Rejected(Rejection::MissingRoles)));
    let bad = JsonValue::Array(vec![JsonValue::Num(s("7"))]);
    let (st, _) = step(&cfg, Stage::VerifyingAccessToken { email }, Event::AccessTokenClaims(claims(bad)), &mut session);
    assert_eq!(st, Stage::Done(Outcome::Rejected(Rejection::RolesNotStrings)));
    assert_eq!(session.user, None);
}

#[test]
fn infrastructure_failure_is_internal_error() {
    let mut session = logging_in();
    let (st, act) = step(&config(), Stage::VerifyingIdToken, Event::InternalFailure, &mut session);
    assert_eq!(st, Stage::Done(Outcome::InternalError));
    assert_eq!(act, Action::Respond(Outcome::InternalError));
    assert_eq!(Outcome::InternalError.status(), 500);
    assert_eq!(session, empty());
}

#[test]
fn finished_flow_stays_finished() {
    let mut session = logging_in();
    let (st, act) = step(&config(), Stage::Done(Outcome::NoLoginInProgress), Event::Failed, &mut session);
    assert_eq!(st, Stage::Done(Outcome::NoLoginInProgress));
    assert_eq!(act, Action::Respond(Outcome::NoLoginInProgress));
    assert_eq!(session, logging_in());
}

#[test]
fn partial_login_state_is_not_a_login() {
    let mut session = logging_in();
    session.nonce = None;
    assert_eq!(session.take_login_state(), None);
    assert_eq!(session.pkce_verifier, None);
    assert_eq!(session.csrf_token, None);
    let mut session = logging_in();
    assert_eq!(
        session.take_login_state(),
        Some(LoginState { pkce_verifier: s("verifier"), csrf_token: s("csrf"), nonce: s("nonce") })
    );
    assert_eq!(session.take_login_state(), None);
}
