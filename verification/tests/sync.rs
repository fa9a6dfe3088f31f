use tpcli::cookie::{select_cookie_token, CookieVariant};
use tpcli::failure::Failure;
use tpcli::paths::StoreLocation;
use tpcli::presence::{AccountType, InstanceType, Presence};
use tpcli::publish::PresenceRequest;
use tpcli::store::select_store_tokens;
use tpcli::sync::{
    cookie_variant, credential_source, pick_store_token, plan_from_candidates, plan_pass,
    reset_request, store_location, Action, Event, Orchestrator, Phase,
};
use tpcli::time::UtcInstant;
use tpcli::token::{PresenceToken, SourceKind, TokenRecord};

fn request(presence: Presence) -> PresenceRequest {
    PresenceRequest { presence, message: None, pin: false, expiration: None }
}

fn record(value: &str, expires_at: u64) -> TokenRecord {
    TokenRecord { value: value.to_string(), expires_at, source_kind: SourceKind::AuthCookie }
}

#[test]
fn set_busy_with_one_presence_record() {
    let now = 1_700_000_000;
    let scanned =
        vec![PresenceToken { token: "tok".to_string(), expiration: now + 3600 }.into_record()];
    let tokens = select_store_tokens(scanned, Vec::new(), now);
    let token = pick_store_token(tokens, AccountType::Microsoft).unwrap();
    let plan = plan_pass(&token, AccountType::Microsoft, &request(Presence::Busy));
    assert_eq!(plan.availability.body, r#"{"availability":"Busy"}"#);
    assert_eq!(plan.message.body, r#"{"message":"","expiry":"9999-12-31T05:00:00.000Z"}"#);
    let (mut run, first) = Orchestrator::start(&request(Presence::Busy));
    assert_eq!(first, Action::PublishRequest);
    assert_eq!(run.step(Event::PassSucceeded), Action::AwaitOperator);
    assert_eq!(run.phase(), Phase::Waiting);
}

#[test]
fn offline_with_pinned_message() {
    let asked = PresenceRequest {
        presence: Presence::Offline,
        message: Some("back soon".to_string()),
        pin: true,
        expiration: None,
    };
    let plan = plan_pass(&record("tok", 10), AccountType::Live, &asked);
    let body: serde_json::Value = serde_json::from_str(&plan.message.body).unwrap();
    assert_eq!(body["message"].as_str(), Some("back soon<pinnednote></pinnednote>"));
    assert_eq!(plan.availability.body, r#"{"availability":"Offline","activity":"OffWork"}"#);
}

#[test]
fn absolute_expiration_ends_after_the_first_pass() {
    let asked = PresenceRequest {
        presence: Presence::Away,
        message: None,
        pin: false,
        expiration: UtcInstant::new(1_893_456_000, 0),
    };
    let plan = plan_pass(&record("tok", 10), AccountType::Microsoft, &asked);
    assert!(plan.availability.body.contains(r#""desiredExpirationTime":"2030-01-01T00:00:00.000Z""#));
    assert_eq!(plan.message.body, r#"{"message":"","expiry":"2030-01-01T00:00:00.000Z"}"#);
    let (mut run, first) = Orchestrator::start(&asked);
    assert_eq!(first, Action::PublishRequest);
    assert_eq!(run.phase(), Phase::Setting);
    assert_eq!(run.step(Event::PassSucceeded), Action::Finish);
    assert_eq!(run.phase(), Phase::Done);
    assert_eq!(run.step(Event::OperatorSignal), Action::Ignore);
    assert_eq!(run.phase(), Phase::Done);
}

#[test]
fn no_live_record_anywhere_means_no_valid_token_and_no_request() {
    let now = 1_700_000_000;
    let tokens = select_store_tokens(Vec::new(), Vec::new(), now);
    assert_eq!(pick_store_token(tokens, AccountType::Microsoft), Err(Failure::NoValidToken));
    assert_eq!(
        select_cookie_token(CookieVariant::AuthToken, &Vec::new(), now),
        Err(Failure::NoValidToken)
    );
    assert_eq!(
        plan_from_candidates(Vec::new(), now, AccountType::Microsoft, &request(Presence::Busy)),
        Err(Failure::NoValidToken)
    );
    assert_eq!(
        plan_from_candidates(
            vec![record("old", now), record("older", 5)],
            now,
            AccountType::Live,
            &request(Presence::Busy)
        ),
        Err(Failure::NoValidToken)
    );
    let (mut run, _) = Orchestrator::start(&request(Presence::Busy));
    assert_eq!(run.step(Event::PassFailed(Failure::NoValidToken)), Action::Abort(Failure::NoValidToken));
    assert_eq!(run.phase(), Phase::Failed(Failure::NoValidToken));
}

#[test]
fn both_requests_of_a_pass_carry_the_selected_credential() {
    let candidates = vec![record("stale", 5), record("fresh", 500), record("mid", 50)];
    let plan =
        plan_from_candidates(candidates, 10, AccountType::Microsoft, &request(Presence::Busy))
            .unwrap();
    assert_eq!(plan.availability.headers[1].value, "Bearer fresh");
    assert_eq!(plan.message.headers[2].value, "Bearer fresh");
    assert_eq!(plan, plan_pass(&record("fresh", 500), AccountType::Microsoft, &request(Presence::Busy)));
}

#[test]
fn untimed_run_sets_waits_and_resets() {
    let (mut run, first) = Orchestrator::start(&request(Presence::DoNotDisturb));
    assert_eq!(first, Action::PublishRequest);
    assert_eq!(run.step(Event::OperatorSignal), Action::Ignore);
    assert_eq!(run.phase(), Phase::Setting);
    assert_eq!(run.step(Event::PassSucceeded), Action::AwaitOperator);
    assert_eq!(run.step(Event::PassSucceeded), Action::Ignore);
    assert_eq!(run.step(Event::PassFailed(Failure::UnexpectedStatus)), Action::Ignore);
    assert_eq!(run.phase(), Phase::Waiting);
    assert_eq!(run.step(Event::OperatorSignal), Action::PublishReset);
    assert_eq!(run.phase(), Phase::Resetting);
    assert_eq!(run.step(Event::OperatorSignal), Action::Ignore);
    assert_eq!(run.step(Event::PassSucceeded), Action::Finish);
    assert_eq!(run.phase(), Phase::Done);
    assert_eq!(run.step(Event::PassSucceeded), Action::Ignore);
}

#[test]
fn failed_reset_aborts() {
    let (mut run, _) = Orchestrator::start(&request(Presence::Busy));
    run.step(Event::PassSucceeded);
    run.step(Event::OperatorSignal);
    assert_eq!(
        run.step(Event::PassFailed(Failure::HttpTransportFailure)),
        Action::Abort(Failure::HttpTransportFailure)
    );
    assert_eq!(run.phase(), Phase::Failed(Failure::HttpTransportFailure));
    assert_eq!(run.step(Event::OperatorSignal), Action::Ignore);
    assert_eq!(run.phase(), Phase::Failed(Failure::HttpTransportFailure));
}

#[test]
fn reset_asks_for_nothing_but_reset() {
    assert_eq!(reset_request(), request(Presence::Reset));
    let plan = plan_pass(&record("tok", 10), AccountType::Live, &reset_request());
    assert_eq!(plan.availability.body, "");
    assert_eq!(plan.message.body, r#"{"message":"","expiry":"9999-12-31T05:00:00.000Z"}"#);
}

#[test]
fn source_follows_application_and_account() {
    let source = credential_source(InstanceType::TeamsApp, AccountType::Microsoft);
    assert_eq!(source, SourceKind::AuthCookie);
    assert_eq!(store_location(source), StoreLocation::TeamsCookies { partition: false });
    assert_eq!(cookie_variant(source), Some(CookieVariant::AuthToken));
    let source = credential_source(InstanceType::TeamsApp, AccountType::Live);
    assert_eq!(source, SourceKind::AppCookie);
    assert_eq!(store_location(source), StoreLocation::TeamsCookies { partition: true });
    assert_eq!(cookie_variant(source), Some(CookieVariant::SessionToken));
    let source = credential_source(InstanceType::Chrome, AccountType::Microsoft);
    assert_eq!(source, SourceKind::PresenceCache);
    assert_eq!(store_location(source), StoreLocation::ChromeLevelDb);
    assert_eq!(cookie_variant(source), None);
    let source = credential_source(InstanceType::Chrome, AccountType::Live);
    assert_eq!(source, SourceKind::SkypeCache);
    assert_eq!(store_location(source), StoreLocation::ChromeLevelDb);
    assert_eq!(cookie_variant(source), None);
}

#[test]
fn every_failure_of_a_pass_aborts_with_it() {
    for failure in [
        Failure::StoreCopyFailure,
        Failure::StoreOpenFailure,
        Failure::MalformedRecord,
        Failure::NoValidToken,
        Failure::HttpTransportFailure,
        Failure::UnexpectedStatus,
        Failure::ArgumentParseFailure,
    ] {
        let (mut run, _) = Orchestrator::start(&request(Presence::Away));
        assert_eq!(run.step(Event::PassFailed(failure)), Action::Abort(failure));
        assert_eq!(run.phase(), Phase::Failed(failure));
    }
}
