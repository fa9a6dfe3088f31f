use tpcli::failure::Failure;
use tpcli::presence::{AccountType, Presence};
use tpcli::publish::{
    authentication, availability_request, check_status, client_identification, endpoint_uri,
    message_request, publish_outcome, quoted, Availability, Header, HttpRequest, PublishNote,
};
use tpcli::time::UtcInstant;

fn header(name: &str, value: &str) -> Header {
    Header { name: name.to_string(), value: value.to_string() }
}

fn year_2030() -> UtcInstant {
    UtcInstant::new(1_893_456_000, 0).unwrap()
}

const STATES: [Presence; 6] = [
    Presence::Available,
    Presence::Busy,
    Presence::DoNotDisturb,
    Presence::BeRightBack,
    Presence::Away,
    Presence::Offline,
];

#[test]
fn offline_names_the_activity_off_work() {
    let payload = Availability::new(Presence::Offline, None);
    assert_eq!(payload.activity, Some("OffWork".to_string()));
    assert_eq!(payload.to_json(), r#"{"availability":"Offline","activity":"OffWork"}"#);
    let timed = Availability::new(Presence::Offline, Some(year_2030()));
    assert_eq!(timed.activity, Some("OffWork".to_string()));
    assert_eq!(
        timed.to_json(),
        r#"{"availability":"Offline","activity":"OffWork","desiredExpirationTime":"2030-01-01T00:00:00.000Z"}"#
    );
}

#[test]
fn other_states_name_no_activity() {
    for presence in STATES {
        if presence == Presence::Offline {
            continue;
        }
        let payload = Availability::new(presence, None);
        assert_eq!(payload.availability, presence);
        assert_eq!(payload.activity, None);
        assert!(!payload.to_json().contains("activity"));
        let request = availability_request("t", AccountType::Live, presence, Some(year_2030()));
        assert!(!request.body.contains("activity"));
    }
}

#[test]
fn availability_body_of_each_state() {
    let body = |presence| availability_request("t", AccountType::Microsoft, presence, None).body;
    assert_eq!(body(Presence::Available), r#"{"availability":"Available"}"#);
    assert_eq!(body(Presence::Busy), r#"{"availability":"Busy"}"#);
    assert_eq!(body(Presence::DoNotDisturb), r#"{"availability":"DoNotDisturb"}"#);
    assert_eq!(body(Presence::BeRightBack), r#"{"availability":"BeRightBack"}"#);
    assert_eq!(body(Presence::Away), r#"{"availability":"Away"}"#);
    assert_eq!(body(Presence::Offline), r#"{"availability":"Offline","activity":"OffWork"}"#);
    assert_eq!(body(Presence::Reset), "");
}

#[test]
fn reset_has_an_empty_body_and_content_length_zero() {
    for account in [AccountType::Microsoft, AccountType::Live] {
        for expiration in [None, Some(year_2030())] {
            let request = availability_request("tok", account, Presence::Reset, expiration);
            assert_eq!(request.body, "");
            assert!(request.headers.contains(&header("Content-Length", "0")));
            assert!(request.headers.iter().all(|h| h.name != "Content-Type"));
        }
    }
}

#[test]
fn states_have_a_json_body_and_say_so() {
    for presence in STATES {
        let request = availability_request("tok", AccountType::Live, presence, None);
        assert!(!request.body.is_empty());
        assert!(request.headers.contains(&header("Content-Type", "application/json")));
        assert!(request.headers.iter().all(|h| h.name != "Content-Length"));
    }
}

#[test]
fn availability_request_for_a_work_account() {
    assert_eq!(
        availability_request("abc", AccountType::Microsoft, Presence::Busy, None),
        HttpRequest {
            uri: "https://presence.teams.microsoft.com/v1/me/forceavailability/".to_string(),
            headers: vec![
                header("x-ms-client-consumer-type", "teams4life"),
                header("Authorization", "Bearer abc"),
                header("Content-Type", "application/json"),
            ],
            body: r#"{"availability":"Busy"}"#.to_string(),
        }
    );
}

#[test]
fn availability_request_for_a_personal_account() {
    assert_eq!(
        availability_request("abc", AccountType::Live, Presence::Reset, None),
        HttpRequest {
            uri: "https://presence.teams.live.com/v1/me/forceavailability/".to_string(),
            headers: vec![
                header("x-ms-client-consumer-type", "teams4life"),
                header("x-skypetoken", "abc"),
                header("Content-Length", "0"),
            ],
            body: String::new(),
        }
    );
}

#[test]
fn message_request_for_each_account_kind() {
    assert_eq!(
        message_request("abc", AccountType::Microsoft, Some("hi"), false, None),
        HttpRequest {
            uri: "https://presence.teams.microsoft.com/v1/me/publishnote".to_string(),
            headers: vec![
                header("x-ms-client-consumer-type", "teams4life"),
                header("Content-Type", "application/json"),
                header("Authorization", "Bearer abc"),
            ],
            body: r#"{"message":"hi","expiry":"9999-12-31T05:00:00.000Z"}"#.to_string(),
        }
    );
    assert_eq!(
        message_request("abc", AccountType::Live, None, false, Some(year_2030())),
        HttpRequest {
            uri: "https://presence.teams.live.com/v1/me/publishnote".to_string(),
            headers: vec![
                header("x-ms-client-consumer-type", "teams4life"),
                header("Content-Type", "application/json"),
                header("x-skypetoken", "abc"),
            ],
            body: r#"{"message":"","expiry":"2030-01-01T00:00:00.000Z"}"#.to_string(),
        }
    );
}

#[test]
fn message_without_expiration_uses_the_far_future() {
    for message in [None, Some("x")] {
        for pin in [false, true] {
            let note = PublishNote::new(message, pin, None);
            assert_eq!(note.expiry, "9999-12-31T05:00:00.000Z");
            let request = message_request("t", AccountType::Live, message, pin, None);
            assert!(request.body.ends_with(r#","expiry":"9999-12-31T05:00:00.000Z"}"#));
        }
    }
}

#[test]
fn message_with_expiration_uses_it() {
    let note = PublishNote::new(Some("x"), false, Some(year_2030()));
    assert_eq!(note.expiry, "2030-01-01T00:00:00.000Z");
    assert_eq!(note.to_json(), r#"{"message":"x","expiry":"2030-01-01T00:00:00.000Z"}"#);
}

#[test]
fn pinned_message_ends_with_the_marker() {
    let note = PublishNote::new(Some("back soon"), true, None);
    assert_eq!(note.message, "back soon<pinnednote></pinnednote>");
    assert_eq!(
        message_request("t", AccountType::Microsoft, Some("back soon"), true, None).body,
        r#"{"message":"back soon<pinnednote></pinnednote>","expiry":"9999-12-31T05:00:00.000Z"}"#
    );
    assert_eq!(PublishNote::new(Some("back soon"), false, None).message, "back soon");
    assert_eq!(PublishNote::new(Some(""), true, None).message, "<pinnednote></pinnednote>");
}

#[test]
fn absent_message_is_empty_even_when_pinned() {
    assert_eq!(PublishNote::new(None, true, None).message, "");
    assert_eq!(PublishNote::new(None, false, None).message, "");
}

#[test]
fn message_is_written_as_a_json_string() {
    assert_eq!(quoted("plain"), r#""plain""#);
    assert_eq!(quoted(""), r#""""#);
    assert_eq!(quoted("say \"hi\"\\\n"), r#""say \"hi\"\\\n""#);
    assert_eq!(quoted("caf\u{e9} \u{1}"), "\"caf\u{e9} \\u0001\"");
    let body = message_request("t", AccountType::Live, Some("a\"b"), false, None).body;
    assert_eq!(body, r#"{"message":"a\"b","expiry":"9999-12-31T05:00:00.000Z"}"#);
    let parsed: serde_json::Value = serde_json::from_str(&body).unwrap();
    assert_eq!(parsed["message"].as_str(), Some("a\"b"));
}

#[test]
fn absolute_expiration_is_written_into_the_availability_body() {
    let request =
        availability_request("t", AccountType::Microsoft, Presence::Away, Some(year_2030()));
    assert!(request.body.contains(r#""desiredExpirationTime":"2030-01-01T00:00:00.000Z""#));
    assert_eq!(
        request.body,
        r#"{"availability":"Away","desiredExpirationTime":"2030-01-01T00:00:00.000Z"}"#
    );
}

#[test]
fn pieces_of_a_request() {
    assert_eq!(
        endpoint_uri(AccountType::Live, "/v1/me/publishnote"),
        "https://presence.teams.live.com/v1/me/publishnote"
    );
    assert_eq!(client_identification(), header("x-ms-client-consumer-type", "teams4life"));
    assert_eq!(authentication("x y", AccountType::Microsoft), header("Authorization", "Bearer x y"));
    assert_eq!(authentication("", AccountType::Live), header("x-skypetoken", ""));
}

#[test]
fn only_status_200_is_a_success() {
    assert_eq!(check_status(200), Ok(()));
    for status in [0, 100, 199, 201, 204, 301, 400, 401, 404, 500, u16::MAX] {
        assert_eq!(check_status(status), Err(Failure::UnexpectedStatus));
    }
}

#[test]
fn a_pass_succeeds_only_if_both_requests_do() {
    let transport = Err(Failure::HttpTransportFailure);
    assert_eq!(publish_outcome(Ok(200), Ok(200)), Ok(()));
    assert_eq!(publish_outcome(Ok(200), Ok(500)), Err(Failure::UnexpectedStatus));
    assert_eq!(publish_outcome(Ok(401), Ok(200)), Err(Failure::UnexpectedStatus));
    assert_eq!(publish_outcome(Ok(200), transport), Err(Failure::HttpTransportFailure));
    assert_eq!(publish_outcome(transport, Ok(200)), Err(Failure::HttpTransportFailure));
    assert_eq!(publish_outcome(transport, Ok(500)), Err(Failure::HttpTransportFailure));
    assert_eq!(publish_outcome(Ok(500), transport), Err(Failure::UnexpectedStatus));
}
