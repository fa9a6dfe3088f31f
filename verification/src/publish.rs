//! The two requests that make one presence update: what each says and
//! where it goes. Sending them is left to the caller.

use vstd::prelude::*;
use crate::failure::Failure;
use crate::outside::{json_string, json_string_text};
use crate::presence::{AccountType, Presence};
use crate::text::{string_of, text_of};
use crate::time::{far_future, UtcInstant};

verus! {

/// What the user asked for in one pass.
#[derive(Clone, Debug, PartialEq, Eq)]
pub struct PresenceRequest {
    pub presence: Presence,
    pub message: Option<String>,
    pub pin: bool,
    pub expiration: Option<UtcInstant>,
}

/// The payload of the availability request.
#[derive(Clone, Debug, PartialEq, Eq)]
pub struct Availability {
    pub availability: Presence,
    pub activity: Option<String>,
    pub desired_expiration_time: Option<UtcInstant>,
}

/// The payload of the message request.
#[derive(Clone, Debug, PartialEq, Eq)]
pub struct PublishNote {
    pub message: String,
    pub expiry: String,
}

/// One header of a request.
#[derive(Clone, Debug, PartialEq, Eq)]
pub struct Header {
    pub name: String,
    pub value: String,
}

/// A request to the service. Every request is a `PUT`.
#[derive(Clone, Debug, PartialEq, Eq)]
pub struct HttpRequest {
    pub uri: String,
    pub headers: Vec<Header>,
    pub body: String,
}

/// A request as plain text: where it goes, its headers in order, each a
/// name and a value, and its body.
pub ghost struct RequestModel {
    pub uri: Seq<char>,
    pub headers: Seq<(Seq<char>, Seq<char>)>,
    pub body: Seq<char>,
}

impl View for Header {
    type V = (Seq<char>, Seq<char>);

    open spec fn view(&self) -> (Seq<char>, Seq<char>) {
        (self.name@, self.value@)
    }
}

impl View for HttpRequest {
    type V = RequestModel;

    open spec fn view(&self) -> RequestModel {
        RequestModel {
            uri: self.uri@,
            headers: self.headers@.map_values(|h: Header| h@),
            body: self.body@,
        }
    }
}

/// The activity that goes with a presence state: `OffWork` with
/// `Offline`, and none with any other.
pub open spec fn activity_for(presence: Presence) -> Option<Seq<char>> {
    if presence == Presence::Offline {
        Some("OffWork"@)
    } else {
        None
    }
}

/// The JSON object of an availability payload: `availability` always,
/// `activity` and `desiredExpirationTime` where there is one.
pub open spec fn availability_json(
    presence: Presence,
    activity: Option<Seq<char>>,
    expiration: Option<Seq<char>>,
) -> Seq<char> {
    "{\"availability\":"@ + json_string_text(presence.wire_name()) + match activity {
        Some(activity) => ",\"activity\":"@ + json_string_text(activity),
        None => Seq::empty(),
    } + match expiration {
        Some(expiration) => ",\"desiredExpirationTime\":"@ + json_string_text(expiration),
        None => Seq::empty(),
    } + "}"@
}

/// The text of an optional instant.
pub open spec fn instant_text(expiration: Option<UtcInstant>) -> Option<Seq<char>> {
    match expiration {
        Some(t) => Some(t.rfc3339()),
        None => None,
    }
}

/// The body of the availability request: nothing for `Reset`, and the
/// JSON object for every other state.
pub open spec fn availability_body(presence: Presence, expiration: Option<UtcInstant>) -> Seq<char> {
    if presence == Presence::Reset {
        Seq::empty()
    } else {
        availability_json(presence, activity_for(presence), instant_text(expiration))
    }
}

/// The text that is shown as the status message: the user's message,
/// followed by the pin marker where the message is to be pinned, and the
/// empty text where the user gave none.
pub open spec fn note_message(message: Option<Seq<char>>, pin: bool) -> Seq<char> {
    match message {
        Some(message) => if pin {
            message + "<pinnednote></pinnednote>"@
        } else {
            message
        },
        None => Seq::empty(),
    }
}

/// The expiry of a status message: the instant the user gave, and the far
/// future where the user gave none.
pub open spec fn note_expiry(expiration: Option<UtcInstant>) -> Seq<char> {
    match expiration {
        Some(t) => t.rfc3339(),
        None => far_future(),
    }
}

/// The JSON object of a message payload.
pub open spec fn note_json(message: Seq<char>, expiry: Seq<char>) -> Seq<char> {
    "{\"message\":"@ + json_string_text(message) + ",\"expiry\":"@ + json_string_text(expiry)
        + "}"@
}

/// The address of one of the service's endpoints for an account kind.
pub open spec fn endpoint(account: AccountType, path: Seq<char>) -> Seq<char> {
    "https://presence.teams."@ + account.host() + ".com"@ + path
}

/// The header that names this client to the service.
pub open spec fn client_header() -> (Seq<char>, Seq<char>) {
    ("x-ms-client-consumer-type"@, "teams4life"@)
}

/// The header that carries the credential: a bearer authorization for one
/// kind of account, a header of its own for the other.
pub open spec fn credential_header(token: Seq<char>, account: AccountType) -> (
    Seq<char>,
    Seq<char>,
) {
    match account {
        AccountType::Microsoft => ("Authorization"@, "Bearer "@ + token),
        AccountType::Live => ("x-skypetoken"@, token),
    }
}

/// The header that says what the body is: JSON, or nothing at all.
pub open spec fn content_header(body: Seq<char>) -> (Seq<char>, Seq<char>) {
    if body.len() == 0 {
        ("Content-Length"@, "0"@)
    } else {
        ("Content-Type"@, "application/json"@)
    }
}

/// The availability request of a pass.
pub open spec fn availability_request_model(
    token: Seq<char>,
    account: AccountType,
    presence: Presence,
    expiration: Option<UtcInstant>,
) -> RequestModel {
    let body = availability_body(presence, expiration);
    RequestModel {
        uri: endpoint(account, "/v1/me/forceavailability/"@),
        headers: seq![client_header(), credential_header(token, account), content_header(body)],
        body,
    }
}

/// The message request of a pass.
pub open spec fn message_request_model(
    token: Seq<char>,
    account: AccountType,
    message: Option<Seq<char>>,
    pin: bool,
    expiration: Option<UtcInstant>,
) -> RequestModel {
    RequestModel {
        uri: endpoint(account, "/v1/me/publishnote"@),
        headers: seq![
            client_header(),
            ("Content-Type"@, "application/json"@),
            credential_header(token, account),
        ],
        body: note_json(note_message(message, pin), note_expiry(expiration)),
    }
}

/// The availability body is empty for `Reset` and for no other state.
pub proof fn lemma_body_empty_only_for_reset(presence: Presence, expiration: Option<UtcInstant>)
    ensures
        availability_body(presence, expiration).len() == 0 <==> presence == Presence::Reset,
{
    reveal_strlit("{\"availability\":");
}

/// The availability body names the activity `OffWork` for `Offline`, and
/// has no `activity` member for any other state that has a body.
pub proof fn lemma_activity_only_for_offline(presence: Presence, expiration: Option<UtcInstant>)
    requires
        presence != Presence::Reset,
    ensures
        presence == Presence::Offline ==> availability_body(presence, expiration)
            == availability_json(presence, Some("OffWork"@), instant_text(expiration)),
        presence != Presence::Offline ==> availability_body(presence, expiration)
            == availability_json(presence, None, instant_text(expiration)),
{
}

/// A message request that was built without an expiration carries the
/// far future as its expiry, whatever the message.
pub proof fn lemma_expiry_defaults_to_far_future(
    token: Seq<char>,
    account: AccountType,
    message: Option<Seq<char>>,
    pin: bool,
)
    ensures
        note_expiry(None) == "9999-12-31T05:00:00.000Z"@,
        message_request_model(token, account, message, pin, None).body == note_json(
            note_message(message, pin),
            "9999-12-31T05:00:00.000Z"@,
        ),
{
}

/// Both requests of a pass carry the same credential, in the same header.
pub proof fn lemma_one_credential_for_both(
    token: Seq<char>,
    account: AccountType,
    presence: Presence,
    message: Option<Seq<char>>,
    pin: bool,
    expiration: Option<UtcInstant>,
)
    ensures
        availability_request_model(token, account, presence, expiration).headers.contains(
            credential_header(token, account),
        ),
        message_request_model(token, account, message, pin, expiration).headers.contains(
            credential_header(token, account),
        ),
{
}

/// The request that resets the presence has no body, says so with
/// `Content-Length: 0`, and has no `Content-Type` header.
pub proof fn lemma_reset_request_shape(
    token: Seq<char>,
    account: AccountType,
    expiration: Option<UtcInstant>,
)
    ensures
        ({
            let request = availability_request_model(token, account, Presence::Reset, expiration);
            &&& request.body == Seq::<char>::empty()
            &&& request.headers.contains(("Content-Length"@, "0"@))
            &&& forall|i: int|
                0 <= i < request.headers.len() ==> (#[trigger] request.headers[i]).0
                    != "Content-Type"@
        }),
{
    reveal_strlit("Content-Type");
    reveal_strlit("Content-Length");
    reveal_strlit("x-ms-client-consumer-type");
    reveal_strlit("Authorization");
    reveal_strlit("x-skypetoken");
    assert("Content-Type"@.len() == 12);
    assert("x-skypetoken"@[0] != "Content-Type"@[0]);
}

/// Every other availability request has a body, says with `Content-Type`
/// that it is JSON, and has no `Content-Length` header.
pub proof fn lemma_state_request_shape(
    token: Seq<char>,
    account: AccountType,
    presence: Presence,
    expiration: Option<UtcInstant>,
)
    requires
        presence != Presence::Reset,
    ensures
        ({
            let request = availability_request_model(token, account, presence, expiration);
            &&& request.body.len() > 0
            &&& request.headers.contains(("Content-Type"@, "application/json"@))
            &&& forall|i: int|
                0 <= i < request.headers.len() ==> (#[trigger] request.headers[i]).0
                    != "Content-Length"@
        }),
{
    lemma_body_empty_only_for_reset(presence, expiration);
    reveal_strlit("Content-Type");
    reveal_strlit("Content-Length");
    reveal_strlit("x-ms-client-consumer-type");
    reveal_strlit("Authorization");
    reveal_strlit("x-skypetoken");
    assert("Content-Length"@.len() == 14);
}

/// Writes `s` as a JSON string literal.
pub fn quoted(s: &str) -> (r: String)
    ensures
        r@ == json_string_text(s@),
{
    match json_string(s) {
        Ok(text) => text,
        Err(_) => String::new(),
    }
}

impl Availability {
    /// The payload that asks for `presence` until `expiration`. It names
    /// the activity `OffWork` for `Offline` and no activity otherwise.
    pub fn new(presence: Presence, expiration: Option<UtcInstant>) -> (r: Availability)
        ensures
            r.availability == presence,
            string_of(r.activity) == activity_for(presence),
            r.desired_expiration_time == expiration,
    {
        let activity = match presence {
            Presence::Offline => Some("OffWork".to_owned()),
            _ => None,
        };
        Availability { availability: presence, activity, desired_expiration_time: expiration }
    }

    /// This payload as a JSON object.
    pub open spec fn json(self) -> Seq<char> {
        availability_json(
            self.availability,
            string_of(self.activity),
            instant_text(self.desired_expiration_time),
        )
    }

    /// Writes this payload as a JSON object, with the members in the
    /// order `availability`, `activity`, `desiredExpirationTime`.
    pub fn to_json(&self) -> (r: String)
        ensures
            r@ == self.json(),
    {
        let mut text = "{\"availability\":".to_owned();
        text.append(quoted(self.availability.as_wire_str()).as_str());
        match &self.activity {
            Some(activity) => {
                text.append(",\"activity\":");
                text.append(quoted(activity.as_str()).as_str());
            },
            None => {},
        }
        match &self.desired_expiration_time {
            Some(expiration) => {
                text.append(",\"desiredExpirationTime\":");
                text.append(quoted(expiration.to_rfc3339().as_str()).as_str());
            },
            None => {},
        }
        text.append("}");
        text
    }
}

impl PublishNote {
    /// The payload that shows `message`, pinned or not, until
    /// `expiration`. Without a message the text is empty, and without an
    /// expiration the expiry is the far future.
    pub fn new(message: Option<&str>, pin: bool, expiration: Option<UtcInstant>) -> (r: PublishNote)
        ensures
            r.message@ == note_message(text_of(message), pin),
            r.expiry@ == note_expiry(expiration),
            expiration is None ==> r.expiry@ == "9999-12-31T05:00:00.000Z"@,
    {
        let text = match message {
            Some(message) => {
                let mut text = message.to_owned();
                if pin {
                    text.append("<pinnednote></pinnednote>");
                }
                text
            },
            None => String::new(),
        };
        let expiry = match expiration {
            Some(expiration) => expiration.to_rfc3339(),
            None => "9999-12-31T05:00:00.000Z".to_owned(),
        };
        PublishNote { message: text, expiry }
    }

    /// This payload as a JSON object.
    pub open spec fn json(self) -> Seq<char> {
        note_json(self.message@, self.expiry@)
    }

    /// Writes this payload as a JSON object, with the members in the
    /// order `message`, `expiry`.
    pub fn to_json(&self) -> (r: String)
        ensures
            r@ == self.json(),
    {
        let mut text = "{\"message\":".to_owned();
        text.append(quoted(self.message.as_str()).as_str());
        text.append(",\"expiry\":");
        text.append(quoted(self.expiry.as_str()).as_str());
        text.append("}");
        text
    }
}

/// The address of the endpoint `path` for an account kind.
pub fn endpoint_uri(account: AccountType, path: &str) -> (r: String)
    ensures
        r@ == endpoint(account, path@),
{
    let mut uri = "https://presence.teams.".to_owned();
    uri.append(account.host_segment());
    uri.append(".com");
    uri.append(path);
    uri
}

/// The header that names this client to the service.
pub fn client_identification() -> (r: Header)
    ensures
        r@ == client_header(),
{
    Header { name: "x-ms-client-consumer-type".to_owned(), value: "teams4life".to_owned() }
}

/// The header that carries `token` for an account kind.
pub fn authentication(token: &str, account: AccountType) -> (r: Header)
    ensures
        r@ == credential_header(token@, account),
{
    match account {
        AccountType::Microsoft => {
            let mut value = "Bearer ".to_owned();
            value.append(token);
            Header { name: "Authorization".to_owned(), value }
        },
        AccountType::Live => Header { name: "x-skypetoken".to_owned(), value: token.to_owned() },
    }
}

/// Builds the availability request: the state to show, until when, and
/// the credential that vouches for it.
pub fn availability_request(
    token: &str,
    account: AccountType,
    presence: Presence,
    expiration: Option<UtcInstant>,
) -> (r: HttpRequest)
    ensures
        r@ == availability_request_model(token@, account, presence, expiration),
{
    let body = match presence {
        Presence::Reset => String::new(),
        _ => Availability::new(presence, expiration).to_json(),
    };
    let content = if body.as_str().is_empty() {
        Header { name: "Content-Length".to_owned(), value: "0".to_owned() }
    } else {
        Header { name: "Content-Type".to_owned(), value: "application/json".to_owned() }
    };
    let mut headers: Vec<Header> = Vec::new();
    headers.push(client_identification());
    headers.push(authentication(token, account));
    headers.push(content);
    let request = HttpRequest {
        uri: endpoint_uri(account, "/v1/me/forceavailability/"),
        headers,
        body,
    };
    proof {
        let model = availability_request_model(token@, account, presence, expiration);
        assert(request@.headers =~= model.headers);
    }
    request
}

/// Builds the message request: the status message, whether it is pinned,
/// until when it shows, and the credential that vouches for it.
pub fn message_request(
    token: &str,
    account: AccountType,
    message: Option<&str>,
    pin: bool,
    expiration: Option<UtcInstant>,
) -> (r: HttpRequest)
    ensures
        r@ == message_request_model(token@, account, text_of(message), pin, expiration),
{
    let body = PublishNote::new(message, pin, expiration).to_json();
    let mut headers: Vec<Header> = Vec::new();
    headers.push(client_identification());
    headers.push(
        Header { name: "Content-Type".to_owned(), value: "application/json".to_owned() },
    );
    headers.push(authentication(token, account));
    let request = HttpRequest { uri: endpoint_uri(account, "/v1/me/publishnote"), headers, body };
    proof {
        let model = message_request_model(token@, account, text_of(message), pin, expiration);
        assert(request@.headers =~= model.headers);
    }
    request
}

/// Judges the answer to one request: only status 200 is a success.
pub fn check_status(status: u16) -> (r: Result<(), Failure>)
    ensures
        r == if status == 200 {
            Ok::<(), Failure>(())
        } else {
            Err::<(), Failure>(Failure::UnexpectedStatus)
        },
{
    if status == 200 {
        Ok(())
    } else {
        Err(Failure::UnexpectedStatus)
    }
}

/// What became of one request: the status the service answered with, or
/// the reason no answer came.
pub open spec fn answer_of(answer: Result<u16, Failure>) -> Result<(), Failure> {
    match answer {
        Ok(status) => if status == 200 {
            Ok(())
        } else {
            Err(Failure::UnexpectedStatus)
        },
        Err(e) => Err(e),
    }
}

/// Judges a pass by its two requests: it succeeded only if both did. Of
/// two failures that of the availability request is reported.
pub fn publish_outcome(availability: Result<u16, Failure>, message: Result<u16, Failure>) -> (r:
    Result<(), Failure>)
    ensures
        r == match answer_of(availability) {
            Ok(_) => answer_of(message),
            Err(e) => Err::<(), Failure>(e),
        },
        r is Ok <==> availability == Ok::<u16, Failure>(200) && message == Ok::<u16, Failure>(200),
{
    let first = match availability {
        Ok(status) => check_status(status),
        Err(e) => Err(e),
    };
    match first {
        Ok(_) => match message {
            Ok(status) => check_status(status),
            Err(e) => Err(e),
        },
        Err(e) => Err(e),
    }
}

} // verus!
