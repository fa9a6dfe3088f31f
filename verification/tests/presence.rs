use tpcli::failure::Failure;
use tpcli::presence::{AccountType, InstanceType, Presence, Tint};

const ALL: [Presence; 7] = [
    Presence::Available,
    Presence::Busy,
    Presence::DoNotDisturb,
    Presence::BeRightBack,
    Presence::Away,
    Presence::Offline,
    Presence::Reset,
];

#[test]
fn presence_is_read_from_its_word() {
    assert_eq!(Presence::from_str("available"), Ok(Presence::Available));
    assert_eq!(Presence::from_str("busy"), Ok(Presence::Busy));
    assert_eq!(Presence::from_str("do_not_disturb"), Ok(Presence::DoNotDisturb));
    assert_eq!(Presence::from_str("be_right_back"), Ok(Presence::BeRightBack));
    assert_eq!(Presence::from_str("away"), Ok(Presence::Away));
    assert_eq!(Presence::from_str("offline"), Ok(Presence::Offline));
    assert_eq!(Presence::from_str("reset"), Ok(Presence::Reset));
}

#[test]
fn other_words_are_no_match() {
    assert_eq!(Presence::from_str("Busy"), Err("No match"));
    assert_eq!(Presence::from_str(""), Err("No match"));
    assert_eq!(Presence::from_str("busy "), Err("No match"));
    assert_eq!(Presence::from_str("dnd"), Err("No match"));
}

#[test]
fn presence_is_written_as_its_word() {
    assert_eq!(Presence::Available.to_string(), "available");
    assert_eq!(Presence::Busy.to_string(), "busy");
    assert_eq!(Presence::DoNotDisturb.to_string(), "do_not_disturb");
    assert_eq!(Presence::BeRightBack.to_string(), "be_right_back");
    assert_eq!(Presence::Away.to_string(), "away");
    assert_eq!(Presence::Offline.to_string(), "offline");
    assert_eq!(Presence::Reset.to_string(), "reset");
}

#[test]
fn word_of_a_presence_reads_back() {
    for presence in ALL {
        assert_eq!(Presence::from_str(&presence.to_string()), Ok(presence));
        assert_eq!(Presence::from_str(presence.as_str()), Ok(presence));
    }
}

#[test]
fn presence_has_its_name_on_the_wire() {
    assert_eq!(Presence::Available.as_wire_str(), "Available");
    assert_eq!(Presence::Busy.as_wire_str(), "Busy");
    assert_eq!(Presence::DoNotDisturb.as_wire_str(), "DoNotDisturb");
    assert_eq!(Presence::BeRightBack.as_wire_str(), "BeRightBack");
    assert_eq!(Presence::Away.as_wire_str(), "Away");
    assert_eq!(Presence::Offline.as_wire_str(), "Offline");
    assert_eq!(Presence::Reset.as_wire_str(), "Reset");
}

#[test]
fn presence_has_its_colour() {
    assert_eq!(Presence::Available.tint(), Tint::Green);
    assert_eq!(Presence::Busy.tint(), Tint::Red);
    assert_eq!(Presence::DoNotDisturb.tint(), Tint::Red);
    assert_eq!(Presence::BeRightBack.tint(), Tint::Yellow);
    assert_eq!(Presence::Away.tint(), Tint::Yellow);
    assert_eq!(Presence::Offline.tint(), Tint::White);
    assert_eq!(Presence::Reset.tint(), Tint::Plain);
}

#[test]
fn account_kind_is_read_from_its_word() {
    assert_eq!(AccountType::from_str("live"), Some(AccountType::Live));
    assert_eq!(AccountType::from_str("ms"), Some(AccountType::Microsoft));
    assert_eq!(AccountType::from_str("microsoft"), None);
    assert_eq!(AccountType::Microsoft.host_segment(), "microsoft");
    assert_eq!(AccountType::Live.host_segment(), "live");
}

#[test]
fn application_is_read_from_its_word() {
    assert_eq!(InstanceType::from_str("chrome"), Some(InstanceType::Chrome));
    assert_eq!(InstanceType::from_str("teams"), Some(InstanceType::TeamsApp));
    assert_eq!(InstanceType::from_str("firefox"), None);
}

#[test]
fn every_failure_has_its_sentence() {
    assert_eq!(Failure::NoValidToken.describe(), "no valid token found");
    assert_eq!(Failure::MalformedRecord.describe(), "a stored credential could not be decoded");
    assert_eq!(Failure::StoreCopyFailure.describe(), "could not copy the key-value store");
    assert_eq!(Failure::StoreOpenFailure.describe(), "could not open the credential store");
    assert_eq!(
        Failure::HttpTransportFailure.describe(),
        "the presence service could not be reached"
    );
    assert_eq!(Failure::UnexpectedStatus.describe(), "the presence service refused the request");
    assert_eq!(Failure::ArgumentParseFailure.describe(), "the arguments could not be understood");
}
