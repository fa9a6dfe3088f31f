//! What a user can ask for: a presence state, for one of two kinds of
//! account, with the credential of one of two applications.

use vstd::prelude::*;
use crate::text::same_text;

verus! {

/// The availability a user shows to others, or the request to drop an
/// earlier override.
#[derive(Clone, Copy, Debug, PartialEq, Eq, Structural)]
pub enum Presence {
    Available,
    Busy,
    DoNotDisturb,
    BeRightBack,
    Away,
    Offline,
    Reset,
}

/// The colour in which a presence state is shown on a terminal.
#[derive(Clone, Copy, Debug, PartialEq, Eq, Structural)]
pub enum Tint {
    Green,
    Red,
    Yellow,
    White,
    Plain,
}

/// The presence state that the word `s` names on the command line.
pub open spec fn presence_named(s: Seq<char>) -> Option<Presence> {
    if s == "available"@ {
        Some(Presence::Available)
    } else if s == "busy"@ {
        Some(Presence::Busy)
    } else if s == "do_not_disturb"@ {
        Some(Presence::DoNotDisturb)
    } else if s == "be_right_back"@ {
        Some(Presence::BeRightBack)
    } else if s == "away"@ {
        Some(Presence::Away)
    } else if s == "offline"@ {
        Some(Presence::Offline)
    } else if s == "reset"@ {
        Some(Presence::Reset)
    } else {
        None
    }
}

impl Presence {
    /// The word that names this state on the command line.
    pub open spec fn name(self) -> Seq<char> {
        match self {
            Presence::Available => "available"@,
            Presence::Busy => "busy"@,
            Presence::DoNotDisturb => "do_not_disturb"@,
            Presence::BeRightBack => "be_right_back"@,
            Presence::Away => "away"@,
            Presence::Offline => "offline"@,
            Presence::Reset => "reset"@,
        }
    }

    /// The word that names this state to the service.
    pub open spec fn wire_name(self) -> Seq<char> {
        match self {
            Presence::Available => "Available"@,
            Presence::Busy => "Busy"@,
            Presence::DoNotDisturb => "DoNotDisturb"@,
            Presence::BeRightBack => "BeRightBack"@,
            Presence::Away => "Away"@,
            Presence::Offline => "Offline"@,
            Presence::Reset => "Reset"@,
        }
    }

    /// The colour in which this state is shown.
    pub open spec fn tint_of(self) -> Tint {
        match self {
            Presence::Available => Tint::Green,
            Presence::Busy | Presence::DoNotDisturb => Tint::Red,
            Presence::BeRightBack | Presence::Away => Tint::Yellow,
            Presence::Offline => Tint::White,
            Presence::Reset => Tint::Plain,
        }
    }

    /// Reads a presence state from the word that names it. Any other word
    /// is refused with the message `No match`.
    pub fn from_str(s: &str) -> (r: Result<Presence, &'static str>)
        ensures
            match presence_named(s@) {
                Some(presence) => r == Ok::<Presence, &'static str>(presence),
                None => r matches Err(message) && message@ == "No match"@,
            },
    {
        if same_text(s, "available") {
            Ok(Presence::Available)
        } else if same_text(s, "busy") {
            Ok(Presence::Busy)
        } else if same_text(s, "do_not_disturb") {
            Ok(Presence::DoNotDisturb)
        } else if same_text(s, "be_right_back") {
            Ok(Presence::BeRightBack)
        } else if same_text(s, "away") {
            Ok(Presence::Away)
        } else if same_text(s, "offline") {
            Ok(Presence::Offline)
        } else if same_text(s, "reset") {
            Ok(Presence::Reset)
        } else {
            Err("No match")
        }
    }

    /// The word that names this state on the command line.
    pub fn as_str(&self) -> (r: &'static str)
        ensures
            r@ == self.name(),
    {
        match self {
            Presence::Available => "available",
            Presence::Busy => "busy",
            Presence::DoNotDisturb => "do_not_disturb",
            Presence::BeRightBack => "be_right_back",
            Presence::Away => "away",
            Presence::Offline => "offline",
            Presence::Reset => "reset",
        }
    }

    /// The word that names this state on the command line, as a `String`.
    pub fn to_string(&self) -> (r: String)
        ensures
            r@ == self.name(),
    {
        self.as_str().to_owned()
    }

    /// The word that names this state to the service.
    pub fn as_wire_str(&self) -> (r: &'static str)
        ensures
            r@ == self.wire_name(),
    {
        match self {
            Presence::Available => "Available",
            Presence::Busy => "Busy",
            Presence::DoNotDisturb => "DoNotDisturb",
            Presence::BeRightBack => "BeRightBack",
            Presence::Away => "Away",
            Presence::Offline => "Offline",
            Presence::Reset => "Reset",
        }
    }

    /// The colour in which this state is shown.
    pub fn tint(&self) -> (r: Tint)
        ensures
            r == self.tint_of(),
    {
        match self {
            Presence::Available => Tint::Green,
            Presence::Busy => Tint::Red,
            Presence::DoNotDisturb => Tint::Red,
            Presence::BeRightBack => Tint::Yellow,
            Presence::Away => Tint::Yellow,
            Presence::Offline => Tint::White,
            Presence::Reset => Tint::Plain,
        }
    }
}

/// Every state is read back from the word that names it.
pub proof fn lemma_name_round_trip(presence: Presence)
    ensures
        presence_named(presence.name()) == Some(presence),
{
    reveal_strlit("available");
    reveal_strlit("busy");
    reveal_strlit("do_not_disturb");
    reveal_strlit("be_right_back");
    reveal_strlit("away");
    reveal_strlit("offline");
    reveal_strlit("reset");
    assert("available"@.len() == 9);
    assert("do_not_disturb"@.len() == 14);
    assert("be_right_back"@.len() == 13);
    assert("offline"@.len() == 7);
    assert("away"@[0] != "busy"@[0]);
}

/// The kind of account a credential belongs to. It decides the host of
/// the service and the header that carries the credential.
#[derive(Clone, Copy, Debug, PartialEq, Eq, Structural)]
pub enum AccountType {
    Microsoft,
    Live,
}

/// The account kind that the word `s` names on the command line.
pub open spec fn account_named(s: Seq<char>) -> Option<AccountType> {
    if s == "live"@ {
        Some(AccountType::Live)
    } else if s == "ms"@ {
        Some(AccountType::Microsoft)
    } else {
        None
    }
}

impl AccountType {
    /// The part of the service's host name that depends on the account.
    pub open spec fn host(self) -> Seq<char> {
        match self {
            AccountType::Microsoft => "microsoft"@,
            AccountType::Live => "live"@,
        }
    }

    /// Reads an account kind from the word that names it.
    pub fn from_str(s: &str) -> (r: Option<AccountType>)
        ensures
            r == account_named(s@),
    {
        if same_text(s, "live") {
            Some(AccountType::Live)
        } else if same_text(s, "ms") {
            Some(AccountType::Microsoft)
        } else {
            None
        }
    }

    /// The part of the service's host name that depends on the account.
    pub fn host_segment(&self) -> (r: &'static str)
        ensures
            r@ == self.host(),
    {
        match self {
            AccountType::Microsoft => "microsoft",
            AccountType::Live => "live",
        }
    }
}

/// The application whose cached credential is used.
#[derive(Clone, Copy, Debug, PartialEq, Eq, Structural)]
pub enum InstanceType {
    TeamsApp,
    Chrome,
}

/// The application that the word `s` names on the command line.
pub open spec fn instance_named(s: Seq<char>) -> Option<InstanceType> {
    if s == "chrome"@ {
        Some(InstanceType::Chrome)
    } else if s == "teams"@ {
        Some(InstanceType::TeamsApp)
    } else {
        None
    }
}

impl InstanceType {
    /// Reads an application from the word that names it.
    pub fn from_str(s: &str) -> (r: Option<InstanceType>)
        ensures
            r == instance_named(s@),
    {
        if same_text(s, "chrome") {
            Some(InstanceType::Chrome)
        } else if same_text(s, "teams") {
            Some(InstanceType::TeamsApp)
        } else {
            None
        }
    }
}

} // verus!
