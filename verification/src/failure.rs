//! The ways in which a pass can fail.

use vstd::prelude::*;

verus! {

/// Why a pass failed. Every failure ends the pass: nothing is retried and
/// no partial result is kept.
#[derive(Clone, Copy, Debug, PartialEq, Eq, Structural)]
pub enum Failure {
    /// The private copy of the key-value store could not be made.
    StoreCopyFailure,
    /// A store could not be opened or queried.
    StoreOpenFailure,
    /// A stored value or a credential could not be decoded.
    MalformedRecord,
    /// No credential that is still valid was found.
    NoValidToken,
    /// A request could not be built or did not reach the service.
    HttpTransportFailure,
    /// The service answered with a status other than 200.
    UnexpectedStatus,
    /// The command line could not be understood.
    ArgumentParseFailure,
}

impl Failure {
    /// The sentence that describes this failure to the operator.
    pub open spec fn description(self) -> Seq<char> {
        match self {
            Failure::StoreCopyFailure => "could not copy the key-value store"@,
            Failure::StoreOpenFailure => "could not open the credential store"@,
            Failure::MalformedRecord => "a stored credential could not be decoded"@,
            Failure::NoValidToken => "no valid token found"@,
            Failure::HttpTransportFailure => "the presence service could not be reached"@,
            Failure::UnexpectedStatus => "the presence service refused the request"@,
            Failure::ArgumentParseFailure => "the arguments could not be understood"@,
        }
    }

    /// Renders this failure for the operator.
    pub fn describe(&self) -> (r: String)
        ensures
            r@ == self.description(),
    {
        match self {
            Failure::StoreCopyFailure => "could not copy the key-value store".to_owned(),
            Failure::StoreOpenFailure => "could not open the credential store".to_owned(),
            Failure::MalformedRecord => "a stored credential could not be decoded".to_owned(),
            Failure::NoValidToken => "no valid token found".to_owned(),
            Failure::HttpTransportFailure => "the presence service could not be reached".to_owned(),
            Failure::UnexpectedStatus => "the presence service refused the request".to_owned(),
            Failure::ArgumentParseFailure => "the arguments could not be understood".to_owned(),
        }
    }
}

} // verus!
