//! The errors of the library.

use vstd::prelude::*;
use vstd::string::*;

verus! {

/// Why a message was not delivered.
#[derive(Debug, PartialEq, Eq)]
pub enum Error {
    /// The request to the board's service failed, or its reply could not be
    /// read; `source` is the cause as the transport reported it.
    Api { source: String },
    /// The text holds a character that the board cannot show.
    TextValidation,
    /// The grid is not 6 rows of 22 columns.
    VecValidation,
    /// The service knows no subscription for the credentials.
    NoSubscription,
}

pub const API_MESSAGE: &'static str =
    "Failed to interact with the Vestaboard API. Re-check the API key pair, host network connectivity, or host DNS configuration. Error: ";

pub const TEXT_MESSAGE: &'static str =
    "Invalid characters in text. Vestaboard only supports the following: https://docs.vestaboard.com/characters";

pub const VEC_MESSAGE: &'static str =
    "Ensure the characters Vec contains exactly 6 rows and 22 columns of i32.";

pub const SUBSCRIPTION_MESSAGE: &'static str =
    "No subscription is available for the API key pair.";

impl Error {
    /// The text of the error, as a sequence of characters.
    pub open spec fn message_text(self) -> Seq<char> {
        match self {
            Error::Api { source } => API_MESSAGE@ + source@,
            Error::TextValidation => TEXT_MESSAGE@,
            Error::VecValidation => VEC_MESSAGE@,
            Error::NoSubscription => SUBSCRIPTION_MESSAGE@,
        }
    }

    /// The text of the error for a reader. A transport failure ends with its
    /// cause.
    pub fn message(&self) -> (text: String)
        ensures
            text@ == self.message_text(),
    {
        match self {
            Error::Api { source } => String::from_str(API_MESSAGE).concat(source.as_str()),
            Error::TextValidation => String::from_str(TEXT_MESSAGE),
            Error::VecValidation => String::from_str(VEC_MESSAGE),
            Error::NoSubscription => String::from_str(SUBSCRIPTION_MESSAGE),
        }
    }
}

} // verus!
