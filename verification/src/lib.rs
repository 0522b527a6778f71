//! Client-side logic for a 6 x 22 split-flap message board: the character
//! codec, the row formatter, the two validators and the delivery protocol.

use vstd::prelude::*;
use crate::delivery::{opening, Action, Delivery};
use crate::error::Error;
use crate::validators::{follows_grammar, grid_shaped, is_valid_text, is_valid_vec};

pub mod delivery;
pub mod error;
pub mod format;
pub mod get;
pub mod validators;

verus! {

/// What a message carries: a text that the board lays out itself, or a grid
/// of character codes.
#[derive(Debug, PartialEq, Eq)]
pub enum Body {
    Text(String),
    Characters(Vec<Vec<i32>>),
}

/// The receipt of a message.
#[derive(Debug, PartialEq, Eq)]
pub struct Post {
    pub message: Message,
}

/// A message as the service recorded it.
#[derive(Debug, PartialEq, Eq)]
pub struct Message {
    pub id: String,
    pub text: Option<String>,
    pub created: String,
}

#[derive(PartialEq, Eq)]
struct Installable {
    api_key: String,
    api_secret: String,
    subscription: Option<String>,
}

/// A client of the board's service for one API key pair, with the
/// subscription it posts to where that is known. The key pair cannot be
/// changed once the client is made, and no method prints it.
#[derive(PartialEq, Eq)]
pub struct Vestaboard {
    installable: Installable,
}

/// What sending a body owes: the opening of the delivery where the
/// validator accepted the content, else the refusal.
pub open spec fn send_result(
    accepted: bool,
    refusal: Error,
    client: Vestaboard,
    body: Body,
    result: Result<(Delivery, Action), Error>,
) -> bool {
    if accepted {
        result == Ok::<(Delivery, Action), Error>(
            opening(client.key(), client.secret(), client.target(), body),
        )
    } else {
        result == Err::<(Delivery, Action), Error>(refusal)
    }
}

impl Vestaboard {
    /// The API key of the client.
    pub closed spec fn key(self) -> String {
        self.installable.api_key
    }

    /// The API secret of the client.
    pub closed spec fn secret(self) -> String {
        self.installable.api_secret
    }

    /// The subscription that the client posts to, if it was given one.
    pub closed spec fn target(self) -> Option<String> {
        self.installable.subscription
    }

    /// A client for the key pair, without a subscription.
    pub fn new(api_key: String, api_secret: String) -> (client: Vestaboard)
        ensures
            client.key() == api_key,
            client.secret() == api_secret,
            client.target() == None::<String>,
    {
        let installable = Installable { api_key: api_key, api_secret: api_secret, subscription: None };
        Vestaboard { installable: installable }
    }

    /// The same client, posting to the subscription `sub`.
    pub fn subscription(self, sub: String) -> (client: Vestaboard)
        ensures
            client.key() == self.key(),
            client.secret() == self.secret(),
            client.target() == Some(sub),
    {
        let mut client = self;
        client.installable.subscription = Some(sub);
        client
    }

    /// Opens the delivery of a body: the first state and what to ask of the
    /// service first.
    pub fn request(self, json: Body) -> (start: (Delivery, Action))
        ensures
            start == opening(self.key(), self.secret(), self.target(), json),
    {
        let Installable { api_key, api_secret, subscription } = self.installable;
        match subscription {
            Some(chosen) => (
                Delivery::Posting,
                Action::Message { subscription: chosen, api_key, api_secret, body: json },
            ),
            None => {
                let key: String = api_key.clone();
                let secret: String = api_secret.clone();
                (
                    Delivery::Listing { api_key, api_secret, body: json },
                    Action::Subscriptions { api_key: key, api_secret: secret },
                )
            },
        }
    }

    /// Sends a grid of character codes. A grid that is not 6 rows of 22
    /// columns gives `Error::VecValidation` and nothing is asked of the service.
    pub fn characters(self, characters: Vec<Vec<i32>>) -> (result: Result<
        (Delivery, Action),
        Error,
    >)
        ensures
            send_result(
                grid_shaped(characters@),
                Error::VecValidation,
                self,
                Body::Characters(characters),
                result,
            ),
    {
        if !is_valid_vec(&characters) {
            return Err(Error::VecValidation);
        }
        Ok(self.request(Body::Characters(characters)))
    }

    /// Sends a text, which the board lays out itself. A text that does not
    /// follow the grammar gives `Error::TextValidation` and nothing is asked
    /// of the service.
    pub fn text(self, text: &str) -> (result: Result<(Delivery, Action), Error>)
        ensures
            result matches Ok(start) ==> follows_grammar(text@) && exists|body: String|
                body@ == text@ && start == opening(
                    self.key(),
                    self.secret(),
                    self.target(),
                    Body::Text(body),
                ),
            result matches Err(error) ==> !follows_grammar(text@) && error == Error::TextValidation,
    {
        if !is_valid_text(text) {
            return Err(Error::TextValidation);
        }
        Ok(self.request(Body::Text(text.to_owned())))
    }
}

} // verus!
