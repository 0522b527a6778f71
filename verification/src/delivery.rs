//! The delivery of one message, as a machine of states: the library decides,
//! its caller talks to the service and reports what came back.

use vstd::prelude::*;
use vstd::string::*;
use crate::error::Error;
use crate::get::subscriptions::{all, first, first_of, ids_of, Subscription};
use crate::{Body, Post};

verus! {

/// The address of the service.
pub const BASE_URL: &'static str = "https://platform.vestaboard.com";

/// The cause that the library reports where an event does not answer the
/// request that is pending.
pub const OUT_OF_TURN: &'static str = "the reply does not answer the pending request";

/// Where a delivery stands. It holds the key pair while the list is awaited,
/// so it can be compared but not printed.
#[derive(PartialEq, Eq)]
pub enum Delivery {
    /// The list of subscriptions was asked for; the message waits for it.
    Listing { api_key: String, api_secret: String, body: Body },
    /// The message was handed over; its receipt is awaited.
    Posting,
    /// The delivery is over.
    Finished,
}

/// What the caller does next. A request holds the key pair, so an action can
/// be compared but not printed.
#[derive(PartialEq, Eq)]
pub enum Action {
    /// Ask the service for the subscriptions of the key pair.
    Subscriptions { api_key: String, api_secret: String },
    /// Post the body under the subscription.
    Message { subscription: String, api_key: String, api_secret: String, body: Body },
    /// Nothing: the delivery ended with this result.
    Done(Result<Post, Error>),
}

/// What the caller reports: the answer to the last request, or the cause of
/// its failure as the transport words it.
#[derive(Debug, PartialEq, Eq)]
pub enum Event {
    Subscriptions(Result<Vec<Subscription>, String>),
    Message(Result<Post, String>),
}

/// The address of the list of subscriptions.
pub open spec fn list_url() -> Seq<char> {
    BASE_URL@ + "/subscriptions"@
}

/// The address that a message for a subscription is posted to.
pub open spec fn message_url(subscription: Seq<char>) -> Seq<char> {
    BASE_URL@ + "/subscriptions/"@ + subscription + "/message"@
}

/// The address of the list of subscriptions, as a string.
pub fn build_list_url() -> (url: String)
    ensures
        url@ == list_url(),
{
    String::from_str(BASE_URL).concat("/subscriptions")
}

/// The address that a message for the subscription is posted to, as a string.
pub fn build_url(subscription: String) -> (url: String)
    ensures
        url@ == message_url(subscription@),
{
    String::from_str(BASE_URL).concat("/subscriptions/").concat(subscription.as_str()).concat(
        "/message",
    )
}

/// The first state and action of a delivery: with a subscription the message
/// is posted at once, without one the list of subscriptions is asked for.
pub open spec fn opening(
    api_key: String,
    api_secret: String,
    subscription: Option<String>,
    body: Body,
) -> (Delivery, Action) {
    match subscription {
        Some(chosen) => (
            Delivery::Posting,
            Action::Message { subscription: chosen, api_key, api_secret, body },
        ),
        None => (
            Delivery::Listing { api_key, api_secret, body },
            Action::Subscriptions { api_key, api_secret },
        ),
    }
}

/// The end of a delivery with an error.
pub open spec fn failed(error: Error) -> (Delivery, Action) {
    (Delivery::Finished, Action::Done(Err(error)))
}

impl Delivery {
    /// Whether the event answers the request that the delivery waits on.
    pub open spec fn awaits(self, event: Event) -> bool {
        match (self, event) {
            (Delivery::Listing { .. }, Event::Subscriptions(_)) => true,
            (Delivery::Posting, Event::Message(_)) => true,
            _ => false,
        }
    }

    /// The state and action that follow an awaited event. Of an event out of
    /// turn it says nothing: see `step_owed`.
    pub open spec fn next(self, event: Event) -> (Delivery, Action)
        recommends
            self.awaits(event),
    {
        match (self, event) {
            (
                Delivery::Listing { api_key, api_secret, body },
                Event::Subscriptions(Ok(listed)),
            ) => match first_of(ids_of(listed@)) {
                Ok(chosen) => (
                    Delivery::Posting,
                    Action::Message { subscription: chosen, api_key, api_secret, body },
                ),
                Err(error) => failed(error),
            },
            (Delivery::Listing { .. }, Event::Subscriptions(Err(cause))) => failed(
                Error::Api { source: cause },
            ),
            (Delivery::Posting, Event::Message(Ok(post))) => (
                Delivery::Finished,
                Action::Done(Ok(post)),
            ),
            (Delivery::Posting, Event::Message(Err(cause))) => failed(
                Error::Api { source: cause },
            ),
            _ => arbitrary(),
        }
    }

    /// What `step` owes: for an awaited event what `next` says; for any other
    /// event the end of the delivery with a transport error whose cause is
    /// `OUT_OF_TURN`.
    pub open spec fn step_owed(self, event: Event, after: (Delivery, Action)) -> bool {
        if self.awaits(event) {
            after == self.next(event)
        } else {
            &&& after.0 == Delivery::Finished
            &&& after.1 matches Action::Done(Err(Error::Api { source }))
            &&& source@ == OUT_OF_TURN@
        }
    }

    /// Whether the event answers the request that the delivery waits on.
    pub fn expects(&self, event: &Event) -> (expected: bool)
        ensures
            expected == self.awaits(*event),
    {
        match (self, event) {
            (Delivery::Listing { .. }, Event::Subscriptions(_)) => true,
            (Delivery::Posting, Event::Message(_)) => true,
            _ => false,
        }
    }

    /// Takes the delivery one step on: from the state and the event that the
    /// caller reports to the next state and what the caller does next.
    pub fn step(self, event: Event) -> (after: (Delivery, Action))
        ensures
            self.step_owed(event, after),
    {
        match (self, event) {
            (Delivery::Listing { api_key, api_secret, body }, Event::Subscriptions(reply)) => {
                match reply {
                    Ok(listed) => {
                        let ids: Vec<String> = all(&listed);
                        match first(&ids) {
                            Ok(chosen) => (
                                Delivery::Posting,
                                Action::Message { subscription: chosen, api_key, api_secret, body },
                            ),
                            Err(error) => (Delivery::Finished, Action::Done(Err(error))),
                        }
                    },
                    Err(cause) => (
                        Delivery::Finished,
                        Action::Done(Err(Error::Api { source: cause })),
                    ),
                }
            },
            (Delivery::Posting, Event::Message(reply)) => {
                match reply {
                    Ok(post) => (Delivery::Finished, Action::Done(Ok(post))),
                    Err(cause) => (
                        Delivery::Finished,
                        Action::Done(Err(Error::Api { source: cause })),
                    ),
                }
            },
            _ => (
                Delivery::Finished,
                Action::Done(Err(Error::Api { source: String::from_str(OUT_OF_TURN) })),
            ),
        }
    }
}

/// How a delivery ends once the post was answered: with the receipt, or with
/// a transport error that holds the cause as it was reported.
pub open spec fn outcome(posted: Result<Post, String>) -> Result<Post, Error> {
    match posted {
        Ok(post) => Ok(post),
        Err(cause) => Err(Error::Api { source: cause }),
    }
}

/// A client with a subscription of its own asks the service one thing only:
/// it opens by posting the message under that subscription, and the answer
/// to the post ends the delivery. The list of subscriptions is never asked
/// for, and a list that is reported all the same is out of turn.
pub proof fn known_subscription_law(
    api_key: String,
    api_secret: String,
    chosen: String,
    body: Body,
    listed: Result<Vec<Subscription>, String>,
    posted: Result<Post, String>,
)
    ensures
        opening(api_key, api_secret, Some(chosen), body) == (
            Delivery::Posting,
            Action::Message { subscription: chosen, api_key, api_secret, body },
        ),
        !Delivery::Posting.awaits(Event::Subscriptions(listed)),
        Delivery::Posting.awaits(Event::Message(posted)),
        Delivery::Posting.next(Event::Message(posted)) == (
            Delivery::Finished,
            Action::Done(outcome(posted)),
        ),
{
}

/// A client without a subscription asks the service two things, in this
/// order: first the list of subscriptions, then, where the list is not empty,
/// the post of the message under the first subscription listed. The answer to
/// the post ends the delivery.
pub proof fn listed_subscription_law(
    api_key: String,
    api_secret: String,
    body: Body,
    listed: Vec<Subscription>,
    posted: Result<Post, String>,
)
    requires
        listed@.len() > 0,
    ensures
        ({
            let start = opening(api_key, api_secret, None, body);
            let second = start.0.next(Event::Subscriptions(Ok(listed)));
            let third = second.0.next(Event::Message(posted));
            &&& start.1 == Action::Subscriptions { api_key, api_secret }
            &&& start.0.awaits(Event::Subscriptions(Ok(listed)))
            &&& !start.0.awaits(Event::Message(posted))
            &&& second.1 == Action::Message {
                subscription: listed@[0].id,
                api_key,
                api_secret,
                body,
            }
            &&& second.0.awaits(Event::Message(posted))
            &&& third == (Delivery::Finished, Action::Done(outcome(posted)))
        }),
{
}

/// Where the list of subscriptions cannot be had, or is empty, the delivery
/// ends there and the message is never posted.
pub proof fn no_subscription_law(
    api_key: String,
    api_secret: String,
    body: Body,
    listed: Result<Vec<Subscription>, String>,
)
    requires
        listed matches Ok(found) ==> found@.len() == 0,
    ensures
        ({
            let start = opening(api_key, api_secret, None, body);
            let second = start.0.next(Event::Subscriptions(listed));
            &&& second.0 == Delivery::Finished
            &&& listed matches Ok(_) ==> second.1 == Action::Done(Err(Error::NoSubscription))
            &&& listed matches Err(cause) ==> second.1 == Action::Done(
                Err(Error::Api { source: cause }),
            )
        }),
{
}

/// A failure of the post ends the delivery with a transport error, and the
/// error holds the cause unchanged.
pub proof fn transport_failure_law(cause: String)
    ensures
        Delivery::Posting.next(Event::Message(Err(cause))) == failed(Error::Api { source: cause }),
        outcome(Err(cause)) == Err::<Post, Error>(Error::Api { source: cause }),
        (Error::Api { source: cause }).message_text() == crate::error::API_MESSAGE@ + cause@,
{
}

/// A delivery that is over awaits nothing more.
pub proof fn finished_law(event: Event)
    ensures
        !Delivery::Finished.awaits(event),
{
}

} // verus!
