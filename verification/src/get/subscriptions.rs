//! The subscriptions of an API key pair, and the choice of the one to post to.

use vstd::prelude::*;
use crate::error::Error;

verus! {

/// One subscription, as the service lists it.
#[derive(Debug, PartialEq, Eq)]
pub struct Subscription {
    /// The identifier that messages are posted under.
    pub id: String,
    /// When the subscription was made.
    pub created: String,
    pub title: Option<String>,
    pub icon: Option<String>,
    /// The identifiers of the boards that show the subscription.
    pub boards: Vec<String>,
    /// The identifier of the installation.
    pub installation: String,
    /// The identifier of what was installed.
    pub installable: String,
}

/// The identifiers of a list of subscriptions, in the order of the list.
pub open spec fn ids_of(subscriptions: Seq<Subscription>) -> Seq<String> {
    Seq::new(subscriptions.len(), |i: int| subscriptions[i].id)
}

/// What `first` owes for a list of identifiers: the one at the head, or
/// `Error::NoSubscription` where the list is empty.
pub open spec fn first_of(ids: Seq<String>) -> Result<String, Error> {
    if ids.len() > 0 {
        Ok(ids[0])
    } else {
        Err(Error::NoSubscription)
    }
}

/// The identifiers of all the subscriptions that the service listed, in its order.
pub fn all(subscriptions: &Vec<Subscription>) -> (ids: Vec<String>)
    ensures
        ids@ == ids_of(subscriptions@),
{
    let mut ids: Vec<String> = Vec::new();
    let mut i: usize = 0;
    while i < subscriptions.len()
        invariant
            i <= subscriptions.len(),
            ids@.len() == i,
            forall|k: int| 0 <= k < i ==> ids@[k] == subscriptions@[k].id,
        decreases subscriptions.len() - i,
    {
        ids.push(subscriptions[i].id.clone());
        i += 1;
    }
    assert(ids@ =~= ids_of(subscriptions@));
    ids
}

/// The first identifier of the list, to which a client without a subscription
/// of its own posts. An empty list is an error, not a fault.
pub fn first(ids: &Vec<String>) -> (chosen: Result<String, Error>)
    ensures
        chosen == first_of(ids@),
{
    if ids.len() == 0 {
        return Err(Error::NoSubscription);
    }
    Ok(ids[0].clone())
}

} // verus!
