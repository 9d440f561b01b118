use super::{SubscriberEmail, SubscriberName};
use vstd::prelude::*;

verus! {

/// A subscription request whose name and e-mail address were accepted.
#[derive(Debug)]
pub struct NewSubscriber {
    pub email: SubscriberEmail,
    pub name: SubscriberName,
}

} // verus!
