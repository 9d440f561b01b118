use vstd::prelude::*;

verus! {

/// The query of a subscription confirmation link.
pub struct Params {
    pub subscription_token: String,
}

} // verus!
