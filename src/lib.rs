//! Authenticated session layer for the Roblox web API: the credential store,
//! the identity cache, the classifier of raw responses and the
//! refresh-and-retry-once protocol for the anti-forgery token.
use vstd::prelude::*;

pub mod error;
pub mod client;
pub mod discovery;
pub mod economy;
pub mod friends;
pub mod games;
pub mod json;
pub mod presence;
pub mod retry;
pub mod search;
pub mod types;
pub mod users;
pub mod validation;

verus! {

/// A Roblox user.
#[derive(Clone, Debug, PartialEq, Eq)]
pub struct User {
    pub user_id: u64,
    pub username: String,
    pub display_name: String,
}

/// The page size that most endpoints accept.
#[derive(Clone, Copy, Debug, PartialEq, Eq, Default)]
pub enum Limit {
    #[default]
    Ten,
    TwentyFive,
    Fifty,
    Hundred,
}

impl Limit {
    pub open spec fn spec_to_u64(self) -> u64 {
        match self {
            Limit::Ten => 10,
            Limit::TwentyFive => 25,
            Limit::Fifty => 50,
            Limit::Hundred => 100,
        }
    }

    /// The number of items that the limit stands for.
    #[verifier::when_used_as_spec(spec_to_u64)]
    pub fn to_u64(self) -> (r: u64)
        ensures
            r == self.spec_to_u64(),
    {
        match self {
            Limit::Ten => 10,
            Limit::TwentyFive => 25,
            Limit::Fifty => 50,
            Limit::Hundred => 100,
        }
    }
}

} // verus!
