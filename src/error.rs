use vstd::prelude::*;

verus! {

/// Errors that Roblox reports when a tradable limited item cannot be bought.
#[derive(Debug, Clone, PartialEq, Eq)]
pub enum PurchaseTradableLimitedError {
    /// The account has a pending transaction (also what Roblox says when it
    /// has no better answer).
    PendingTransaction,
    /// The item is not for sale.
    ItemNotForSale,
    /// The account does not hold enough Robux.
    NotEnoughRobux,
    /// The price changed before the purchase went through.
    PriceChanged,
    /// The account tried to buy its own item.
    CannotBuyOwnItem,
    /// Any other message from Roblox, kept as it came.
    UnknownRobloxErrorMsg(String),
}

/// Every failure that a request to the API can end in.
#[derive(Debug, Clone, PartialEq, Eq)]
pub enum RobloxError {
    /// Status 429.
    TooManyRequests,
    /// Status 500.
    InternalServerError,
    /// Status 400 without an embedded Roblox error.
    BadRequest,
    /// No valid session secret: status 401 with Roblox error code 0, or a
    /// 401 whose body cannot be read.
    InvalidRoblosecurity,
    /// Status 400 or 401 carrying a Roblox error code that has no variant.
    UnknownRobloxErrorCode { code: u16, message: String },
    /// An endpoint that needs the session secret was called without one.
    RoblosecurityNotSet,
    /// A status code that has no mapping.
    UnidentifiedStatusCode(u16),
    /// A body that does not have the expected shape.
    MalformedResponse,
    /// Status 403 with a fresh anti-forgery token: the request is to be sent
    /// again with that token.
    InvalidXcsrf(String),
    /// A refused anti-forgery token without a fresh one. The classifier never
    /// gives it: a 403 with an empty token header and no challenge is
    /// `UnknownStatus403Format`.
    XcsrfNotReturned,
    /// Status 403 whose body names a challenge (captcha or two-step
    /// verification) and which carries no fresh token.
    ChallengeRequired(String),
    /// Status 403 with neither a fresh token nor a challenge.
    UnknownStatus403Format,
    /// A purchase that Roblox refused.
    PurchaseTradableLimitedError(PurchaseTradableLimitedError),
    /// The request could not be sent or its answer not received.
    ReqwestError(String),
    /// A local input or output failure.
    IoError(String),
    /// A file system path that cannot be used.
    InvalidPath(String),
}

impl RobloxError {
    /// Whether retrying the same request later may succeed.
    pub open spec fn spec_is_retryable(&self) -> bool {
        match self {
            RobloxError::TooManyRequests | RobloxError::InternalServerError => true,
            _ => false,
        }
    }

    /// Whether retrying the same request later may succeed: rate limits and
    /// server faults are, by convention.
    #[verifier::when_used_as_spec(spec_is_retryable)]
    pub fn is_retryable(&self) -> (r: bool)
        ensures
            r == self.spec_is_retryable(),
    {
        match self {
            RobloxError::TooManyRequests | RobloxError::InternalServerError => true,
            _ => false,
        }
    }
}

} // verus!
