//! What a request can fail with.

use crate::text::cat3;
use vstd::prelude::*;

verus! {

/// Why a request failed.
#[derive(Clone, Debug, PartialEq, Eq)]
pub enum AppError {
    BadRequest(String),
    Unauthorized,
    Forbidden,
    NotFound(String),
    Conflict(String),
    TooManyRequests(String),
    PaymentRequired { message: String, upgrade_url: String },
    ServiceUnavailable(String),
    Upstream(String),
    BtcpayNotConfigured,
    Internal(String),
}

/// The result of a request.
pub type AppResult<T> = Result<T, AppError>;

impl AppError {
    /// Is this a bad request with the given words?
    pub open spec fn is_bad_request(self, words: Seq<char>) -> bool {
        self matches AppError::BadRequest(m) && m@ == words
    }

    /// Is this a missing thing with the given words?
    pub open spec fn is_not_found(self, words: Seq<char>) -> bool {
        self matches AppError::NotFound(m) && m@ == words
    }

    /// Is this a conflict with the given words?
    pub open spec fn is_conflict(self, words: Seq<char>) -> bool {
        self matches AppError::Conflict(m) && m@ == words
    }

    /// Is this an upstream failure with the given words?
    pub open spec fn is_upstream(self, words: Seq<char>) -> bool {
        self matches AppError::Upstream(m) && m@ == words
    }

    /// Is this an internal failure with the given words?
    pub open spec fn is_internal(self, words: Seq<char>) -> bool {
        self matches AppError::Internal(m) && m@ == words
    }

    /// Is this a demand for a paid tier with the given words and link?
    pub open spec fn is_payment_required(self, words: Seq<char>, url: Seq<char>) -> bool {
        self matches AppError::PaymentRequired { message, upgrade_url } && message@ == words
            && upgrade_url@ == url
    }

    /// The same error once more.
    pub fn copy(&self) -> (r: AppError)
        ensures
            r == *self,
    {
        match self {
            AppError::BadRequest(m) => AppError::BadRequest(m.clone()),
            AppError::Unauthorized => AppError::Unauthorized,
            AppError::Forbidden => AppError::Forbidden,
            AppError::NotFound(m) => AppError::NotFound(m.clone()),
            AppError::Conflict(m) => AppError::Conflict(m.clone()),
            AppError::TooManyRequests(m) => AppError::TooManyRequests(m.clone()),
            AppError::PaymentRequired { message, upgrade_url } => AppError::PaymentRequired {
                message: message.clone(),
                upgrade_url: upgrade_url.clone(),
            },
            AppError::ServiceUnavailable(m) => AppError::ServiceUnavailable(m.clone()),
            AppError::Upstream(m) => AppError::Upstream(m.clone()),
            AppError::BtcpayNotConfigured => AppError::BtcpayNotConfigured,
            AppError::Internal(m) => AppError::Internal(m.clone()),
        }
    }
}

/// What an error says.
pub enum Refusal {
    BadRequest { words: Seq<char> },
    NotFound { words: Seq<char> },
    Conflict { words: Seq<char> },
    PaymentRequired { words: Seq<char>, url: Seq<char> },
    Unauthorized,
    Forbidden,
}

impl Refusal {
    /// Does `error` say this?
    pub open spec fn is(self, error: AppError) -> bool {
        match self {
            Refusal::BadRequest { words } => error.is_bad_request(words),
            Refusal::NotFound { words } => error.is_not_found(words),
            Refusal::Conflict { words } => error.is_conflict(words),
            Refusal::PaymentRequired { words, url } => error.is_payment_required(words, url),
            Refusal::Unauthorized => error is Unauthorized,
            Refusal::Forbidden => error is Forbidden,
        }
    }
}

/// A bad request.
pub fn bad_request(words: &str) -> (r: AppError)
    ensures
        r.is_bad_request(words@),
{
    AppError::BadRequest(String::from_str(words))
}

/// A bad request whose words hold a value.
pub fn bad_request_with(before: &str, value: &str, after: &str) -> (r: AppError)
    ensures
        r.is_bad_request(before@ + value@ + after@),
{
    AppError::BadRequest(cat3(before, value, after))
}

/// A missing thing, named in the words.
pub fn not_found_with(before: &str, value: &str, after: &str) -> (r: AppError)
    ensures
        r.is_not_found(before@ + value@ + after@),
{
    AppError::NotFound(cat3(before, value, after))
}

/// An internal failure.
pub fn internal(words: &str) -> (r: AppError)
    ensures
        r.is_internal(words@),
{
    AppError::Internal(String::from_str(words))
}

} // verus!
