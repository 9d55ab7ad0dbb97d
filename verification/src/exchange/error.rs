//! Exchange-related error types.

use vstd::prelude::*;
use crate::numparse::{decimal_text, u128_to_text};
use crate::text::{append_str, string_of};

verus! {

/// Errors that can occur when interacting with an exchange.
#[derive(Debug)]
pub enum ExchangeError {
    /// Authentication failed.
    AuthenticationFailed(String),
    /// Rate limit exceeded.
    RateLimitExceeded {
        /// Milliseconds to wait before retrying.
        retry_after_ms: u64,
    },
    /// Network error.
    NetworkError(String),
    /// Order rejected by the exchange.
    OrderRejected(String),
    /// Insufficient funds.
    InsufficientFunds {
        /// Required amount.
        required: String,
        /// Available amount.
        available: String,
    },
    /// Instrument not found.
    InstrumentNotFound(String),
    /// Market is closed.
    MarketClosed {
        /// The instrument that's not tradeable.
        instrument: String,
    },
    /// Invalid order parameters.
    InvalidOrder(String),
    /// Order not found.
    OrderNotFound(String),
    /// Exchange returned an unexpected response.
    UnexpectedResponse(String),
    /// Configuration error.
    ConfigurationError(String),
    /// Exchange-specific error.
    ExchangeSpecific {
        /// Error code from the exchange.
        code: String,
        /// Error message from the exchange.
        message: String,
    },
    /// Operation timed out.
    Timeout(u64),
    /// Generic internal error.
    Internal(String),
}

/// Result type for exchange operations.
pub type ExchangeResult<T> = Result<T, ExchangeError>;

impl ExchangeError {
    /// Rate limits, network errors and timeouts are worth retrying.
    pub open spec fn spec_is_retryable(&self) -> bool {
        self is RateLimitExceeded || self is NetworkError || self is Timeout
    }

    /// The wait before a retry: the server's delay for a rate limit, one second for network
    /// errors and timeouts, none otherwise.
    pub open spec fn spec_retry_delay_ms(&self) -> Option<u64> {
        match self {
            ExchangeError::RateLimitExceeded { retry_after_ms } => Some(*retry_after_ms),
            ExchangeError::NetworkError(_) | ExchangeError::Timeout(_) => Some(1000),
            _ => None,
        }
    }

    /// Returns true if the error is retryable.
    pub fn is_retryable(&self) -> (b: bool)
        ensures
            b == self.spec_is_retryable(),
    {
        match self {
            ExchangeError::RateLimitExceeded { .. } | ExchangeError::NetworkError(_)
            | ExchangeError::Timeout(_) => true,
            _ => false,
        }
    }

    /// Returns the retry delay in milliseconds if applicable.
    pub fn retry_delay_ms(&self) -> (r: Option<u64>)
        ensures
            r == self.spec_retry_delay_ms(),
    {
        match self {
            ExchangeError::RateLimitExceeded { retry_after_ms } => Some(*retry_after_ms),
            ExchangeError::NetworkError(_) | ExchangeError::Timeout(_) => Some(1000),
            _ => None,
        }
    }
}

/// An error has a retry delay exactly when it is retryable.
pub proof fn lemma_retry_delay_iff_retryable(e: ExchangeError)
    ensures
        e.spec_retry_delay_ms() is Some <==> e.spec_is_retryable(),
{
}


/// The message of an error.
pub open spec fn error_message(e: ExchangeError) -> Seq<char> {
    match e {
        ExchangeError::AuthenticationFailed(m) => "authentication failed: "@ + m@,
        ExchangeError::RateLimitExceeded { retry_after_ms } => "rate limit exceeded, retry after "@
            + decimal_text(retry_after_ms as nat) + "ms"@,
        ExchangeError::NetworkError(m) => "network error: "@ + m@,
        ExchangeError::OrderRejected(m) => "order rejected: "@ + m@,
        ExchangeError::InsufficientFunds { required, available } => "insufficient funds: required "@
            + required@ + ", available "@ + available@,
        ExchangeError::InstrumentNotFound(m) => "instrument not found: "@ + m@,
        ExchangeError::MarketClosed { instrument } => "market closed for "@ + instrument@,
        ExchangeError::InvalidOrder(m) => "invalid order: "@ + m@,
        ExchangeError::OrderNotFound(m) => "order not found: "@ + m@,
        ExchangeError::UnexpectedResponse(m) => "unexpected response: "@ + m@,
        ExchangeError::ConfigurationError(m) => "configuration error: "@ + m@,
        ExchangeError::ExchangeSpecific { code, message } => "exchange error ["@ + code@ + "]: "@
            + message@,
        ExchangeError::Timeout(ms) => "operation timed out after "@ + decimal_text(ms as nat) + "ms"@,
        ExchangeError::Internal(m) => "internal error: "@ + m@,
    }
}

fn text_of_u64(n: u64) -> (r: String)
    ensures
        r@ == decimal_text(n as nat),
{
    let v = u128_to_text(n as u128);
    string_of(&v)
}

fn joined(a: &str, b: &str) -> (r: String)
    ensures
        r@ == a@ + b@,
{
    let mut s = String::from_str(a);
    append_str(&mut s, b);
    s
}

impl ExchangeError {
    /// The message of the error.
    pub fn to_string(&self) -> (s: String)
        ensures
            s@ == error_message(*self),
    {
        match self {
            ExchangeError::AuthenticationFailed(m) => joined("authentication failed: ", m.as_str()),
            ExchangeError::RateLimitExceeded { retry_after_ms } => {
                let mut s = joined("rate limit exceeded, retry after ", text_of_u64(*retry_after_ms).as_str());
                append_str(&mut s, "ms");
                s
            },
            ExchangeError::NetworkError(m) => joined("network error: ", m.as_str()),
            ExchangeError::OrderRejected(m) => joined("order rejected: ", m.as_str()),
            ExchangeError::InsufficientFunds { required, available } => {
                let mut s = joined("insufficient funds: required ", required.as_str());
                append_str(&mut s, ", available ");
                append_str(&mut s, available.as_str());
                s
            },
            ExchangeError::InstrumentNotFound(m) => joined("instrument not found: ", m.as_str()),
            ExchangeError::MarketClosed { instrument } => joined("market closed for ", instrument.as_str()),
            ExchangeError::InvalidOrder(m) => joined("invalid order: ", m.as_str()),
            ExchangeError::OrderNotFound(m) => joined("order not found: ", m.as_str()),
            ExchangeError::UnexpectedResponse(m) => joined("unexpected response: ", m.as_str()),
            ExchangeError::ConfigurationError(m) => joined("configuration error: ", m.as_str()),
            ExchangeError::ExchangeSpecific { code, message } => {
                let mut s = joined("exchange error [", code.as_str());
                append_str(&mut s, "]: ");
                append_str(&mut s, message.as_str());
                s
            },
            ExchangeError::Timeout(ms) => {
                let mut s = joined("operation timed out after ", text_of_u64(*ms).as_str());
                append_str(&mut s, "ms");
                s
            },
            ExchangeError::Internal(m) => joined("internal error: ", m.as_str()),
        }
    }
}

} // verus!
