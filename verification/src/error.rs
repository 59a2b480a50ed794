//! Error types for the trading system.
//!
//! The taxonomy follows the pipeline's retry design: transient errors (rate
//! limits, connection loss, timeouts) are retried locally with bounded
//! attempts; everything else is fatal to the owning component only.

use vstd::prelude::*;
use crate::strings::{spec_decimal, str_eq, u64_to_string};

verus! {

/// Errors of the Upbit exchange client.
#[derive(Debug, Clone, PartialEq)]
pub enum UpbitError {
    /// An HTTP request could not be carried out.
    RequestFailed(String),
    /// The authentication token could not be created.
    JwtCreationFailed(String),
    /// The exchange answered with a body that could not be read.
    ResponseParseError(String),
    /// The exchange answered with an error code and message.
    ApiError { code: String, message: String },
    /// The exchange's request rate limit was exceeded.
    RateLimitError,
    /// The API credentials were rejected.
    InvalidCredentials,
    /// The request timed out.
    Timeout,
}

impl UpbitError {
    /// Classify an HTTP status code: 429 is the rate limit, 401 and 403 are
    /// credential failures, everything else is carried as a plain API error.
    pub fn from_api_error(code: &str, message: &str) -> (r: UpbitError)
        ensures
            code@ == "429"@ ==> r == UpbitError::RateLimitError,
            code@ != "429"@ && (code@ == "401"@ || code@ == "403"@) ==> r
                == UpbitError::InvalidCredentials,
            code@ != "429"@ && code@ != "401"@ && code@ != "403"@ ==> (
            r matches UpbitError::ApiError { code: c, message: m } && c@ == code@ && m@
                == message@),
    {
        if str_eq(code, "429") {
            UpbitError::RateLimitError
        } else if str_eq(code, "401") || str_eq(code, "403") {
            UpbitError::InvalidCredentials
        } else {
            UpbitError::ApiError { code: String::from_str(code), message: String::from_str(message) }
        }
    }
}

impl UpbitError {
    /// The message as a sequence of characters, for contracts.
    pub open spec fn spec_message(&self) -> Seq<char> {
        match self {
            UpbitError::RequestFailed(s) => "HTTP request failed: "@ + s@,
            UpbitError::JwtCreationFailed(s) => "JWT token creation failed: "@ + s@,
            UpbitError::ResponseParseError(s) => "Failed to parse API response: "@ + s@,
            UpbitError::ApiError { code, message } => "API returned error: "@ + code@ + " - "@
                + message@,
            UpbitError::RateLimitError => "Rate limit exceeded"@,
            UpbitError::InvalidCredentials => "Invalid API credentials"@,
            UpbitError::Timeout => "Request timeout"@,
        }
    }

    /// The error's message, as the operator sees it.
    pub fn message(&self) -> (r: String)
        ensures
            r@ == self.spec_message(),
    {
        match self {
            UpbitError::RequestFailed(text) => prefixed("HTTP request failed: ", text),
            UpbitError::JwtCreationFailed(text) => prefixed("JWT token creation failed: ", text),
            UpbitError::ResponseParseError(text) => prefixed(
                "Failed to parse API response: ",
                text,
            ),
            UpbitError::ApiError { code, message } => {
                let mut s = String::from_str("API returned error: ");
                s.append(code.as_str());
                s.append(" - ");
                s.append(message.as_str());
                s
            },
            UpbitError::RateLimitError => String::from_str("Rate limit exceeded"),
            UpbitError::InvalidCredentials => String::from_str("Invalid API credentials"),
            UpbitError::Timeout => String::from_str("Request timeout"),
        }
    }
}

/// The error type shared by every component of the trading system.
#[derive(Debug, Clone, PartialEq)]
pub enum TradingError {
    /// An exchange client error.
    UpbitApi(UpbitError),
    /// A durable-storage error.
    Database(String),
    /// A configuration error.
    Config(String),
    /// The local request rate limit was exceeded.
    RateLimitExceeded,
    /// The account balance does not cover the required amount, in KRW.
    InsufficientBalance { required: u64, available: u64 },
    /// An order was rejected or could not be placed.
    OrderFailed(String),
    /// A streaming-connection error.
    WebSocket(String),
    /// A notification could not be delivered.
    DiscordNotification(String),
    /// Authentication failed.
    Authentication(String),
    /// A payload could not be parsed.
    Parse(String),
    /// An argument was rejected.
    InvalidParameter(String),
    /// A risk-management error.
    RiskManagement(String),
    /// An input/output error, carried as text.
    Io(String),
}

impl TradingError {
    /// Which errors are transient: rate limits, stream errors, and the
    /// exchange-client errors of the network kind (a failed request, a
    /// timeout, the exchange's own rate limit). Rejected credentials, a
    /// failed token creation, an unparseable response and an exchange error
    /// answer are fatal.
    pub open spec fn spec_is_retryable(&self) -> bool {
        match self {
            TradingError::RateLimitExceeded => true,
            TradingError::WebSocket(_) => true,
            TradingError::UpbitApi(e) => match e {
                UpbitError::RateLimitError => true,
                UpbitError::RequestFailed(_) => true,
                UpbitError::Timeout => true,
                _ => false,
            },
            _ => false,
        }
    }

    /// True exactly for the transient errors that a bounded retry loop may
    /// try again, as `spec_is_retryable` states them.
    pub fn is_retryable(&self) -> (r: bool)
        ensures
            r == self.spec_is_retryable(),
    {
        match self {
            TradingError::RateLimitExceeded => true,
            TradingError::WebSocket(_) => true,
            TradingError::UpbitApi(e) => match e {
                UpbitError::RateLimitError => true,
                UpbitError::RequestFailed(_) => true,
                UpbitError::Timeout => true,
                _ => false,
            },
            _ => false,
        }
    }

    /// The base retry delay in milliseconds: five seconds after a rate
    /// limit, one second after an exchange-client error, two seconds after a
    /// stream error, zero for errors that are never retried.
    pub open spec fn spec_retry_delay(&self) -> u64 {
        match self {
            TradingError::RateLimitExceeded => 5000u64,
            TradingError::UpbitApi(_) => 1000u64,
            TradingError::WebSocket(_) => 2000u64,
            _ => 0u64,
        }
    }

    /// The base delay in milliseconds before this error is retried; zero for
    /// errors that are never retried.
    pub fn retry_delay(&self) -> (r: u64)
        ensures
            r == self.spec_retry_delay(),
    {
        match self {
            TradingError::RateLimitExceeded => 5000,
            TradingError::UpbitApi(_) => 1000,
            TradingError::WebSocket(_) => 2000,
            _ => 0,
        }
    }

    /// The error's message, as the operator sees it.
    pub fn message(&self) -> (r: String)
        ensures
            self matches TradingError::UpbitApi(e) ==> r@ == "Upbit API error: "@
                + e.spec_message(),
            self matches TradingError::Database(s) ==> r@ == "Database error: "@ + s@,
            self matches TradingError::Config(s) ==> r@ == "Configuration error: "@ + s@,
            self is RateLimitExceeded ==> r@ == "Rate limit exceeded"@,
            self matches TradingError::InsufficientBalance { required, available } ==> r@
                == "Insufficient balance: required "@ + spec_decimal(required as int)
                + ", available "@ + spec_decimal(available as int),
            self matches TradingError::OrderFailed(s) ==> r@ == "Order failed: "@ + s@,
            self matches TradingError::WebSocket(s) ==> r@ == "WebSocket error: "@ + s@,
            self matches TradingError::DiscordNotification(s) ==> r@
                == "Discord notification failed: "@ + s@,
            self matches TradingError::Authentication(s) ==> r@ == "Authentication error: "@ + s@,
            self matches TradingError::Parse(s) ==> r@ == "Parse error: "@ + s@,
            self matches TradingError::InvalidParameter(s) ==> r@ == "Invalid parameter: "@ + s@,
            self matches TradingError::RiskManagement(s) ==> r@ == "Risk management error: "@ + s@,
            self matches TradingError::Io(s) ==> r@ == "IO error: "@ + s@,
    {
        match self {
            TradingError::UpbitApi(e) => {
                let mut s = String::from_str("Upbit API error: ");
                let inner = e.message();
                s.append(inner.as_str());
                s
            },
            TradingError::Database(text) => prefixed("Database error: ", text),
            TradingError::Config(text) => prefixed("Configuration error: ", text),
            TradingError::RateLimitExceeded => String::from_str("Rate limit exceeded"),
            TradingError::InsufficientBalance { required, available } => {
                let mut s = String::from_str("Insufficient balance: required ");
                let shown_required = u64_to_string(*required);
                s.append(shown_required.as_str());
                s.append(", available ");
                let shown_available = u64_to_string(*available);
                s.append(shown_available.as_str());
                s
            },
            TradingError::OrderFailed(text) => prefixed("Order failed: ", text),
            TradingError::WebSocket(text) => prefixed("WebSocket error: ", text),
            TradingError::DiscordNotification(text) => prefixed(
                "Discord notification failed: ",
                text,
            ),
            TradingError::Authentication(text) => prefixed("Authentication error: ", text),
            TradingError::Parse(text) => prefixed("Parse error: ", text),
            TradingError::InvalidParameter(text) => prefixed("Invalid parameter: ", text),
            TradingError::RiskManagement(text) => prefixed("Risk management error: ", text),
            TradingError::Io(text) => prefixed("IO error: ", text),
        }
    }
}

/// A prefix literal followed by the carried text.
fn prefixed(prefix: &str, text: &String) -> (r: String)
    ensures
        r@ == prefix@ + text@,
{
    let mut s = String::from_str(prefix);
    s.append(text.as_str());
    s
}

} // verus!
