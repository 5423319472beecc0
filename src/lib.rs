//! A minimal client core for a push-notification REST endpoint: it frames the
//! outbound message, builds the target URL, parses the `Retry-After` header and
//! classifies the provider's response into a typed result. The transport itself
//! is left to the caller, who performs the request and hands back its status,
//! header and body.

pub mod json;
pub mod request;
pub mod response;
pub mod retry_after;

pub use request::{envelope, request_url, MessageWrapper};
pub use response::{classify, classify_success, reads_body, ErrorReason, FcmError, FcmResponse};
pub use retry_after::{
    month_length, parse_asctime, parse_delay_seconds, parse_http_date, parse_imf_fixdate,
    parse_retry_after, HttpDate, RetryAfter,
};
