//! Composable request/response middleware: admission limiting, retrying,
//! deadline enforcement and restart-on-failure.
//!
//! The decisions each middleware makes are verified here as plain functions
//! and state machines; running them around asynchronous services is left to
//! the caller's executor.

pub mod rate_limit;
pub mod restart;
pub mod retry;
pub mod timeout;

pub use rate_limit::{RateLimit, RateLimitError};
pub use restart::{RestartAction, RestartError, RestartEvent, RestartPhase};
pub use retry::{Retry, RetryStep};
pub use timeout::{Timeout, TimeoutError};
