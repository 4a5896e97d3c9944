//! Downloader middleware: settings-driven adjustments of outgoing requests.
use vstd::prelude::*;

pub mod proxy;
pub mod user_agent;

pub use crate::downloader::middleware::proxy::Proxy;
pub use crate::downloader::middleware::user_agent::UserAgent;

verus! {

} // verus!
