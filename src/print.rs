//! Console output of responses and items while a crawl runs.
use vstd::prelude::*;

use crate::settings::PrintSettings;

verus! {

/// Prints responses (as downloader middleware) and items (as a pipeline element),
/// cropping long fields.
pub struct Print {
    /// The longest field printed in full; 0 prints every field in full.
    pub max_len: usize,
}

impl Print {
    pub fn new(max_len: usize) -> (r: Self)
        ensures
            r.max_len == max_len,
    {
        Print { max_len }
    }

    pub fn from_settings(settings: PrintSettings) -> (r: Self)
        ensures
            r.max_len == settings.max_len,
    {
        Print { max_len: settings.max_len }
    }
}

} // verus!
