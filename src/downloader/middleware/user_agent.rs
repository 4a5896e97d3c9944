//! The User-Agent middleware.
use vstd::prelude::*;

use crate::settings::UserAgentSettings;

verus! {

/// Sets the User-Agent header of each outgoing request.
pub struct UserAgent {
    pub value: String,
}

impl UserAgent {
    pub fn new(value: &str) -> (r: Self)
        ensures
            r.value@ == value@,
    {
        UserAgent { value: value.to_owned() }
    }

    pub fn from_settings(settings: UserAgentSettings) -> (r: Self)
        ensures
            r.value == settings.value,
    {
        UserAgent { value: settings.value }
    }
}

} // verus!
