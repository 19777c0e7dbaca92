//! Shared configuration.

use vstd::prelude::*;

verus! {

/// The API that the app talks to, unless told otherwise.
pub const DEFAULT_API_BASE: &'static str = "https://api.pixelvault.dev";

/// The environment variable that names another API.
pub const API_BASE_VARIABLE: &'static str = "PIXELVAULT_API_BASE";

/// The API base URL. `chosen` is what `API_BASE_VARIABLE` holds, if it is set.
pub fn api_base(chosen: Option<String>) -> (r: String)
    ensures
        r@ == match chosen {
            Some(base) => base@,
            None => DEFAULT_API_BASE@,
        },
{
    match chosen {
        Some(base) => base,
        None => DEFAULT_API_BASE.to_owned(),
    }
}

/// The API and the variable that overrides it.
pub proof fn the_api_is_that_of_pixelvault()
    ensures
        DEFAULT_API_BASE@ == "https://api.pixelvault.dev"@,
        API_BASE_VARIABLE@ == "PIXELVAULT_API_BASE"@,
{
}

/// A chosen API is used as it is; without one the default is.
pub proof fn a_chosen_api_is_used(chosen: String, with: String, without: String)
    requires
        call_ensures(api_base, (Some(chosen),), with),
        call_ensures(api_base, (None::<String>,), without),
    ensures
        with@ == chosen@,
        without@ == "https://api.pixelvault.dev"@,
{
}

} // verus!
