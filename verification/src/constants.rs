//! Fixed values of the application.

use vstd::prelude::*;

verus! {

/// The fixed values that the user interface asks for.
pub struct AppConstants;

impl AppConstants {
    /// Where the project lives.
    pub const GITHUB_REPO_URL: &'static str = "https://github.com/jell0w/amd-freq-guard";

    /// The project's name at the release service.
    pub const GITHUB_API_REPO: &'static str = "jell0w/amd-freq-guard";

    /// The version of the terms of service that the user has to accept.
    pub const CURRENT_TERMS_OF_SERVICE_VERSION: u32 = 1;

    /// Whether the user has accepted the terms of service in force.
    pub fn terms_accepted(accepted_terms_of_service: u64) -> (r: bool)
        ensures
            r == (accepted_terms_of_service >= 1),
    {
        accepted_terms_of_service >= 1
    }
}

} // verus!
