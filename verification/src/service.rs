//! The backend the pages talk to: its configuration and, per resource, the
//! URLs requests go to.
use vstd::prelude::*;

pub mod material;
pub mod project;
pub mod submission;

verus! {

/// The deployment configuration a page loads at start-up.
#[derive(Clone, Debug)]
pub struct Config {
    pub backend_domain: String,
    pub backend_url: String,
    /// Website the "Back" button leads to.
    pub auth_website: String,
    /// URL that authenticates the user and leads them back to this website
    /// immediately.
    pub auth_url: String,
}

/// The backend's base URL.
pub fn backend(config: &Config) -> (r: String)
    ensures
        r@ == config.backend_url@,
{
    config.backend_url.clone()
}

} // verus!
