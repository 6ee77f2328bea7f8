//! The service's settings, as the rest of the library reads them.
use vstd::prelude::*;

verus! {

/// All settings.
#[derive(Debug, Clone, PartialEq, Eq)]
pub struct Config {
    pub homeserver: Homeserver,
    pub webhook_bot: Bot,
    pub web: Web,
}

/// The chat server that the service talks to.
#[derive(Debug, Clone, PartialEq, Eq)]
pub struct Homeserver {
    pub url: String,
    pub domain: String,
}

/// The primary identity.
#[derive(Debug, Clone, PartialEq, Eq)]
pub struct Bot {
    pub localpart: String,
    pub appearance: Appearance,
}

/// How the primary identity shows itself.
#[derive(Debug, Clone, PartialEq, Eq)]
pub struct Appearance {
    pub display_name: String,
    pub avatar_url: String,
}

/// The web side.
#[derive(Debug, Clone, PartialEq, Eq)]
pub struct Web {
    /// The address under which the service is reached from outside.
    pub hook_url_base: String,
}

} // verus!
