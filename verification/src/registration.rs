//! The registration that announces the service to the chat server.
use vstd::prelude::*;
use vstd::string::*;
use crate::config::Config;

verus! {

/// Characters in a token: a UUID in its hyphenated form.
pub const TOKEN_LEN: usize = 36;

/// A set of user ids that the service claims.
#[derive(Debug, Clone, PartialEq, Eq)]
pub struct Namespace {
    /// Whether nobody else may register ids of the set.
    pub exclusive: bool,
    pub regex: String,
}

/// The registration's content.
#[derive(Debug, Clone, PartialEq, Eq)]
pub struct Registration {
    pub id: String,
    pub url: String,
    pub hs_token: String,
    pub as_token: String,
    pub sender_localpart: String,
    pub users: Vec<Namespace>,
    pub rate_limited: Option<bool>,
    pub protocols: Option<Vec<String>>,
}

/// The pattern of the user ids that the service claims.
pub open spec fn user_pattern() -> Seq<char> {
    "@_webhook.*"@
}

/// Whether `r` is the registration for these settings, address and localpart
/// with the given id and tokens: the sender is `localpart` where it is given
/// and the configured primary localpart where not; the service claims the
/// webhook ids for itself alone, is not rate limited, and names no protocols.
pub open spec fn is_registration_for(
    r: Registration,
    config: Config,
    url: Seq<char>,
    localpart: Option<String>,
    id: Seq<char>,
    hs_token: Seq<char>,
    as_token: Seq<char>,
) -> bool {
    &&& r.id@ == id
    &&& r.url@ == url
    &&& r.hs_token@ == hs_token
    &&& r.as_token@ == as_token
    &&& r.sender_localpart@ == match localpart {
        Some(l) => l@,
        None => config.webhook_bot.localpart@,
    }
    &&& r.users@.len() == 1
    &&& r.users@[0].exclusive
    &&& r.users@[0].regex@ == user_pattern()
    &&& r.rate_limited == Some(false)
    &&& r.protocols is None
}

/// `uuid::Uuid::new_v4`, written out by its `Display`. Trusted: the text is
/// 36 characters long. Each call draws a new random value, so nothing more is
/// said of it.
#[verifier::external_body]
fn fresh_token() -> (token: String)
    ensures
        token@.len() == TOKEN_LEN,
{
    uuid::Uuid::new_v4().to_string()
}

/// The registration for these settings with the given id and tokens.
pub fn registration_with(
    config: &Config,
    url: &str,
    localpart: &Option<String>,
    id: String,
    hs_token: String,
    as_token: String,
) -> (r: Registration)
    ensures
        is_registration_for(r, *config, url@, *localpart, id@, hs_token@, as_token@),
{
    let sender_localpart = match localpart {
        Some(l) => l.clone(),
        None => config.webhook_bot.localpart.clone(),
    };
    let mut users: Vec<Namespace> = Vec::new();
    users.push(Namespace { exclusive: true, regex: "@_webhook.*".to_owned() });
    Registration {
        id,
        url: url.to_owned(),
        hs_token,
        as_token,
        sender_localpart,
        users,
        rate_limited: Some(false),
        protocols: None,
    }
}

/// A new registration for these settings: its id and its two tokens are
/// freshly drawn, 36 characters each; the rest is as `is_registration_for`
/// says.
pub fn generate_registration(config: &Config, url: &str, localpart: &Option<String>) -> (r:
    Registration)
    ensures
        is_registration_for(r, *config, url@, *localpart, r.id@, r.hs_token@, r.as_token@),
        r.id@.len() == TOKEN_LEN,
        r.hs_token@.len() == TOKEN_LEN,
        r.as_token@.len() == TOKEN_LEN,
{
    let id = fresh_token();
    let hs_token = fresh_token();
    let as_token = fresh_token();
    registration_with(config, url, localpart, id, hs_token, as_token)
}

} // verus!
