//! The persisted configuration: the credential triple plus a user-visible
//! error string, and the rule deciding when a configuration change warrants
//! a reconnect.

use vstd::prelude::*;

verus! {

/// The configuration the host persists for the plugin: the credential triple
/// used to build a connection, plus an optional user-visible error string.
pub struct DiscordSettings {
    pub client_id: String,
    pub client_secret: String,
    pub access_token: String,
    pub error: Option<String>,
}

/// A required credential field is empty, so no connection can be built.
pub open spec fn credentials_missing(s: &DiscordSettings) -> bool {
    s.client_id@.len() == 0 || s.client_secret@.len() == 0
}

/// A newly received configuration warrants a reconnect when any credential
/// field differs from the stored one, or when the stored configuration is
/// still incomplete.
pub open spec fn spec_settings_changed(cur: &DiscordSettings, new: &DiscordSettings) -> bool {
    ||| cur.client_id@ != new.client_id@
    ||| cur.client_secret@ != new.client_secret@
    ||| cur.access_token@ != new.access_token@
    ||| cur.client_id@.len() == 0
    ||| cur.client_secret@.len() == 0
    ||| cur.access_token@.len() == 0
}

/// The stored error is exactly the given string.
pub open spec fn error_is(s: &DiscordSettings, msg: Seq<char>) -> bool {
    match s.error {
        Some(e) => e@ == msg,
        None => false,
    }
}

/// The credential triple is unchanged between two configurations.
pub open spec fn same_credentials(a: &DiscordSettings, b: &DiscordSettings) -> bool {
    a.client_id == b.client_id && a.client_secret == b.client_secret && a.access_token
        == b.access_token
}

impl DiscordSettings {
    /// The empty configuration: every field blank, no error recorded.
    pub fn new() -> (r: DiscordSettings)
        ensures
            r.client_id@ == Seq::<char>::empty(),
            r.client_secret@ == Seq::<char>::empty(),
            r.access_token@ == Seq::<char>::empty(),
            r.error is None,
    {
        DiscordSettings {
            client_id: String::new(),
            client_secret: String::new(),
            access_token: String::new(),
            error: None,
        }
    }
}

impl Clone for DiscordSettings {
    fn clone(&self) -> (r: Self)
        ensures
            r == *self,
    {
        DiscordSettings {
            client_id: self.client_id.clone(),
            client_secret: self.client_secret.clone(),
            access_token: self.access_token.clone(),
            error: match &self.error {
                Some(e) => Some(e.clone()),
                None => None,
            },
        }
    }
}

impl Default for DiscordSettings {
    fn default() -> (r: Self)
        ensures
            r.client_id@ == Seq::<char>::empty(),
            r.client_secret@ == Seq::<char>::empty(),
            r.access_token@ == Seq::<char>::empty(),
            r.error is None,
    {
        DiscordSettings::new()
    }
}

/// Tests whether a required credential field is empty.
pub fn has_missing_credentials(s: &DiscordSettings) -> (r: bool)
    ensures
        r == credentials_missing(s),
{
    s.client_id.as_str().is_empty() || s.client_secret.as_str().is_empty()
}

/// Decides whether a configuration received from the host differs from the
/// stored one in a way that warrants rebuilding the connection.
pub fn settings_changed(cur: &DiscordSettings, new: &DiscordSettings) -> (r: bool)
    ensures
        r == spec_settings_changed(cur, new),
{
    !(cur.client_id == new.client_id)
        || !(cur.client_secret == new.client_secret)
        || !(cur.access_token == new.access_token)
        || cur.client_id.as_str().is_empty()
        || cur.client_secret.as_str().is_empty()
        || cur.access_token.as_str().is_empty()
}

} // verus!
