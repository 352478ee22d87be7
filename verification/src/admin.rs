//! Command-line helpers: API keys of the admin tool, the text of a node's
//! last-seen time, and the registration a daemon is addressed by.
use vstd::prelude::*;

use crate::node::{NodeStateStore, NodeStorage};
use crate::types::NodeInfo;
use crate::text::{
    decimal_digits, decimal_string, int_text, int_to_text, find_char, index_of, owned, starts_with, starts_with_text,
    text_eq, trim_text, trimmed,
};

verus! {

/// Why an API key does not parse.
#[derive(Debug, Clone, Copy, PartialEq, Eq, Structural)]
pub enum ApiKeyError {
    MissingPrefix,
    InvalidFormat,
    EmptyEnvironment,
}

impl ApiKeyError {
    /// The error's message.
    pub fn message(&self) -> (r: &'static str)
        ensures
            r@ == api_key_error_text(*self),
    {
        match self {
            ApiKeyError::MissingPrefix => "API key must start with 'wc_'",
            ApiKeyError::InvalidFormat => "invalid API key format",
            ApiKeyError::EmptyEnvironment => "API key environment is empty",
        }
    }
}

/// The message of an API key error.
pub open spec fn api_key_error_text(e: ApiKeyError) -> Seq<char> {
    match e {
        ApiKeyError::MissingPrefix => "API key must start with 'wc_'"@,
        ApiKeyError::InvalidFormat => "invalid API key format"@,
        ApiKeyError::EmptyEnvironment => "API key environment is empty"@,
    }
}

/// The environment that an API key `wc_{env}_{id}.{secret}` names, after
/// white space is trimmed.
pub open spec fn api_key_env(raw: Seq<char>) -> Result<Seq<char>, ApiKeyError> {
    let t = trimmed(raw);
    if !starts_with(t, "wc_"@) {
        Err(ApiKeyError::MissingPrefix)
    } else {
        let rest = t.skip(3);
        match index_of(rest, '_') {
            None => Err(ApiKeyError::InvalidFormat),
            Some(k) => if k == 0 {
                Err(ApiKeyError::EmptyEnvironment)
            } else {
                Ok(rest.take(k))
            },
        }
    }
}

/// The base URL of an environment (staging for one it does not know).
pub open spec fn env_base_url(env: Seq<char>) -> Seq<char> {
    if env == "local"@ {
        "http://localhost:3000"@
    } else if env == "prod"@ {
        "https://connect.wispers.dev"@
    } else {
        "https://staging.connect.wispers.dev"@
    }
}

/// Parsed API key with extracted environment.
pub struct ApiKey {
    env: String,
}

impl ApiKey {
    /// The key's environment.
    pub closed spec fn env_text(&self) -> Seq<char> {
        self.env@
    }

    /// Parse an API key in the format `wc_{env}_{id}.{secret}`.
    pub fn parse(raw: &str) -> (r: Result<Self, ApiKeyError>)
        ensures
            match api_key_env(raw@) {
                Ok(env) => r matches Ok(k) && k.env_text() == env,
                Err(e) => r matches Err(x) && x == e,
            },
    {
        let t = trim_text(raw);
        if !starts_with_text(t, "wc_") {
            return Err(ApiKeyError::MissingPrefix);
        }
        proof {
            reveal_strlit("wc_");
        }
        let rest = t.substring_char(3, t.unicode_len());
        assert(rest@ =~= t@.skip(3));
        let pos = match find_char(rest, '_') {
            Some(p) => p,
            None => {
                return Err(ApiKeyError::InvalidFormat);
            },
        };
        if pos == 0 {
            return Err(ApiKeyError::EmptyEnvironment);
        }
        let env = rest.substring_char(0, pos);
        assert(env@ =~= rest@.take(pos as int));
        Ok(ApiKey { env: owned(env) })
    }

    /// The environment's name.
    pub fn env(&self) -> (r: &str)
        ensures
            r@ == self.env_text(),
    {
        self.env.as_str()
    }

    /// Whether the environment is one of local, staging and prod.
    pub fn is_known_environment(&self) -> (r: bool)
        ensures
            r == (self.env_text() == "local"@ || self.env_text() == "staging"@ || self.env_text()
                == "prod"@),
    {
        let e = self.env.as_str();
        text_eq(e, "local") || text_eq(e, "staging") || text_eq(e, "prod")
    }

    /// Map the environment to a base URL.
    pub fn base_url(&self) -> (r: String)
        ensures
            r@ == env_base_url(self.env_text()),
    {
        let e = self.env.as_str();
        if text_eq(e, "local") {
            owned("http://localhost:3000")
        } else if text_eq(e, "prod") {
            owned("https://connect.wispers.dev")
        } else {
            owned("https://staging.connect.wispers.dev")
        }
    }
}

/// The text of a node's last-seen time, `millis` milliseconds after the
/// epoch, at time `now`.
pub open spec fn last_seen_text(millis: i64, now: i64) -> Seq<char> {
    let ago_ms = now - millis;
    if millis == 0 {
        "never connected"@
    } else if ago_ms < 0 || ago_ms / 1000 < 60 {
        "connected just now"@
    } else if ago_ms / 60000 < 60 {
        "connected "@ + decimal_digits((ago_ms / 60000) as nat) + "m ago"@
    } else if ago_ms / 3600000 < 24 {
        "connected "@ + decimal_digits((ago_ms / 3600000) as nat) + "h ago"@
    } else {
        "connected "@ + decimal_digits((ago_ms / 86400000) as nat) + "d ago"@
    }
}

/// The text of a node's last-seen time.
pub fn format_last_seen(millis: i64, now_millis: i64) -> (r: String)
    requires
        i64::MIN <= now_millis - millis <= i64::MAX,
    ensures
        r@ == last_seen_text(millis, now_millis),
{
    if millis == 0 {
        return owned("never connected");
    }
    let ago_ms = now_millis - millis;
    if ago_ms < 0 {
        return owned("connected just now");
    }
    let ago_secs = ago_ms / 1000;
    if ago_secs < 60 {
        return owned("connected just now");
    }
    let ago_mins = ago_secs / 60;
    assert(ago_mins == ago_ms / 60000) by (nonlinear_arith)
        requires
            ago_ms >= 0,
            ago_secs == ago_ms / 1000,
            ago_mins == ago_secs / 60,
    ;
    if ago_mins < 60 {
        let mut r = owned("connected ");
        let d = decimal_string(ago_mins as u64);
        r.append(d.as_str());
        r.append("m ago");
        return r;
    }
    let ago_hours = ago_mins / 60;
    assert(ago_hours == ago_ms / 3600000) by (nonlinear_arith)
        requires
            ago_ms >= 0,
            ago_mins == ago_ms / 60000,
            ago_hours == ago_mins / 60,
    ;
    if ago_hours < 24 {
        let mut r = owned("connected ");
        let d = decimal_string(ago_hours as u64);
        r.append(d.as_str());
        r.append("h ago");
        return r;
    }
    let ago_days = ago_hours / 24;
    assert(ago_days == ago_ms / 86400000) by (nonlinear_arith)
        requires
            ago_ms >= 0,
            ago_hours == ago_ms / 3600000,
            ago_days == ago_hours / 24,
    ;
    let mut r = owned("connected ");
    let d = decimal_string(ago_days as u64);
    r.append(d.as_str());
    r.append("d ago");
    r
}

/// The tags after a node's name in a listing.
pub open spec fn node_tags_text(is_self: bool, is_activated: Option<bool>) -> Seq<char> {
    match (is_self, is_activated) {
        (false, None) => ""@,
        (true, None) => " (you)"@,
        (false, Some(true)) => " (activated)"@,
        (false, Some(false)) => " (not activated)"@,
        (true, Some(true)) => " (you, activated)"@,
        (true, Some(false)) => " (you, not activated)"@,
    }
}

/// A node's line in the listing of its group at time `now`: its number,
/// its name (or "(unnamed)"), its tags, and whether it is online or when
/// it was last seen.
pub open spec fn node_line_text(info: NodeInfo, now: i64) -> Seq<char> {
    let name = if info.name@.len() == 0 {
        "(unnamed)"@
    } else {
        info.name@
    };
    let status = if info.is_online {
        "online"@
    } else {
        last_seen_text(info.last_seen_at_millis, now)
    };
    "  "@ + int_text(info.node_number as int) + ": "@ + name + node_tags_text(
        info.is_self,
        info.is_activated,
    ) + " - "@ + status
}

/// The tags after a node's name in a listing.
pub fn node_tags(is_self: bool, is_activated: Option<bool>) -> (r: &'static str)
    ensures
        r@ == node_tags_text(is_self, is_activated),
{
    match (is_self, is_activated) {
        (false, None) => "",
        (true, None) => " (you)",
        (false, Some(true)) => " (activated)",
        (false, Some(false)) => " (not activated)",
        (true, Some(true)) => " (you, activated)",
        (true, Some(false)) => " (you, not activated)",
    }
}

/// A node's line in the listing of its group at time `now_millis`.
pub fn node_line(info: &NodeInfo, now_millis: i64) -> (r: String)
    requires
        !info.is_online ==> i64::MIN <= now_millis - info.last_seen_at_millis <= i64::MAX,
    ensures
        r@ == node_line_text(*info, now_millis),
{
    let mut r = owned("  ");
    let number = int_to_text(info.node_number as i64);
    r.append(number.as_str());
    r.append(": ");
    if info.name.as_str().unicode_len() == 0 {
        r.append("(unnamed)");
    } else {
        r.append(info.name.as_str());
    }
    r.append(node_tags(info.is_self, info.is_activated));
    r.append(" - ");
    if info.is_online {
        r.append("online");
    } else {
        let seen = format_last_seen(info.last_seen_at_millis, now_millis);
        r.append(seen.as_str());
    }
    r
}

/// Why the registration cannot be read.
#[derive(Debug, Clone, Copy, PartialEq, Eq, Structural)]
pub enum ReadRegistrationError {
    /// The store failed.
    ReadFailed,
    /// The node is not registered.
    NotRegistered,
}

/// The connectivity group and node number of the stored registration.
pub fn read_registration_sync<S: NodeStateStore>(storage: &NodeStorage<S>) -> (r: Result<
    (String, i32),
    ReadRegistrationError,
>)
    ensures
        r matches Ok((g, n)) ==> storage.stored() matches Some(p) && p.registration matches Some(
            reg,
        ) && g@ == reg.connectivity_group_id && n == reg.node_number,
        r matches Err(ReadRegistrationError::NotRegistered) ==> storage.stored() is None
            || storage.stored()->0.registration is None,
{
    let reg = match storage.read_registration() {
        Ok(Some(reg)) => reg,
        Ok(None) => {
            return Err(ReadRegistrationError::NotRegistered);
        },
        Err(_) => {
            return Err(ReadRegistrationError::ReadFailed);
        },
    };
    Ok((owned(reg.group_id().as_str()), reg.number()))
}

} // verus!
