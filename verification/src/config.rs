//! What the updater is started with: credentials, the record to keep up to
//! date and the pause between two cycles.

use vstd::prelude::*;
use vstd::string::*;
use crate::error::ErrorKind;
use crate::interval::{effective_interval, interval_of};

verus! {

/// How the updater identifies itself to the DNS provider.
#[derive(Clone, Debug, PartialEq, Eq)]
pub enum Credentials {
    /// An account's email address with its API key.
    UserAuthKey { email: String, key: String },
    /// An API token, which stands alone.
    UserAuthToken { token: String },
}

/// The settings as they were given, each one present or not.
#[derive(Clone, Debug, PartialEq, Eq)]
pub struct RawSettings {
    pub email: Option<String>,
    pub auth_key: Option<String>,
    pub auth_token: Option<String>,
    pub zone_id: Option<String>,
    pub record_id: Option<String>,
    pub record_name: Option<String>,
    pub interval: Option<String>,
}

/// The settings that a run works with.
#[derive(Clone, Debug, PartialEq, Eq)]
pub struct Settings {
    pub credentials: Credentials,
    pub zone_id: String,
    pub record_id: String,
    pub record_name: String,
    pub interval: u64,
}

/// Whether exactly one way of authenticating was given: the email address
/// together with its key and no token, or the token and neither of the two.
pub open spec fn credentials_given(
    email: Option<String>,
    key: Option<String>,
    token: Option<String>,
) -> bool {
    ||| (email is Some && key is Some && token is None)
    ||| (email is None && key is None && token is Some)
}

/// The credentials that the three optional inputs select.
pub open spec fn credentials_of(
    email: Option<String>,
    key: Option<String>,
    token: Option<String>,
) -> Result<Credentials, ErrorKind> {
    if email is Some && key is Some && token is None {
        Ok(Credentials::UserAuthKey { email: email->0, key: key->0 })
    } else if email is None && key is None && token is Some {
        Ok(Credentials::UserAuthToken { token: token->0 })
    } else {
        Err(ErrorKind::ConfigError)
    }
}

/// The bytes of an optional text.
pub open spec fn text_bytes(text: Option<String>) -> Option<Seq<u8>> {
    match text {
        Some(s) => Some(vstd::utf8::encode_utf8(s@)),
        None => None,
    }
}

/// The settings that the given inputs amount to: a configuration error where
/// the credentials are not given in exactly one way or an identifier of the
/// record is missing.
pub open spec fn settings_of(raw: RawSettings) -> Result<Settings, ErrorKind> {
    match credentials_of(raw.email, raw.auth_key, raw.auth_token) {
        Ok(credentials) => if raw.zone_id is Some && raw.record_id is Some
            && raw.record_name is Some {
            Ok(
                Settings {
                    credentials,
                    zone_id: raw.zone_id->0,
                    record_id: raw.record_id->0,
                    record_name: raw.record_name->0,
                    interval: interval_of(text_bytes(raw.interval)),
                },
            )
        } else {
            Err(ErrorKind::ConfigError)
        },
        Err(e) => Err(e),
    }
}

/// Chooses the credentials from the three optional inputs.
///
/// An email address and a key without a token give the pair; a token alone
/// gives the token. Everything else is a configuration error: nothing given,
/// half a pair, or a token beside any part of a pair.
pub fn select_credentials(
    email: Option<String>,
    key: Option<String>,
    token: Option<String>,
) -> (r: Result<Credentials, ErrorKind>)
    ensures
        r == credentials_of(email, key, token),
        r is Ok <==> credentials_given(email, key, token),
        token is Some && (email is Some || key is Some) ==> r == Err::<Credentials, ErrorKind>(
            ErrorKind::ConfigError,
        ),
{
    match (email, key, token) {
        (Some(email), Some(key), None) => Ok(Credentials::UserAuthKey { email, key }),
        (None, None, Some(token)) => Ok(Credentials::UserAuthToken { token }),
        _ => Err(ErrorKind::ConfigError),
    }
}

/// Turns the given inputs into the settings of a run.
pub fn load_settings(raw: RawSettings) -> (r: Result<Settings, ErrorKind>)
    ensures
        r == settings_of(raw),
        r is Ok <==> credentials_given(raw.email, raw.auth_key, raw.auth_token) && raw.zone_id
            is Some && raw.record_id is Some && raw.record_name is Some,
        r is Err ==> r->Err_0 == ErrorKind::ConfigError,
{
    let interval = match &raw.interval {
        Some(text) => effective_interval(Some(text.as_str())),
        None => effective_interval(None),
    };
    let credentials = match select_credentials(raw.email, raw.auth_key, raw.auth_token) {
        Ok(credentials) => credentials,
        Err(e) => { return Err(e); },
    };
    match (raw.zone_id, raw.record_id, raw.record_name) {
        (Some(zone_id), Some(record_id), Some(record_name)) => Ok(
            Settings { credentials, zone_id, record_id, record_name, interval },
        ),
        _ => Err(ErrorKind::ConfigError),
    }
}

/// A token given beside an email address or a key never yields settings,
/// whatever else is given.
pub proof fn lemma_conflicting_credentials_rejected(raw: RawSettings)
    requires
        raw.auth_token is Some,
        raw.email is Some || raw.auth_key is Some,
    ensures
        settings_of(raw) == Err::<Settings, ErrorKind>(ErrorKind::ConfigError),
{
}

} // verus!
