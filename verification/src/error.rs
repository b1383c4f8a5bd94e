//! What can go wrong when the configuration is changed.

use vstd::prelude::*;
use vstd::string::*;

verus! {

/// Why a request was turned down. A request that fails changes nothing.
#[derive(Debug)]
pub enum ConfigError {
    /// A `.set` line that does not consist of a key and a value.
    Usage,
    /// A `.set` line with a key that names no setting.
    UnknownKey(String),
    /// A value that is neither `null` nor of the setting's type.
    InvalidValue(String),
    /// A value for an on/off setting that is neither `true` nor `false`.
    InvalidSwitch,
    /// A model identifier that is not in the catalog.
    NoModel(String),
    /// An empty catalog where a default model was needed.
    NoAvailableModel,
    /// A session was to be started while another one was active.
    AlreadyInSession,
}

pub enum ConfigErrorView {
    Usage,
    UnknownKey(Seq<char>),
    InvalidValue(Seq<char>),
    InvalidSwitch,
    NoModel(Seq<char>),
    NoAvailableModel,
    AlreadyInSession,
}

impl View for ConfigError {
    type V = ConfigErrorView;

    open spec fn view(&self) -> ConfigErrorView {
        match self {
            ConfigError::Usage => ConfigErrorView::Usage,
            ConfigError::UnknownKey(key) => ConfigErrorView::UnknownKey(key@),
            ConfigError::InvalidValue(value) => ConfigErrorView::InvalidValue(value@),
            ConfigError::InvalidSwitch => ConfigErrorView::InvalidSwitch,
            ConfigError::NoModel(id) => ConfigErrorView::NoModel(id@),
            ConfigError::NoAvailableModel => ConfigErrorView::NoAvailableModel,
            ConfigError::AlreadyInSession => ConfigErrorView::AlreadyInSession,
        }
    }
}

impl ConfigErrorView {
    /// The text shown to the user.
    pub open spec fn message(self) -> Seq<char> {
        match self {
            ConfigErrorView::Usage => "Usage: .set <key> <value>. If value is null, unset key."@,
            ConfigErrorView::UnknownKey(key) => "Unknown key `"@ + key + "`"@,
            ConfigErrorView::InvalidValue(value) => "Invalid value '"@ + value + "'"@,
            ConfigErrorView::InvalidSwitch => "Invalid value"@,
            ConfigErrorView::NoModel(id) => "No model '"@ + id + "'"@,
            ConfigErrorView::NoAvailableModel => "No available model"@,
            ConfigErrorView::AlreadyInSession =>
                "Already in a session, please run '.exit session' first to exit the current session."@,
        }
    }
}

fn quoted(before: &str, inner: &str, after: &str) -> (r: String)
    ensures
        r@ == before@ + inner@ + after@,
{
    let mut r = before.to_owned();
    r.append(inner);
    r.append(after);
    r
}

impl ConfigError {
    /// The text shown to the user.
    pub fn message(&self) -> (r: String)
        ensures
            r@ == self@.message(),
    {
        match self {
            ConfigError::Usage => "Usage: .set <key> <value>. If value is null, unset key.".to_owned(),
            ConfigError::UnknownKey(key) => quoted("Unknown key `", key.as_str(), "`"),
            ConfigError::InvalidValue(value) => quoted("Invalid value '", value.as_str(), "'"),
            ConfigError::InvalidSwitch => "Invalid value".to_owned(),
            ConfigError::NoModel(id) => quoted("No model '", id.as_str(), "'"),
            ConfigError::NoAvailableModel => "No available model".to_owned(),
            ConfigError::AlreadyInSession =>
                "Already in a session, please run '.exit session' first to exit the current session.".to_owned(),
        }
    }
}

} // verus!
