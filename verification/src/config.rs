//! The settings that must be present before polling begins.

use vstd::prelude::*;

verus! {

/// A setting that the program cannot start without.
#[derive(Debug, Clone, Copy, PartialEq, Eq)]
pub enum Variable {
    WebhookUrl,
    ProxyUrl,
    ProxyUser,
    ProxyPwd,
    LookForSize,
    ItemUrlKey,
}

impl Variable {
    /// The name under which the setting is looked up in the environment.
    pub open spec fn name_text(self) -> Seq<char> {
        match self {
            Variable::WebhookUrl => "WEBHOOK_URL"@,
            Variable::ProxyUrl => "PROXY"@,
            Variable::ProxyUser => "PROXY_USER"@,
            Variable::ProxyPwd => "PROXY_PWD"@,
            Variable::LookForSize => "LOOK_FOR_SIZE"@,
            Variable::ItemUrlKey => "ITEM_URL_KEY"@,
        }
    }

    /// What is said when the setting is absent.
    pub open spec fn complaint_text(self) -> Seq<char> {
        match self {
            Variable::WebhookUrl => "Webhook url is empty"@,
            Variable::ProxyUrl => "Proxy url is empty"@,
            Variable::ProxyUser => "Proxy user is empty"@,
            Variable::ProxyPwd => "Proxy pwd is empty"@,
            Variable::LookForSize => "look_for_size variable is not set"@,
            Variable::ItemUrlKey => "item_url_key variable is not set"@,
        }
    }

    /// The name under which the setting is looked up in the environment.
    pub fn name(self) -> (name: &'static str)
        ensures
            name@ == self.name_text(),
    {
        match self {
            Variable::WebhookUrl => "WEBHOOK_URL",
            Variable::ProxyUrl => "PROXY",
            Variable::ProxyUser => "PROXY_USER",
            Variable::ProxyPwd => "PROXY_PWD",
            Variable::LookForSize => "LOOK_FOR_SIZE",
            Variable::ItemUrlKey => "ITEM_URL_KEY",
        }
    }

    /// What is said when the setting is absent.
    pub fn complaint(self) -> (text: &'static str)
        ensures
            text@ == self.complaint_text(),
    {
        match self {
            Variable::WebhookUrl => "Webhook url is empty",
            Variable::ProxyUrl => "Proxy url is empty",
            Variable::ProxyUser => "Proxy user is empty",
            Variable::ProxyPwd => "Proxy pwd is empty",
            Variable::LookForSize => "look_for_size variable is not set",
            Variable::ItemUrlKey => "item_url_key variable is not set",
        }
    }
}

/// A setting that the program cannot start without is absent.
#[derive(Debug, Clone, Copy, PartialEq, Eq)]
pub struct ConfigError {
    pub missing: Variable,
}

/// The value of `variable` as it was found, or the error that names
/// `variable` where it was not found.
pub fn require(variable: Variable, found: Option<String>) -> (value: Result<String, ConfigError>)
    ensures
        match found {
            Some(text) => value == Ok::<String, ConfigError>(text),
            None => value == Err::<String, ConfigError>(ConfigError { missing: variable }),
        },
{
    match found {
        Some(text) => Ok(text),
        None => Err(ConfigError { missing: variable }),
    }
}

} // verus!
