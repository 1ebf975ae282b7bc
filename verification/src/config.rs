//! The secrets an invocation depends on, and what their absence is called.

use vstd::prelude::*;

verus! {

/// A secret the host's configuration store is asked for.
#[derive(Clone, Copy, Debug, PartialEq, Eq)]
pub enum Secret {
    /// The bot's API token. Every route needs it.
    BotToken,
    /// The address to register as the bot's webhook.
    WebhookUrl,
}

impl Secret {
    /// The name under which the configuration store holds the secret.
    pub open spec fn spec_name(self) -> Seq<char> {
        match self {
            Secret::BotToken => "BOT_TOKEN"@,
            Secret::WebhookUrl => "WEBHOOK_URL"@,
        }
    }

    /// The name under which the configuration store holds the secret.
    pub fn name(self) -> (name: &'static str)
        ensures
            name@ == self.spec_name(),
    {
        match self {
            Secret::BotToken => "BOT_TOKEN",
            Secret::WebhookUrl => "WEBHOOK_URL",
        }
    }
}

/// A deployment fault: a secret that a route needs is not configured.
///
/// It is no runtime failure of the webhook path and is never turned into an
/// acknowledgment.
#[derive(Clone, Copy, Debug, PartialEq, Eq)]
pub struct ConfigError {
    /// The secret that is missing.
    pub missing: Secret,
}

} // verus!
