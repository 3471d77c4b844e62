//! The relay's configuration: three values, all required, read once when the
//! process starts. A value that is missing or unusable keeps the relay from
//! starting.

use crate::channel::{channel_id_of, parse_channel_id, ChannelReference};
use crate::tick::{JobRun, JobRunView};
use vstd::prelude::*;

verus! {

/// What the relay needs to know before it starts.
#[derive(Debug, Clone, PartialEq, Eq)]
pub struct Config {
    /// The token that authenticates the relay to the chat platform.
    pub token: String,
    /// The channel that gets the posts.
    pub channel: ChannelReference,
    /// Where the feed is.
    pub feed_url: String,
}

pub struct ConfigView {
    pub token: Seq<char>,
    pub channel: ChannelReference,
    pub feed_url: Seq<char>,
}

impl View for Config {
    type V = ConfigView;

    open spec fn view(&self) -> ConfigView {
        ConfigView { token: self.token@, channel: self.channel, feed_url: self.feed_url@ }
    }
}

/// Why the relay cannot start.
#[derive(Debug, Clone, Copy, PartialEq, Eq, Structural)]
pub enum ConfigError {
    MissingToken,
    MissingChannelId,
    MissingFeedUrl,
    /// The channel identifier is set, but it is no decimal number of 64 bits.
    InvalidChannelId,
}

impl ConfigError {
    pub open spec fn message_text(self) -> Seq<char> {
        match self {
            ConfigError::MissingToken => "missing DISCORD_TOKEN"@,
            ConfigError::MissingChannelId => "missing CHANNEL_ID"@,
            ConfigError::MissingFeedUrl => "Missing RSS_URL env var"@,
            ConfigError::InvalidChannelId => "CHANNEL_ID is not a channel identifier"@,
        }
    }

    /// What the process says as it gives up.
    pub fn message(&self) -> (text: &'static str)
        ensures
            text@ == self.message_text(),
    {
        match self {
            ConfigError::MissingToken => "missing DISCORD_TOKEN",
            ConfigError::MissingChannelId => "missing CHANNEL_ID",
            ConfigError::MissingFeedUrl => "Missing RSS_URL env var",
            ConfigError::InvalidChannelId => "CHANNEL_ID is not a channel identifier",
        }
    }
}

/// The configuration that three settings give, each of them set or not. What
/// is missing is reported first, the token before the channel identifier
/// before the feed's URL; then the identifier must name a channel.
pub open spec fn config_of(
    token: Option<Seq<char>>,
    channel_id: Option<Seq<char>>,
    feed_url: Option<Seq<char>>,
) -> Result<ConfigView, ConfigError> {
    if token is None {
        Err(ConfigError::MissingToken)
    } else if channel_id is None {
        Err(ConfigError::MissingChannelId)
    } else if feed_url is None {
        Err(ConfigError::MissingFeedUrl)
    } else {
        match channel_id_of(channel_id->0) {
            None => Err(ConfigError::InvalidChannelId),
            Some(id) => Ok(
                ConfigView {
                    token: token->0,
                    channel: ChannelReference { id },
                    feed_url: feed_url->0,
                },
            ),
        }
    }
}

impl Config {
    /// Builds the configuration from the three settings as the environment
    /// holds them.
    pub fn load(token: Option<String>, channel_id: Option<String>, feed_url: Option<String>) -> (r:
        Result<Config, ConfigError>)
        ensures
            match r {
                Ok(config) => config_of(
                    token.deep_view(),
                    channel_id.deep_view(),
                    feed_url.deep_view(),
                ) == Ok::<ConfigView, ConfigError>(config@),
                Err(e) => config_of(token.deep_view(), channel_id.deep_view(), feed_url.deep_view())
                    == Err::<ConfigView, ConfigError>(e),
            },
    {
        let token = match token {
            Some(token) => token,
            None => {
                return Err(ConfigError::MissingToken);
            },
        };
        let channel_id = match channel_id {
            Some(channel_id) => channel_id,
            None => {
                return Err(ConfigError::MissingChannelId);
            },
        };
        let feed_url = match feed_url {
            Some(feed_url) => feed_url,
            None => {
                return Err(ConfigError::MissingFeedUrl);
            },
        };
        match parse_channel_id(channel_id.as_str()) {
            None => Err(ConfigError::InvalidChannelId),
            Some(channel) => Ok(Config { token, channel, feed_url }),
        }
    }

    /// The job that every tick of the relay runs.
    pub fn job(&self) -> (job: JobRun)
        ensures
            job@ == (JobRunView { feed_url: self@.feed_url, channel: self@.channel }),
    {
        JobRun::new(self.feed_url.clone(), self.channel)
    }
}

} // verus!
