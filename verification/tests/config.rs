use news_relay::channel::ChannelReference;
use news_relay::config::{Config, ConfigError};
use news_relay::tick::JobRun;

fn set(text: &str) -> Option<String> {
    Some(text.to_string())
}

#[test]
fn three_settings_make_a_configuration() {
    let config = Config::load(set("secret"), set("1234567890"), set("https://news.example/rss"));
    assert_eq!(
        config,
        Ok(Config {
            token: "secret".to_string(),
            channel: ChannelReference { id: 1234567890 },
            feed_url: "https://news.example/rss".to_string(),
        })
    );
    assert_eq!(
        config.unwrap().job(),
        JobRun::new("https://news.example/rss".to_string(), ChannelReference { id: 1234567890 })
    );
}

#[test]
fn a_missing_setting_is_reported_by_its_name() {
    assert_eq!(Config::load(None, set("1"), set("u")), Err(ConfigError::MissingToken));
    assert_eq!(Config::load(set("t"), None, set("u")), Err(ConfigError::MissingChannelId));
    assert_eq!(Config::load(set("t"), set("1"), None), Err(ConfigError::MissingFeedUrl));
}

#[test]
fn missing_settings_are_reported_in_order() {
    assert_eq!(Config::load(None, None, None), Err(ConfigError::MissingToken));
    assert_eq!(Config::load(None, set("x"), None), Err(ConfigError::MissingToken));
    assert_eq!(Config::load(set("t"), None, None), Err(ConfigError::MissingChannelId));
    assert_eq!(Config::load(set("t"), set("not a number"), None), Err(ConfigError::MissingFeedUrl));
}

#[test]
fn a_channel_identifier_must_be_a_number() {
    for id in ["", "general", "12 34", "-5", "18446744073709551616"] {
        assert_eq!(Config::load(set("t"), set(id), set("u")), Err(ConfigError::InvalidChannelId));
    }
}

#[test]
fn settings_may_be_empty_but_for_the_channel() {
    assert_eq!(
        Config::load(set(""), set("0"), set("")),
        Ok(Config { token: String::new(), channel: ChannelReference { id: 0 }, feed_url: String::new() })
    );
}

#[test]
fn every_configuration_error_has_its_line() {
    assert_eq!(ConfigError::MissingToken.message(), "missing DISCORD_TOKEN");
    assert_eq!(ConfigError::MissingChannelId.message(), "missing CHANNEL_ID");
    assert_eq!(ConfigError::MissingFeedUrl.message(), "Missing RSS_URL env var");
    assert_eq!(ConfigError::InvalidChannelId.message(), "CHANNEL_ID is not a channel identifier");
}
