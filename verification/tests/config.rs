use bender::{mk_config, Config, HOME_CHANNEL, JOIN_DELAY_SECS};

#[test]
fn the_host_presents_itself_as_bender() {
    assert_eq!(
        mk_config(),
        Config {
            nickname: "bender".to_string(),
            realname: "bender".to_string(),
            use_ssl: true,
            server: "irc.rezosup.net".to_string(),
        }
    );
}

#[test]
fn the_host_joins_its_channel_after_a_pause() {
    assert_eq!(HOME_CHANNEL, "#sac");
    assert_eq!(JOIN_DELAY_SECS, 2);
}
