//! How the host presents itself to the server.

use vstd::prelude::*;
use vstd::string::*;

verus! {

/// The settings of the session that the host chooses itself.
#[derive(Clone, Debug, PartialEq, Eq)]
pub struct Config {
    pub nickname: String,
    pub realname: String,
    pub use_ssl: bool,
    pub server: String,
}

/// The channel that the host joins once it is connected.
pub const HOME_CHANNEL: &'static str = "#sac";

/// The seconds that the host waits after identifying before it joins.
pub const JOIN_DELAY_SECS: u64 = 2;

/// Create the configuration.
pub fn mk_config() -> (c: Config)
    ensures
        c.nickname@ == "bender"@,
        c.realname@ == "bender"@,
        c.use_ssl,
        c.server@ == "irc.rezosup.net"@,
{
    Config {
        nickname: String::from_str("bender"),
        realname: String::from_str("bender"),
        use_ssl: true,
        server: String::from_str("irc.rezosup.net"),
    }
}

} // verus!
