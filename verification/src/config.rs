//! Connection parameters of the broker, and their defaults.

use vstd::prelude::*;
use vstd::string::*;
use vstd::std_specs::convert::FromSpecImpl;

verus! {

/// The loopback address.
pub fn default_host() -> (r: String)
    ensures
        r@ == "127.0.0.1"@,
{
    String::from_str("127.0.0.1")
}

/// The broker's usual port.
pub fn default_port() -> (r: u16)
    ensures
        r == 5672,
{
    5672
}

/// The root virtual host.
pub fn default_vhost() -> (r: String)
    ensures
        r@ == "/"@,
{
    String::from_str("/")
}

pub fn default_username() -> (r: String)
    ensures
        r@ == "guest"@,
{
    String::from_str("guest")
}

pub fn default_password() -> (r: String)
    ensures
        r@ == "guest"@,
{
    String::from_str("guest")
}

/// Ten seconds.
pub fn default_connection_timeout() -> (r: u64)
    ensures
        r == 10,
{
    10
}

/// The settings as the configuration file gives them. `host` is an IP
/// address in text form.
#[derive(Clone, Debug)]
pub struct Options {
    pub host: String,
    pub port: u16,
    pub vhost: String,
    pub username: String,
    pub password: String,
    pub connection_timeout: u64,
}

impl Default for Options {
    fn default() -> (r: Options)
        ensures
            r.host@ == "127.0.0.1"@,
            r.port == 5672,
            r.vhost@ == "/"@,
            r.username@ == "guest"@,
            r.password@ == "guest"@,
            r.connection_timeout == 10,
    {
        Options {
            host: default_host(),
            port: default_port(),
            vhost: default_vhost(),
            username: default_username(),
            password: default_password(),
            connection_timeout: default_connection_timeout(),
        }
    }
}

/// Whether the connection is encrypted.
#[derive(Clone, Copy, Debug, PartialEq, Eq, Structural)]
pub enum Scheme {
    Amqp,
    Amqps,
}

/// The credentials of a broker address.
#[derive(Clone, Debug)]
pub struct UserInfo {
    pub username: String,
    pub password: String,
}

/// Who to connect to, and as whom.
#[derive(Clone, Debug)]
pub struct Authority {
    pub userinfo: UserInfo,
    pub host: String,
    pub port: u16,
}

/// A broker address without query parameters.
#[derive(Clone, Debug)]
pub struct BrokerUri {
    pub scheme: Scheme,
    pub authority: Authority,
    pub vhost: String,
}

/// What a session needs to connect. The timeout is in seconds.
#[derive(Clone, Debug)]
pub struct Config {
    pub uri: BrokerUri,
    pub connection_timeout: u64,
}

impl From<Options> for Config {
    fn from(options: Options) -> (config: Config) {
        let uri = BrokerUri {
            scheme: Scheme::Amqp,
            authority: Authority {
                userinfo: UserInfo { username: options.username, password: options.password },
                host: options.host,
                port: options.port,
            },
            vhost: options.vhost,
        };
        let connection_timeout = options.connection_timeout;
        Config { uri, connection_timeout }
    }
}

/// The configuration that options stand for: a plain, unencrypted address
/// that carries each option unchanged.
pub open spec fn config_of(options: Options) -> Config {
    Config {
        uri: BrokerUri {
            scheme: Scheme::Amqp,
            authority: Authority {
                userinfo: UserInfo { username: options.username, password: options.password },
                host: options.host,
                port: options.port,
            },
            vhost: options.vhost,
        },
        connection_timeout: options.connection_timeout,
    }
}

impl FromSpecImpl<Options> for Config {
    open spec fn obeys_from_spec() -> bool {
        true
    }

    open spec fn from_spec(options: Options) -> Config {
        config_of(options)
    }
}

/// The configuration to use, given what a configuration file held, if there
/// was one: without a file, the defaults.
pub fn resolve_config(file: Option<Options>) -> (config: Config)
    ensures
        file matches Some(options) ==> config == config_of(options),
        file is None ==> {
            &&& config.uri.scheme == Scheme::Amqp
            &&& config.uri.authority.userinfo.username@ == "guest"@
            &&& config.uri.authority.userinfo.password@ == "guest"@
            &&& config.uri.authority.host@ == "127.0.0.1"@
            &&& config.uri.authority.port == 5672
            &&& config.uri.vhost@ == "/"@
            &&& config.connection_timeout == 10
        },
{
    match file {
        Some(options) => Config::from(options),
        None => Config::from(Options::default()),
    }
}

} // verus!
