//! The gateway's configuration, and what it means where a setting is absent.

use vstd::prelude::*;
use vstd::string::StringExecFns;

verus! {

/// The heartbeat period of a gateway that names none, in seconds.
pub const DEFAULT_HEARTBEAT_INTERVAL: u64 = 120;

/// How the gateway logs.
#[derive(Debug, Clone)]
pub struct LogConfig {
    pub level: Option<String>,
    pub outfile: Option<String>,
    pub format: Option<String>,
}

/// Where the gateway listens for devices, and how long a device may stay
/// silent.
#[derive(Debug, Clone)]
pub struct PerceptionServiceConfig {
    pub ip: Option<String>,
    pub port: Option<String>,
    pub heartbeat_interval: Option<u64>,
}

/// Where the shared store is.
#[derive(Debug, Clone)]
pub struct RedisConfig {
    pub ip: Option<String>,
    pub port: Option<String>,
}

/// Where the gateway listens for HTTP clients.
#[derive(Debug, Clone)]
pub struct HttpServiceConfig {
    pub ip: Option<String>,
    pub port: Option<String>,
}

/// The whole configuration.
#[derive(Debug, Clone)]
pub struct Config {
    pub log: LogConfig,
    pub perception_service: PerceptionServiceConfig,
    pub redis: RedisConfig,
    pub http_service: HttpServiceConfig,
}

/// What the logger is set up with.
#[derive(Debug, Clone)]
pub struct LogSetup {
    /// The level to log at.
    pub level: String,
    /// The layout of a line.
    pub format: String,
    /// The file to log to, if any.
    pub outfile: Option<String>,
}

/// The text that an optional setting holds, or `fallback`.
pub open spec fn text_or(setting: Option<String>, fallback: Seq<char>) -> Seq<char> {
    match setting {
        Some(text) => text@,
        None => fallback,
    }
}

fn or_default(setting: &Option<String>, fallback: &str) -> (text: String)
    ensures
        text@ == text_or(*setting, fallback@),
{
    match setting {
        Some(text) => text.clone(),
        None => String::from_str(fallback),
    }
}

/// An address: the host, a colon, and the port.
pub open spec fn addr_of(ip: Seq<char>, port: Seq<char>) -> Seq<char> {
    ip + ":"@ + port
}

fn addr(ip: &str, port: &str) -> (text: String)
    ensures
        text@ == addr_of(ip@, port@),
{
    let mut text = String::from_str(ip);
    text.append(":");
    text.append(port);
    text
}

/// The heartbeat period in seconds that a setting stands for: the setting
/// itself where it is there and not negative, even where it is zero; two
/// minutes where it is absent or negative.
pub fn heartbeat_interval_of(setting: Option<i64>) -> (seconds: u64)
    ensures
        seconds == match setting {
            Some(n) => if n >= 0 {
                n as u64
            } else {
                DEFAULT_HEARTBEAT_INTERVAL
            },
            None => DEFAULT_HEARTBEAT_INTERVAL,
        },
{
    match setting {
        Some(n) => if n >= 0 {
            n as u64
        } else {
            DEFAULT_HEARTBEAT_INTERVAL
        },
        None => DEFAULT_HEARTBEAT_INTERVAL,
    }
}

/// How to set up the logger for `log_cfg`; `None` where the level is `none`
/// and nothing is to be logged. An absent level is `trace`, an absent format is
/// `fileline`.
pub fn log_init(log_cfg: LogConfig) -> (setup: Option<LogSetup>)
    ensures
        setup is None == (log_cfg.level is Some && log_cfg.level->0@ == "none"@),
        setup is Some ==> setup->0.level@ == text_or(log_cfg.level, "trace"@) && setup->0.format@
            == text_or(log_cfg.format, "fileline"@) && setup->0.outfile == log_cfg.outfile,
{
    let off = match &log_cfg.level {
        Some(level) => {
            let none = String::from_str("none");
            *level == none
        },
        None => false,
    };
    if off {
        None
    } else {
        Some(
            LogSetup {
                level: or_default(&log_cfg.level, "trace"),
                format: or_default(&log_cfg.format, "fileline"),
                outfile: log_cfg.outfile,
            },
        )
    }
}

impl PerceptionServiceConfig {
    /// The heartbeat period in seconds: the one configured, or two minutes.
    pub fn heartbeat_secs(&self) -> (seconds: u64)
        ensures
            seconds == match self.heartbeat_interval {
                Some(n) => n,
                None => DEFAULT_HEARTBEAT_INTERVAL,
            },
    {
        match self.heartbeat_interval {
            Some(n) => n,
            None => DEFAULT_HEARTBEAT_INTERVAL,
        }
    }

    /// The address to listen on, where both its parts are configured.
    pub fn listen_addr(&self) -> (text: Option<String>)
        ensures
            text is Some == (self.ip is Some && self.port is Some),
            text is Some ==> text->0@ == addr_of(self.ip->0@, self.port->0@),
    {
        match (&self.ip, &self.port) {
            (Some(ip), Some(port)) => Some(addr(ip.as_str(), port.as_str())),
            _ => None,
        }
    }
}

impl HttpServiceConfig {
    /// The address to listen on: every interface and port 8000 where nothing
    /// else is configured.
    pub fn bind_addr(&self) -> (text: String)
        ensures
            text@ == addr_of(text_or(self.ip, "0.0.0.0"@), text_or(self.port, "8000"@)),
    {
        let ip = or_default(&self.ip, "0.0.0.0");
        let port = or_default(&self.port, "8000");
        addr(ip.as_str(), port.as_str())
    }
}

/// The address of a store as its client wants it.
pub open spec fn redis_url_of(ip: Seq<char>, port: Seq<char>) -> Seq<char> {
    "redis://"@ + ip + ":"@ + port + "/"@
}

/// The address of the store at `ip` and `port` as its client wants it.
pub fn redis_url(ip: &str, port: &str) -> (url: String)
    ensures
        url@ == redis_url_of(ip@, port@),
{
    let mut url = String::from_str("redis://");
    url.append(ip);
    url.append(":");
    url.append(port);
    url.append("/");
    url
}

impl RedisConfig {
    /// The address of the store, where both its parts are configured.
    pub fn url(&self) -> (url: Option<String>)
        ensures
            url is Some == (self.ip is Some && self.port is Some),
            url is Some ==> url->0@ == redis_url_of(self.ip->0@, self.port->0@),
    {
        match (&self.ip, &self.port) {
            (Some(ip), Some(port)) => Some(redis_url(ip.as_str(), port.as_str())),
            _ => None,
        }
    }
}

} // verus!
