//! How to reach a server: the connection string, and the choice between a
//! direct connection and discovery through a sentinel.

use vstd::prelude::*;
use vstd::string::StringExecFns;
use crate::settings::RedisConfig;
use crate::text::option_text;

verus! {

/// The text of one decimal digit.
pub open spec fn digit_text(d: nat) -> Seq<char> {
    if d == 0 {
        "0"@
    } else if d == 1 {
        "1"@
    } else if d == 2 {
        "2"@
    } else if d == 3 {
        "3"@
    } else if d == 4 {
        "4"@
    } else if d == 5 {
        "5"@
    } else if d == 6 {
        "6"@
    } else if d == 7 {
        "7"@
    } else if d == 8 {
        "8"@
    } else {
        "9"@
    }
}

/// A number in decimal, without sign or leading zeros.
pub open spec fn decimal(n: nat) -> Seq<char>
    decreases n,
{
    if n < 10 {
        digit_text(n)
    } else {
        decimal(n / 10) + digit_text(n % 10)
    }
}

/// The credentials part of a connection string: `user:password@`, or
/// `:password@` without a user; nothing without a password.
pub open spec fn auth_text(username: Option<Seq<char>>, password: Option<Seq<char>>) -> Seq<char> {
    match password {
        Some(p) => match username {
            Some(u) => u + ":"@ + p + "@"@,
            None => ":"@ + p + "@"@,
        },
        None => Seq::empty(),
    }
}

/// The connection string of a server:
/// `scheme://[credentials]host:port/db`, the scheme `rediss` with TLS and
/// `redis` without.
pub open spec fn redis_url(args: RedisConfig) -> Seq<char> {
    (if args.tls {
        "rediss"@
    } else {
        "redis"@
    }) + "://"@ + auth_text(option_text(args.username), option_text(args.password)) + args.host@ + ":"@
        + decimal(args.port as nat) + "/"@ + decimal(args.db as nat)
}

fn digit_str(d: u64) -> (text: &'static str)
    requires
        d < 10,
    ensures
        text@ == digit_text(d as nat),
{
    if d == 0 {
        "0"
    } else if d == 1 {
        "1"
    } else if d == 2 {
        "2"
    } else if d == 3 {
        "3"
    } else if d == 4 {
        "4"
    } else if d == 5 {
        "5"
    } else if d == 6 {
        "6"
    } else if d == 7 {
        "7"
    } else if d == 8 {
        "8"
    } else {
        "9"
    }
}

/// Writes a number in decimal.
pub fn decimal_string(n: u64) -> (text: String)
    ensures
        text@ == decimal(n as nat),
    decreases n,
{
    if n < 10 {
        digit_str(n).to_owned()
    } else {
        let mut text = decimal_string(n / 10);
        text.append(digit_str(n % 10));
        text
    }
}

/// Builds the connection string of a server.
pub fn build_redis_url(args: &RedisConfig) -> (url: String)
    ensures
        url@ == redis_url(*args),
{
    let mut url = if args.tls {
        "rediss".to_owned()
    } else {
        "redis".to_owned()
    };
    url.append("://");
    match &args.password {
        Some(p) => {
            match &args.username {
                Some(u) => {
                    url.append(u.as_str());
                },
                None => {},
            }
            url.append(":");
            url.append(p.as_str());
            url.append("@");
        },
        None => {},
    }
    url.append(args.host.as_str());
    url.append(":");
    url.append(decimal_string(args.port as u64).as_str());
    url.append("/");
    url.append(decimal_string(args.db as u64).as_str());
    proof {
        let auth = auth_text(option_text(args.username), option_text(args.password));
        let scheme = if args.tls {
            "rediss"@
        } else {
            "redis"@
        };
        assert(url@ == scheme + "://"@ + auth + args.host@ + ":"@ + decimal(args.port as nat) + "/"@
            + decimal(args.db as nat));
    }
    url
}

/// A configuration that cannot be run.
#[derive(Debug, Clone, Copy, PartialEq, Eq, Structural)]
pub enum ConfigError {
    /// Discovery through a sentinel was asked for, but no master was named.
    SentinelWithoutMaster,
}

impl ConfigError {
    /// The message for the user.
    pub fn message(&self) -> (text: String)
        ensures
            text@ == "--sentinel requires --sentinel-master to be set"@,
    {
        match self {
            ConfigError::SentinelWithoutMaster => "--sentinel requires --sentinel-master to be set".to_owned(),
        }
    }
}

/// How the connection to a server is to be made.
#[derive(Debug)]
pub enum ConnectionPlan {
    /// Ask the sentinel at `host` and `port` for the master of that name, and
    /// connect to it.
    Sentinel { host: String, port: u16, master: String },
    /// Connect to the server that the connection string names.
    Direct { url: String },
}

pub enum ConnectionPlanView {
    Sentinel { host: Seq<char>, port: u16, master: Seq<char> },
    Direct { url: Seq<char> },
}

impl View for ConnectionPlan {
    type V = ConnectionPlanView;

    open spec fn view(&self) -> ConnectionPlanView {
        match *self {
            ConnectionPlan::Sentinel { host, port, master } => ConnectionPlanView::Sentinel {
                host: host@,
                port,
                master: master@,
            },
            ConnectionPlan::Direct { url } => ConnectionPlanView::Direct { url: url@ },
        }
    }
}

/// How the connection to a server is to be made, or why it cannot be.
pub open spec fn plan_for(config: RedisConfig) -> Result<ConnectionPlanView, ConfigError> {
    if config.sentinel {
        match config.sentinel_master {
            Some(master) => Ok(
                ConnectionPlanView::Sentinel { host: config.host@, port: config.port, master: master@ },
            ),
            None => Err(ConfigError::SentinelWithoutMaster),
        }
    } else {
        Ok(ConnectionPlanView::Direct { url: redis_url(config) })
    }
}

/// The view of a plan or of the error in its place.
pub open spec fn plan_view(plan: Result<ConnectionPlan, ConfigError>) -> Result<ConnectionPlanView, ConfigError> {
    match plan {
        Ok(p) => Ok(p@),
        Err(e) => Err(e),
    }
}

/// Decides how to connect to a server. A configuration that asks for a
/// sentinel and names no master is refused; every other one gets a plan.
pub fn connection_plan(config: &RedisConfig) -> (plan: Result<ConnectionPlan, ConfigError>)
    ensures
        plan_view(plan) == plan_for(*config),
{
    if config.sentinel {
        match &config.sentinel_master {
            Some(master) => Ok(
                ConnectionPlan::Sentinel {
                    host: config.host.clone(),
                    port: config.port,
                    master: master.clone(),
                },
            ),
            None => Err(ConfigError::SentinelWithoutMaster),
        }
    } else {
        Ok(ConnectionPlan::Direct { url: build_redis_url(config) })
    }
}

} // verus!
