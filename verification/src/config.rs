use vstd::prelude::*;
use vstd::string::*;
use crate::error::RailwayError;
use crate::numbers::{parse_unsigned, parse_unsigned_exec};
use crate::text::{str_trim_start_matches, trim_start_matches};

verus! {

/// The settings that the services read from their environment, as found there.
pub struct EnvValues {
    pub discord_token: Option<String>,
    pub database_url: Option<String>,
    pub redis_url: Option<String>,
    pub prefix: Option<String>,
    pub embed_color: Option<String>,
    pub database_pool_size: Option<String>,
    pub event_bus_capacity: Option<String>,
    pub max_event_tasks: Option<String>,
}

/// The text of an optional setting.
pub open spec fn opt_view(o: Option<String>) -> Option<Seq<char>> {
    match o {
        Some(s) => Some(s@),
        None => None,
    }
}

/// The services' settings.
pub struct AppConfig {
    pub discord_token: String,
    pub database_url: String,
    pub redis_url: String,
    pub prefix: String,
    pub embed_color: u32,
    pub db_pool_size: u32,
    pub event_bus_capacity: usize,
    pub max_event_tasks: usize,
}

/// The embed colour that a setting gives: hexadecimal digits after any number of
/// leading `#`; `BEBEBE` when unset or unreadable.
pub open spec fn embed_color_of(v: Option<Seq<char>>) -> u32 {
    let text = match v {
        Some(s) => s,
        None => "BEBEBE"@,
    };
    match parse_unsigned(trim_start_matches(text, "#"@), 16, 0xffff_ffff) {
        Some(c) => c as u32,
        None => 0xBEBEBE,
    }
}

/// A number setting, or the default when it is unset or unreadable.
pub open spec fn number_or(v: Option<Seq<char>>, max: nat, default: nat) -> nat {
    match v {
        Some(s) => match parse_unsigned(s, 10, max) {
            Some(n) => n,
            None => default,
        },
        None => default,
    }
}

/// The error of a missing required setting.
pub open spec fn missing(r: Result<AppConfig, RailwayError>, name: Seq<char>) -> bool {
    r matches Err(RailwayError::Config(m)) && m@ == name + " not set"@
}

fn read_number(v: &Option<String>, max: u64, default: u64) -> (r: u64)
    requires
        default <= max,
    ensures
        r as nat == number_or(opt_view(*v), max as nat, default as nat),
{
    match v {
        Some(s) => match parse_unsigned_exec(s.as_str(), 10, max) {
            Some(n) => n,
            None => default,
        },
        None => default,
    }
}

fn required(v: &Option<String>, name: &str) -> (r: Result<String, RailwayError>)
    ensures
        match *v {
            Some(s) => r matches Ok(x) && x@ == s@,
            None => r matches Err(RailwayError::Config(m)) && m@ == name@ + " not set"@,
        },
{
    match v {
        Some(s) => Ok(s.clone()),
        None => {
            let mut m = String::from_str(name);
            m.append(" not set");
            Err(RailwayError::Config(m))
        },
    }
}

impl AppConfig {
    /// The settings from the environment: the Discord token, the database and
    /// Redis URLs and the command prefix are required, in that order; the rest
    /// have defaults (colour `BEBEBE`, pool of 20, bus of 16384, 512 tasks).
    pub fn from_env(env: &EnvValues) -> (r: Result<AppConfig, RailwayError>)
        ensures
            env.discord_token is None ==> missing(r, "DISCORD_TOKEN"@),
            env.discord_token is Some && env.database_url is None ==> missing(r, "DATABASE_URL"@),
            env.discord_token is Some && env.database_url is Some && env.redis_url is None
                ==> missing(r, "REDIS_URL"@),
            env.discord_token is Some && env.database_url is Some && env.redis_url is Some && env.prefix is None
                ==> missing(r, "PREFIX"@),
            (env.discord_token is Some && env.database_url is Some && env.redis_url is Some && env.prefix is Some)
                ==> (r matches Ok(c)
                && c.discord_token@ == env.discord_token->0@
                && c.database_url@ == env.database_url->0@
                && c.redis_url@ == env.redis_url->0@
                && c.prefix@ == env.prefix->0@
                && c.embed_color == embed_color_of(opt_view(env.embed_color))
                && c.db_pool_size as nat == number_or(opt_view(env.database_pool_size), 0xffff_ffff, 20)
                && c.event_bus_capacity as nat == number_or(opt_view(env.event_bus_capacity), usize::MAX as nat, 16384)
                && c.max_event_tasks as nat == number_or(opt_view(env.max_event_tasks), usize::MAX as nat, 512)),
    {
        let discord_token = required(&env.discord_token, "DISCORD_TOKEN")?;
        let database_url = required(&env.database_url, "DATABASE_URL")?;
        let redis_url = required(&env.redis_url, "REDIS_URL")?;
        let prefix = required(&env.prefix, "PREFIX")?;
        let color_text = match &env.embed_color {
            Some(s) => s.clone(),
            None => String::from_str("BEBEBE"),
        };
        proof {
            reveal_strlit("#");
        }
        let digits = str_trim_start_matches(color_text.as_str(), "#");
        let embed_color: u32 = match parse_unsigned_exec(digits, 16, 0xffff_ffff) {
            Some(c) => c as u32,
            None => 0xBEBEBE,
        };
        let db_pool_size = read_number(&env.database_pool_size, 0xffff_ffff, 20) as u32;
        let event_bus_capacity = read_number(&env.event_bus_capacity, usize::MAX as u64, 16384) as usize;
        let max_event_tasks = read_number(&env.max_event_tasks, usize::MAX as u64, 512) as usize;
        Ok(AppConfig {
            discord_token,
            database_url,
            redis_url,
            prefix,
            embed_color,
            db_pool_size,
            event_bus_capacity,
            max_event_tasks,
        })
    }
}

} // verus!
