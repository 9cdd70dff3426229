use vstd::prelude::*;
use vstd::string::*;
use crate::config::{bool_of, parse_bool, Config, Error};
use crate::text::text_view;

verus! {

#[verifier::external_type_specification]
#[verifier::external_body]
pub struct ExParseIntError(std::num::ParseIntError);

/// The number that a text spells in decimal, or `None` where it spells none
/// that fits in 64 bits.
pub uninterp spec fn number_of(text: Seq<char>) -> Option<u64>;

/// Calls `str::parse` for a `u64`. The contract gives the result a name and
/// claims no more than that it depends on `text` alone.
#[verifier::external_body]
pub(crate) fn parse_number(text: &str) -> (parsed: Result<u64, std::num::ParseIntError>)
    ensures
        match parsed {
            Ok(n) => number_of(text@) == Some(n),
            Err(_) => number_of(text@).is_none(),
        },
{
    text.parse::<u64>()
}

/// How the message begins that reports a variable without a number in it.
pub open spec fn conversion_prefix(name: Seq<char>) -> Seq<char> {
    "failed to convert env var "@ + name + " to destination type: "@
}

/// Puts the message together with `format!`: the fixed words round the
/// variable's name, then what the parser's error says of itself. Of that last
/// part the contract claims nothing.
#[verifier::external_body]
pub(crate) fn conversion_failed(name: &str, cause: &std::num::ParseIntError) -> (message: String)
    ensures
        conversion_prefix(name@).is_prefix_of(message@),
{
    format!("failed to convert env var {} to destination type: {}", name, cause)
}

/// What the command line gave.
#[derive(Debug)]
pub struct Flags {
    pub address: Option<String>,
    pub tls: bool,
    pub timeout: Option<u64>,
    pub interval: Option<u64>,
    pub reconnect: bool,
    pub skip_verify: bool,
    pub ca_cert: Option<String>,
    pub client_cert: Option<String>,
    pub client_key: Option<String>,
    pub http_token: Option<String>,
    pub http_token_file: Option<String>,
}

/// What the environment holds, variable by variable; `None` for one that is
/// not set.
#[derive(Debug)]
pub struct Environment {
    /// `CONSUL_HTTP_ADDR`
    pub http_addr: Option<String>,
    /// `CONSUL_HTTP_SSL`
    pub http_ssl: Option<String>,
    /// `CONSUL_ONLINE_TIMEOUT`
    pub timeout: Option<String>,
    /// `CONSUL_ONLINE_INTERVAL`
    pub interval: Option<String>,
    /// `CONSUL_ONLINE_RECONNECT`
    pub reconnect: Option<String>,
    /// `CONSUL_HTTP_SSL_VERIFY`
    pub ssl_verify: Option<String>,
    /// `CONSUL_CACERT`
    pub ca_cert: Option<String>,
    /// `CONSUL_CLIENT_CERT`
    pub client_cert: Option<String>,
    /// `CONSUL_CLIENT_KEY`
    pub client_key: Option<String>,
    /// `CONSUL_HTTP_TOKEN`
    pub http_token: Option<String>,
    /// `CONSUL_HTTP_TOKEN_FILE`
    pub http_token_file: Option<String>,
}

/// What is wrong with the environment.
pub enum ConfigFault {
    /// A variable holds this where `true` or `false` is wanted.
    Bool(Seq<char>),
    /// The variable of this name holds no number.
    Number(Seq<char>),
}

/// The truth value of a variable: the default where it is not set, `None`
/// where it holds neither `true` nor `false`.
pub open spec fn env_bool(var: Option<Seq<char>>, default: bool) -> Option<bool> {
    match var {
        Some(text) => bool_of(text),
        None => Some(default),
    }
}

/// The number of a variable: none where it is not set, `None` where it
/// holds no number.
pub open spec fn env_number(var: Option<Seq<char>>) -> Option<Option<u64>> {
    match var {
        Some(text) => match number_of(text) {
            Some(n) => Some(Some(n)),
            None => None,
        },
        None => Some(None),
    }
}

/// The first of two values that is there.
pub open spec fn first_of<T>(first: Option<T>, second: Option<T>) -> Option<T> {
    if first.is_some() { first } else { second }
}

/// The address: the command line's, else the environment's, else the
/// agent's usual place on this host.
pub open spec fn address_of(flag: Option<String>, var: Option<String>) -> Seq<char> {
    match flag {
        Some(addr) => addr@,
        None => match var {
            Some(addr) => addr@,
            None => "localhost:8500"@,
        },
    }
}

/// The first thing wrong with the environment, if anything. A truth value
/// is looked at only where the command line's flag is not set; a number is
/// looked at even where the command line gives one.
pub open spec fn fault(flags: Flags, env: Environment) -> Option<ConfigFault> {
    if !flags.tls && env_bool(text_view(env.http_ssl), false).is_none() {
        Some(ConfigFault::Bool(env.http_ssl->0@))
    } else if env_number(text_view(env.timeout)).is_none() {
        Some(ConfigFault::Number("CONSUL_ONLINE_TIMEOUT"@))
    } else if env_number(text_view(env.interval)).is_none() {
        Some(ConfigFault::Number("CONSUL_ONLINE_INTERVAL"@))
    } else if !flags.reconnect && env_bool(text_view(env.reconnect), false).is_none() {
        Some(ConfigFault::Bool(env.reconnect->0@))
    } else if !flags.skip_verify && env_bool(text_view(env.ssl_verify), true).is_none() {
        Some(ConfigFault::Bool(env.ssl_verify->0@))
    } else {
        None
    }
}

/// Whether `e` reports `f`.
pub open spec fn reports(e: Error, f: ConfigFault) -> bool {
    match f {
        ConfigFault::Bool(text) => e matches Error::InvalidBool(held) && held@ == text,
        ConfigFault::Number(name) => e matches Error::General(message) && conversion_prefix(
            name,
        ).is_prefix_of(message@),
    }
}

/// Whether `config` is what a sound environment and the command line come
/// to: the command line goes first, a flag is set where either side sets
/// it, and verification is skipped where the flag says so or the variable
/// says `false`.
pub open spec fn settled(flags: Flags, env: Environment, config: Config) -> bool {
    &&& config.http_addr@ == address_of(flags.address, env.http_addr)
    &&& config.http_ssl == (flags.tls || env_bool(text_view(env.http_ssl), false) == Some(true))
    &&& config.timeout == first_of(flags.timeout, env_number(text_view(env.timeout))->0)
    &&& config.interval == first_of(flags.interval, env_number(text_view(env.interval))->0)
    &&& config.reconnect == (flags.reconnect || env_bool(text_view(env.reconnect), false) == Some(
        true,
    ))
    &&& config.skip_verify == (flags.skip_verify || env_bool(text_view(env.ssl_verify), true)
        == Some(false))
    &&& config.ca_cert == first_of(flags.ca_cert, env.ca_cert)
    &&& config.client_cert == first_of(flags.client_cert, env.client_cert)
    &&& config.client_key == first_of(flags.client_key, env.client_key)
    &&& config.http_token == first_of(flags.http_token, env.http_token)
    &&& config.http_token_file == first_of(flags.http_token_file, env.http_token_file)
}

/// Reads the truth value of a variable, or takes the default where the
/// variable is not set.
pub fn bool_env_var(var: &Option<String>, default: bool) -> (value: Result<bool, Error>)
    ensures
        match value {
            Ok(b) => env_bool(text_view(*var), default) == Some(b),
            Err(e) => env_bool(text_view(*var), default).is_none() && reports(
                e,
                ConfigFault::Bool(var->0@),
            ),
        },
{
    match var {
        Some(text) => parse_bool(text.as_str()),
        None => Ok(default),
    }
}

/// Reads the number of the variable `name`, if the variable is set.
pub fn from_env(name: &str, var: &Option<String>) -> (value: Result<Option<u64>, Error>)
    ensures
        match value {
            Ok(n) => env_number(text_view(*var)) == Some(n),
            Err(e) => env_number(text_view(*var)).is_none() && reports(
                e,
                ConfigFault::Number(name@),
            ),
        },
{
    match var {
        Some(text) => match parse_number(text.as_str()) {
            Ok(n) => Ok(Some(n)),
            Err(cause) => Err(Error::General(conversion_failed(name, &cause))),
        },
        None => Ok(None),
    }
}

/// The first of two values that is there.
fn or<T>(first: Option<T>, second: Option<T>) -> (chosen: Option<T>)
    ensures
        chosen == first_of(first, second),
{
    match first {
        Some(value) => Some(value),
        None => second,
    }
}

/// Merges the command line and the environment into one configuration. The
/// command line goes first. A variable that should hold a truth value and
/// holds something else is an error, unless the flag is set anyway; one that
/// should hold a number and holds none is an error in any case.
pub fn resolve(flags: Flags, env: Environment) -> (config: Result<Config, Error>)
    ensures
        match config {
            Ok(c) => fault(flags, env).is_none() && settled(flags, env, c),
            Err(e) => fault(flags, env) matches Some(f) && reports(e, f),
        },
{
    let http_ssl = flags.tls || bool_env_var(&env.http_ssl, false)?;
    let env_timeout = from_env("CONSUL_ONLINE_TIMEOUT", &env.timeout)?;
    let env_interval = from_env("CONSUL_ONLINE_INTERVAL", &env.interval)?;
    let reconnect = flags.reconnect || bool_env_var(&env.reconnect, false)?;
    let skip_verify = flags.skip_verify || !bool_env_var(&env.ssl_verify, true)?;
    let http_addr = match flags.address {
        Some(addr) => addr,
        None => match env.http_addr {
            Some(addr) => addr,
            None => "localhost:8500".to_owned(),
        },
    };
    Ok(
        Config {
            http_addr,
            http_ssl,
            timeout: or(flags.timeout, env_timeout),
            interval: or(flags.interval, env_interval),
            reconnect,
            skip_verify,
            ca_cert: or(flags.ca_cert, env.ca_cert),
            client_cert: or(flags.client_cert, env.client_cert),
            client_key: or(flags.client_key, env.client_key),
            http_token: or(flags.http_token, env.http_token),
            http_token_file: or(flags.http_token_file, env.http_token_file),
        },
    )
}

} // verus!
