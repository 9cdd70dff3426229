use vstd::prelude::*;
use crate::span::Span;
use crate::text::same_text;

verus! {

/// One immutable snapshot of everything the probe is configured with.
#[derive(Debug)]
pub struct Config {
    /// Where the agent is reached: `host:port`, or an `http://` or `https://` address.
    pub http_addr: String,
    /// Asks for TLS whatever the address says.
    pub http_ssl: bool,
    /// The budget for all attempts together, in seconds.
    pub timeout: Option<u64>,
    /// The spacing of the attempts, in seconds.
    pub interval: Option<u64>,
    /// Whether failed attempts are retried rather than fatal.
    pub reconnect: bool,
    /// Whether the server's certificate goes unchecked.
    pub skip_verify: bool,
    /// Path of a further root certificate.
    pub ca_cert: Option<String>,
    /// Path of the client's certificate.
    pub client_cert: Option<String>,
    /// Path of the client's private key.
    pub client_key: Option<String>,
    /// The access token itself.
    pub http_token: Option<String>,
    /// Path of a file that holds the access token.
    pub http_token_file: Option<String>,
}

/// Why an attempt failed for good.
#[derive(Debug, PartialEq, Eq)]
pub enum Failure {
    /// The agent answered with this status.
    Status(u16),
    /// No answer came: the cause, in words.
    Transport(String),
}

/// How the probe ends when it does not end well.
#[derive(Debug)]
pub enum Error {
    General(String),
    UnixSocketUnsupported,
    InvalidBool(String),
    ParseCaCert(pem::PemError),
    AddCaCert(webpki::Error),
    MissingClientKey,
    MissingClientCert,
    ParseClientKey(pem::PemError),
    ParseClientCert(pem::PemError),
    Request(Failure),
    Timeout(Span),
}

/// Exit status: the agent is ready.
pub const EXIT_ONLINE: u8 = 0;

/// Exit status: the probe could not be set up.
pub const EXIT_NOT_STARTED: u8 = 1;

/// Exit status: the budget was used up.
pub const EXIT_TIMED_OUT: u8 = 2;

/// Exit status: an attempt failed for good.
pub const EXIT_REQUEST_FAILED: u8 = 3;

/// The process exit status that stands for each way the probe can end.
pub open spec fn exit_code_of(outcome: Result<(), Error>) -> u8 {
    match outcome {
        Ok(_) => EXIT_ONLINE,
        Err(Error::Request(_)) => EXIT_REQUEST_FAILED,
        Err(Error::Timeout(_)) => EXIT_TIMED_OUT,
        Err(_) => EXIT_NOT_STARTED,
    }
}

/// The exit status for `outcome`: 0 on success, 3 for a fatal request, 2 for
/// an exhausted budget, 1 for every error of configuration.
pub fn exit_code(outcome: &Result<(), Error>) -> (code: u8)
    ensures
        code == exit_code_of(*outcome),
{
    match outcome {
        Ok(_) => EXIT_ONLINE,
        Err(Error::Request(_)) => EXIT_REQUEST_FAILED,
        Err(Error::Timeout(_)) => EXIT_TIMED_OUT,
        Err(_) => EXIT_NOT_STARTED,
    }
}

/// What a configuration value says as a truth value, if anything.
pub open spec fn bool_of(value: Seq<char>) -> Option<bool> {
    if value == "true"@ {
        Some(true)
    } else if value == "false"@ {
        Some(false)
    } else {
        None
    }
}

/// Reads a truth value: `true` or `false`, to the letter. Anything else is
/// refused, and the error carries it.
pub fn parse_bool(value: &str) -> (parsed: Result<bool, Error>)
    ensures
        match parsed {
            Ok(b) => bool_of(value@) == Some(b),
            Err(e) => bool_of(value@).is_none() && (e matches Error::InvalidBool(v) && v@ == value@),
        },
{
    if same_text(value, "true") {
        Ok(true)
    } else if same_text(value, "false") {
        Ok(false)
    } else {
        Err(Error::InvalidBool(value.to_owned()))
    }
}

} // verus!
