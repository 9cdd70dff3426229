//! Readiness probing for a Consul agent: the rules that decide how long each
//! attempt may take, whether a failed attempt is retried, where the agent is
//! reached and which credentials a TLS session is built from.

pub mod address;
pub mod config;
pub mod pem_text;
pub mod poll;
pub mod roots;
pub mod settings;
pub mod span;
pub mod text;
pub mod token;
pub mod trust;

pub use address::{health_url, url_base};
pub use config::{exit_code, parse_bool, Config, Error, Failure, EXIT_NOT_STARTED};
pub use poll::{
    after_attempt, attempt_timeout, budget_spent, classify, decide, finish, pause, replay, Attempt,
    Decision, Outcome,
};
pub use settings::{bool_env_var, from_env, resolve, Environment, Flags};
pub use span::Span;
pub use token::HeaderAdder;
pub use trust::{
    add_ca_cert, add_client_cert, add_verifier, build_tls_config, files_needed, load_ca_cert,
    load_client_cert, load_client_key, ClientIdentity, TrustFiles, TrustMaterial,
};
