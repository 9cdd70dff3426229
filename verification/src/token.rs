use vstd::prelude::*;
use vstd::string::*;
use crate::config::Config;
use crate::text::{trim, trimmed};

verus! {

/// The name of the header that carries the access token.
pub open spec fn token_header() -> Seq<char> {
    "X-Consul-Token"@
}

/// The header that every request carries, if any: its name and its value.
#[derive(Debug, PartialEq, Eq)]
pub struct HeaderAdder(pub Option<(String, String)>);

impl HeaderAdder {
    /// The token that the configuration resolves to, `file_text` being what
    /// the token file holds: the literal token where one is set, else the
    /// file's text without the white space round it, else none.
    pub open spec fn token_of(
        literal: Option<String>,
        file_text: Option<Seq<char>>,
    ) -> Option<Seq<char>> {
        match literal {
            Some(token) => Some(token@),
            None => match file_text {
                Some(text) => Some(trimmed(text)),
                None => None,
            },
        }
    }

    /// The header as a name and a value.
    pub open spec fn view(&self) -> Option<(Seq<char>, Seq<char>)> {
        match self.0 {
            Some(pair) => Some((pair.0@, pair.1@)),
            None => None,
        }
    }

    /// The path of the token file where it has to be read: where one is
    /// configured and no literal token takes its place.
    pub fn file_needed(config: &Config) -> (path: Option<String>)
        ensures
            config.http_token.is_some() ==> path.is_none(),
            config.http_token.is_none() ==> path == config.http_token_file,
    {
        match &config.http_token {
            Some(_) => None,
            None => match &config.http_token_file {
                Some(file) => Some(file.clone()),
                None => None,
            },
        }
    }

    /// Resolves the token. `file_text` is the text of the token file where
    /// it was read; beside a literal token it is not looked at.
    pub fn try_new(config: &Config, file_text: Option<&str>) -> (adder: HeaderAdder)
        ensures
            adder@ == match Self::token_of(
                config.http_token,
                match file_text {
                    Some(text) => Some(text@),
                    None => None,
                },
            ) {
                Some(token) => Some((token_header(), token)),
                None => None,
            },
    {
        match &config.http_token {
            Some(token) => HeaderAdder(Some(("X-Consul-Token".to_owned(), token.clone()))),
            None => match file_text {
                Some(text) => HeaderAdder(
                    Some(("X-Consul-Token".to_owned(), trim(text).to_owned())),
                ),
                None => HeaderAdder(None),
            },
        }
    }
}

} // verus!
