use vstd::prelude::*;
use vstd::string::*;
use crate::config::{Config, Error};
use crate::text::starts_with;

verus! {

/// The path of the health check, behind the base address.
pub open spec fn health_path() -> Seq<char> {
    "/v1/operator/raft/configuration"@
}

/// The base address that `addr` stands for and whether it is reached over
/// TLS, or `None` for a unix socket, which is not supported.
///
/// An `https://` address is kept. An `http://` address is kept too, unless
/// TLS is asked for: then its scheme becomes `https://`. A bare `host:port`
/// gets the scheme that the TLS flag selects.
pub open spec fn resolved(addr: Seq<char>, ssl: bool) -> Option<(Seq<char>, bool)> {
    if "http://"@.is_prefix_of(addr) {
        if ssl {
            Some(("https://"@ + addr.skip("http://"@.len() as int), true))
        } else {
            Some((addr, false))
        }
    } else if "https://"@.is_prefix_of(addr) {
        Some((addr, true))
    } else if "unix:"@.is_prefix_of(addr) {
        None
    } else if ssl {
        Some(("https://"@ + addr, true))
    } else {
        Some(("http://"@ + addr, false))
    }
}

/// Resolves the configured address to a base address and a transport. The
/// one address that is refused is a unix socket.
pub fn url_base(config: &Config) -> (base: Result<(String, bool), Error>)
    ensures
        match base {
            Ok(pair) => resolved(config.http_addr@, config.http_ssl) == Some((pair.0@, pair.1)),
            Err(e) => e is UnixSocketUnsupported && resolved(
                config.http_addr@,
                config.http_ssl,
            ).is_none(),
        },
{
    let addr = config.http_addr.as_str();
    if starts_with(addr, "http://") {
        if config.http_ssl {
            proof {
                reveal_strlit("http://");
            }
            let rest = addr.substring_char(7, addr.unicode_len());
            assert(rest@ =~= addr@.skip(7));
            Ok(("https://".to_owned().concat(rest), true))
        } else {
            Ok((config.http_addr.clone(), false))
        }
    } else if starts_with(addr, "https://") {
        Ok((config.http_addr.clone(), true))
    } else if starts_with(addr, "unix:") {
        Err(Error::UnixSocketUnsupported)
    } else if config.http_ssl {
        Ok(("https://".to_owned().concat(addr), true))
    } else {
        Ok(("http://".to_owned().concat(addr), false))
    }
}

/// The address of the health check under `base`.
pub fn health_url(base: &str) -> (url: String)
    ensures
        url@ == base@ + health_path(),
{
    base.to_owned().concat("/v1/operator/raft/configuration")
}

} // verus!
