use vstd::prelude::*;
use crate::config::{Config, Error};
use crate::pem_text::{parse_pem, pem_contents};
use crate::roots::{add_root, anchor_subject, platform_roots, subjects};
use crate::text::{str_view, text_view};

verus! {

/// What a client proves its identity with: a certificate and the private key
/// that belongs to it, both in DER.
#[derive(Debug, PartialEq, Eq)]
pub struct ClientIdentity {
    pub cert: Vec<u8>,
    pub key: Vec<u8>,
}

/// What a TLS session trusts and presents.
#[derive(Debug)]
pub enum TrustMaterial {
    /// The server's certificate and signatures go unchecked.
    Insecure { client: Option<ClientIdentity> },
    /// The server is checked against `roots`.
    Verified { roots: rustls::RootCertStore, client: Option<ClientIdentity> },
}

/// The files that trust material is built from: paths before they are read,
/// their text after.
#[derive(Debug, PartialEq, Eq)]
pub struct TrustFiles {
    pub ca_cert: Option<String>,
    pub client_cert: Option<String>,
    pub client_key: Option<String>,
}

impl ClientIdentity {
    pub open spec fn view(&self) -> (Seq<u8>, Seq<u8>) {
        (self.cert@, self.key@)
    }
}

/// A client identity by its bytes.
pub open spec fn identity_view(client: Option<ClientIdentity>) -> Option<(Seq<u8>, Seq<u8>)> {
    match client {
        Some(identity) => Some(identity@),
        None => None,
    }
}

/// Whether a certificate and a key are configured together or not at all.
pub open spec fn paired(cert: Option<String>, key: Option<String>) -> bool {
    cert.is_some() == key.is_some()
}

/// The files that have to be read before trust material can be built. A
/// client certificate without its key, or a key without its certificate, is
/// an error, and nothing is read then. With verification skipped the root
/// certificate is not read, whatever is configured.
pub fn files_needed(config: &Config) -> (files: Result<TrustFiles, Error>)
    ensures
        match files {
            Ok(f) => {
                &&& paired(config.client_cert, config.client_key)
                &&& f.ca_cert == if config.skip_verify { None } else { config.ca_cert }
                &&& f.client_cert == config.client_cert
                &&& f.client_key == config.client_key
            },
            Err(e) => {
                &&& e is MissingClientKey <==> config.client_cert.is_some()
                    && config.client_key.is_none()
                &&& e is MissingClientCert <==> config.client_cert.is_none()
                    && config.client_key.is_some()
                &&& !paired(config.client_cert, config.client_key)
            },
        },
{
    let ca_cert = if config.skip_verify {
        None
    } else {
        match &config.ca_cert {
            Some(path) => Some(path.clone()),
            None => None,
        }
    };
    match (&config.client_cert, &config.client_key) {
        (Some(cert), Some(key)) => Ok(
            TrustFiles { ca_cert, client_cert: Some(cert.clone()), client_key: Some(key.clone()) },
        ),
        (Some(_), None) => Err(Error::MissingClientKey),
        (None, Some(_)) => Err(Error::MissingClientCert),
        (None, None) => Ok(TrustFiles { ca_cert, client_cert: None, client_key: None }),
    }
}

/// Reads a further root certificate out of its PEM text.
pub fn load_ca_cert(text: &str) -> (der: Result<Vec<u8>, Error>)
    ensures
        match der {
            Ok(bytes) => pem_contents(text@) == Some(bytes@),
            Err(e) => e is ParseCaCert && pem_contents(text@).is_none(),
        },
{
    match parse_pem(text) {
        Ok(bytes) => Ok(bytes),
        Err(e) => Err(Error::ParseCaCert(e)),
    }
}

/// Reads the client's certificate out of its PEM text.
pub fn load_client_cert(text: &str) -> (der: Result<Vec<u8>, Error>)
    ensures
        match der {
            Ok(bytes) => pem_contents(text@) == Some(bytes@),
            Err(e) => e is ParseClientCert && pem_contents(text@).is_none(),
        },
{
    match parse_pem(text) {
        Ok(bytes) => Ok(bytes),
        Err(e) => Err(Error::ParseClientCert(e)),
    }
}

/// Reads the client's private key out of its PEM text.
pub fn load_client_key(text: &str) -> (der: Result<Vec<u8>, Error>)
    ensures
        match der {
            Ok(bytes) => pem_contents(text@) == Some(bytes@),
            Err(e) => e is ParseClientKey && pem_contents(text@).is_none(),
        },
{
    match parse_pem(text) {
        Ok(bytes) => Ok(bytes),
        Err(e) => Err(Error::ParseClientKey(e)),
    }
}

/// What can be wrong with the files that trust material is built from.
pub enum TrustFault {
    /// A client certificate stands without its key.
    MissingClientKey,
    /// A client key stands without its certificate.
    MissingClientCert,
    /// The client certificate's text holds no PEM block that can be read.
    ClientCert,
    /// The client key's text holds no PEM block that can be read.
    ClientKey,
    /// The root certificate's text holds no PEM block that can be read.
    CaCert,
    /// The root certificate's PEM block holds no certificate.
    CaAnchor,
}

/// The client identity that the texts of a certificate and a key give, or
/// what is wrong with them.
pub open spec fn identity_of(
    cert: Option<Seq<char>>,
    key: Option<Seq<char>>,
) -> Result<Option<(Seq<u8>, Seq<u8>)>, TrustFault> {
    match (cert, key) {
        (None, None) => Ok(None),
        (Some(_), None) => Err(TrustFault::MissingClientKey),
        (None, Some(_)) => Err(TrustFault::MissingClientCert),
        (Some(c), Some(k)) => match pem_contents(c) {
            None => Err(TrustFault::ClientCert),
            Some(cert_der) => match pem_contents(k) {
                None => Err(TrustFault::ClientKey),
                Some(key_der) => Ok(Some((cert_der, key_der))),
            },
        },
    }
}

/// The fault that an error reports, if it reports one of these.
pub open spec fn fault_of(e: Error) -> Option<TrustFault> {
    match e {
        Error::MissingClientKey => Some(TrustFault::MissingClientKey),
        Error::MissingClientCert => Some(TrustFault::MissingClientCert),
        Error::ParseClientCert(_) => Some(TrustFault::ClientCert),
        Error::ParseClientKey(_) => Some(TrustFault::ClientKey),
        Error::ParseCaCert(_) => Some(TrustFault::CaCert),
        Error::AddCaCert(_) => Some(TrustFault::CaAnchor),
        _ => None,
    }
}

/// Builds the client's identity from the texts of its certificate and key.
/// Neither given: no identity. One without the other: an error. Both: each
/// is read out of its PEM text, the certificate first.
pub fn add_client_cert(cert: Option<&str>, key: Option<&str>) -> (client: Result<
    Option<ClientIdentity>,
    Error,
>)
    ensures
        match client {
            Ok(found) => identity_of(str_view(cert), str_view(key)) matches Ok(client)
                && client == identity_view(found),
            Err(e) => identity_of(str_view(cert), str_view(key)) matches Err(fault)
                && fault_of(e) == Some(fault),
        },
{
    match cert {
        Some(cert_text) => match key {
            Some(key_text) => {
                let cert_der = load_client_cert(cert_text)?;
                let key_der = load_client_key(key_text)?;
                Ok(Some(ClientIdentity { cert: cert_der, key: key_der }))
            },
            None => Err(Error::MissingClientKey),
        },
        None => match key {
            Some(_) => Err(Error::MissingClientCert),
            None => Ok(None),
        },
    }
}

/// Trust material by what it holds.
pub struct TrustView {
    /// Whether the server is verified.
    pub verified: bool,
    /// The subjects of the roots that the server is verified against.
    pub roots: Seq<Seq<u8>>,
    /// The client's certificate and key.
    pub client: Option<(Seq<u8>, Seq<u8>)>,
}

impl TrustMaterial {
    pub open spec fn view(&self) -> TrustView {
        match *self {
            TrustMaterial::Insecure { client } => TrustView {
                verified: false,
                roots: Seq::empty(),
                client: identity_view(client),
            },
            TrustMaterial::Verified { roots, client } => TrustView {
                verified: true,
                roots: subjects(roots),
                client: identity_view(client),
            },
        }
    }
}

/// The subject of the root certificate that a PEM text holds, or what is
/// wrong with the text.
pub open spec fn ca_subject(text: Seq<char>) -> Result<Seq<u8>, TrustFault> {
    match pem_contents(text) {
        None => Err(TrustFault::CaCert),
        Some(der) => match anchor_subject(der) {
            None => Err(TrustFault::CaAnchor),
            Some(subject) => Ok(subject),
        },
    }
}

/// What is wrong with the root certificate's text, if there is a text and
/// anything is wrong with it.
pub open spec fn ca_fault(ca_text: Option<Seq<char>>) -> Option<TrustFault> {
    match ca_text {
        Some(text) => match ca_subject(text) {
            Ok(_) => None,
            Err(fault) => Some(fault),
        },
        None => None,
    }
}

/// The roots after the root certificate of a sound text has joined `roots`.
/// Without a text they stay as they are.
pub open spec fn roots_with(roots: Seq<Seq<u8>>, ca_text: Option<Seq<char>>) -> Seq<Seq<u8>> {
    match ca_text {
        Some(text) => match ca_subject(text) {
            Ok(subject) => roots.push(subject),
            Err(_) => roots,
        },
        None => roots,
    }
}

/// Adds the root certificate that `ca_text` holds, if there is a text, to
/// `roots`. A text without a PEM block that can be read, and a block that
/// holds no certificate, are errors.
pub fn add_ca_cert(roots: rustls::RootCertStore, ca_text: Option<&str>) -> (grown: Result<
    rustls::RootCertStore,
    Error,
>)
    ensures
        match grown {
            Ok(store) => ca_fault(str_view(ca_text)).is_none() && subjects(store) == roots_with(
                subjects(roots),
                str_view(ca_text),
            ),
            Err(e) => ca_fault(str_view(ca_text)).is_some() && fault_of(e) == ca_fault(
                str_view(ca_text),
            ),
        },
{
    let mut store = roots;
    match ca_text {
        None => Ok(store),
        Some(text) => {
            let der = load_ca_cert(text)?;
            match add_root(&mut store, &der) {
                Ok(_) => Ok(store),
                Err(e) => Err(Error::AddCaCert(e)),
            }
        },
    }
}

/// What is wrong with the files, if anything. The pairing of certificate and
/// key is looked at first, then the root certificate, unless verification is
/// skipped, then the client's certificate and key.
pub open spec fn trust_fault(skip_verify: bool, files: TrustFiles) -> Option<TrustFault> {
    let cert = text_view(files.client_cert);
    let key = text_view(files.client_key);
    if cert.is_some() && key.is_none() {
        Some(TrustFault::MissingClientKey)
    } else if cert.is_none() && key.is_some() {
        Some(TrustFault::MissingClientCert)
    } else if !skip_verify && ca_fault(text_view(files.ca_cert)).is_some() {
        ca_fault(text_view(files.ca_cert))
    } else {
        match identity_of(cert, key) {
            Ok(_) => None,
            Err(fault) => Some(fault),
        }
    }
}

/// The trust material that sound files give, `platform` being the subjects
/// of the platform's roots. With verification skipped no root plays a part.
pub open spec fn trust_built(
    skip_verify: bool,
    files: TrustFiles,
    platform: Seq<Seq<u8>>,
) -> TrustView {
    TrustView {
        verified: !skip_verify,
        roots: if skip_verify {
            Seq::empty()
        } else {
            roots_with(platform, text_view(files.ca_cert))
        },
        client: identity_of(text_view(files.client_cert), text_view(files.client_key))->Ok_0,
    }
}

/// Builds trust material from the texts of the configured files and the
/// platform's roots. With `skip_verify` the result is `Insecure`: the roots
/// and the root certificate's text, readable or not, make no difference.
/// Without it the root certificate joins the platform's roots. The client's
/// identity is built either way.
pub fn add_verifier(
    skip_verify: bool,
    texts: &TrustFiles,
    platform: rustls::RootCertStore,
) -> (material: Result<TrustMaterial, Error>)
    ensures
        match material {
            Ok(m) => trust_fault(skip_verify, *texts).is_none() && m@ == trust_built(
                skip_verify,
                *texts,
                subjects(platform),
            ),
            Err(e) => trust_fault(skip_verify, *texts).is_some() && fault_of(e) == trust_fault(
                skip_verify,
                *texts,
            ),
        },
        material matches Ok(m) ==> (m is Insecure <==> skip_verify),
{
    let cert: Option<&str> = match &texts.client_cert {
        Some(text) => Some(text.as_str()),
        None => None,
    };
    let key: Option<&str> = match &texts.client_key {
        Some(text) => Some(text.as_str()),
        None => None,
    };
    if cert.is_some() && key.is_none() {
        return Err(Error::MissingClientKey);
    }
    if cert.is_none() && key.is_some() {
        return Err(Error::MissingClientCert);
    }
    if skip_verify {
        let client = add_client_cert(cert, key)?;
        Ok(TrustMaterial::Insecure { client })
    } else {
        let ca: Option<&str> = match &texts.ca_cert {
            Some(text) => Some(text.as_str()),
            None => None,
        };
        let roots = add_ca_cert(platform, ca)?;
        let client = add_client_cert(cert, key)?;
        Ok(TrustMaterial::Verified { roots, client })
    }
}

/// Builds the trust material of a TLS session from the texts of the
/// configured files, on top of the platform's own roots. Which roots those
/// are is not known here: they are the first of the roots of what is built,
/// whatever they are, and have no part in whether it is built.
pub fn build_tls_config(skip_verify: bool, texts: &TrustFiles) -> (material: Result<
    TrustMaterial,
    Error,
>)
    ensures
        match material {
            Ok(m) => trust_fault(skip_verify, *texts).is_none() && exists|platform: Seq<Seq<u8>>|
                m@ == #[trigger] trust_built(skip_verify, *texts, platform),
            Err(e) => trust_fault(skip_verify, *texts).is_some() && fault_of(e) == trust_fault(
                skip_verify,
                *texts,
            ),
        },
        material matches Ok(m) ==> (m is Insecure <==> skip_verify),
{
    add_verifier(skip_verify, texts, platform_roots())
}

/// With verification skipped, the root certificate plays no part: whatever
/// its text is, readable or not, given or not, what is built is the same.
pub proof fn skip_verify_ignores_ca(
    one: TrustFiles,
    other: TrustFiles,
    roots: Seq<Seq<u8>>,
    other_roots: Seq<Seq<u8>>,
)
    requires
        one.client_cert == other.client_cert,
        one.client_key == other.client_key,
    ensures
        trust_fault(true, one) == trust_fault(true, other),
        trust_built(true, one, roots) == trust_built(true, other, other_roots),
        trust_fault(true, one) != Some(TrustFault::CaCert),
        trust_fault(true, one) != Some(TrustFault::CaAnchor),
{
}

/// A certificate without its key, or a key without its certificate, is
/// never passed over: nothing is built then, with verification or without.
pub proof fn unpaired_is_refused(skip_verify: bool, files: TrustFiles)
    requires
        !paired(files.client_cert, files.client_key),
    ensures
        trust_fault(skip_verify, files).is_some(),
{
}

} // verus!
