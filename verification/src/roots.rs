use vstd::prelude::*;
use webpki::Error as AnchorError;

verus! {

#[verifier::external_type_specification]
#[verifier::external_body]
pub struct ExRootCertStore(rustls::RootCertStore);

#[verifier::external_type_specification]
#[verifier::external_body]
pub struct ExAnchorError(AnchorError);

/// The subjects of the trust anchors that a store holds, in the order in
/// which they were added.
pub uninterp spec fn subjects(store: rustls::RootCertStore) -> Seq<Seq<u8>>;

/// The subject of the trust anchor that a certificate in DER stands for, or
/// `None` where the bytes cannot be read as a certificate.
pub uninterp spec fn anchor_subject(der: Seq<u8>) -> Option<Seq<u8>>;

/// Makes a store with `RootCertStore::empty` and fills it, through
/// `RootCertStore::add_server_trust_anchors`, with the anchors of
/// `webpki_roots::TLS_SERVER_ROOTS`. Nothing is claimed of what they are.
#[verifier::external_body]
pub(crate) fn platform_roots() -> (store: rustls::RootCertStore) {
    let mut store = rustls::RootCertStore::empty();
    store.add_server_trust_anchors(
        webpki_roots::TLS_SERVER_ROOTS.0.iter().map(
            |anchor|
                rustls::OwnedTrustAnchor::from_subject_spki_name_constraints(
                    anchor.subject,
                    anchor.spki,
                    anchor.name_constraints,
                ),
        ),
    );
    store
}

/// Calls `RootCertStore::add` with the certificate `der`. The store reads a
/// trust anchor out of the bytes and appends it; where it cannot read one it
/// returns the error and is left as it was. The contract claims just that,
/// and that whether an anchor can be read, and its subject, depend on the
/// bytes alone.
#[verifier::external_body]
pub(crate) fn add_root(store: &mut rustls::RootCertStore, der: &Vec<u8>) -> (added: Result<
    (),
    AnchorError,
>)
    ensures
        match added {
            Ok(_) => anchor_subject(der@) matches Some(subject) && subjects(*final(store))
                == subjects(*old(store)).push(subject),
            Err(_) => anchor_subject(der@).is_none() && subjects(*final(store)) == subjects(
                *old(store),
            ),
        },
{
    store.add(&rustls::Certificate(der.clone()))
}

} // verus!
