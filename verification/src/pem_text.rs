use vstd::prelude::*;

verus! {

#[verifier::external_type_specification]
#[verifier::external_body]
pub struct ExPemError(pem::PemError);

/// The bytes that the first PEM block of `text` holds, or `None` where
/// `text` holds no block that can be read.
pub uninterp spec fn pem_contents(text: Seq<char>) -> Option<Seq<u8>>;

/// Calls `pem::parse` on `text` and hands out the contents of the block it
/// found. Nothing is proved of the parser: the contract only says that what
/// it returns depends on `text` alone, under the name `pem_contents`.
#[verifier::external_body]
pub(crate) fn parse_pem(text: &str) -> (parsed: Result<Vec<u8>, pem::PemError>)
    ensures
        match parsed {
            Ok(bytes) => pem_contents(text@) == Some(bytes@),
            Err(_) => pem_contents(text@).is_none(),
        },
{
    match pem::parse(text) {
        Ok(block) => Ok(block.contents),
        Err(e) => Err(e),
    }
}

} // verus!
