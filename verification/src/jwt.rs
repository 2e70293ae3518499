//! The App's signing key, held as a `jsonwebtoken` key handle.

use vstd::prelude::*;

verus! {

#[verifier::external_type_specification]
#[verifier::external_body]
pub struct ExEncodingKey(jsonwebtoken::EncodingKey);

#[verifier::external_type_specification]
#[verifier::external_body]
pub struct ExJwtError(jsonwebtoken::errors::Error);

/// Whether a byte string is a PEM-encoded RSA private key that
/// `EncodingKey::from_rsa_pem` accepts.  The parse reads the bytes alone,
/// so acceptance is a function of them.
pub uninterp spec fn rsa_pem_ok(pem: Seq<u8>) -> bool;

/// Relies on `jsonwebtoken::EncodingKey::from_rsa_pem`: parses an RSA
/// private key in PEM form into a ready-to-sign key handle, succeeding
/// exactly on the inputs `rsa_pem_ok` names.
#[verifier::external_body]
pub(crate) fn encoding_key_from_rsa_pem(pem: &[u8]) -> (r: Result<
    jsonwebtoken::EncodingKey,
    jsonwebtoken::errors::Error,
>)
    ensures
        r is Ok <==> rsa_pem_ok(pem@),
{
    jsonwebtoken::EncodingKey::from_rsa_pem(pem)
}

/// Relies on `jsonwebtoken::EncodingKey::clone` (a derived clone of the key
/// material): the copy signs exactly as the original does.
#[verifier::external_body]
pub(crate) fn clone_encoding_key(key: &jsonwebtoken::EncodingKey) -> jsonwebtoken::EncodingKey {
    key.clone()
}

} // verus!
