//! Secret parameters of an OpenPGP key, and extraction of the 32-byte scalar
//! from them.
use vstd::prelude::*;

verus! {

/// Unencrypted secret key material, tagged by the algorithm it belongs to.
#[derive(Clone, Copy, Debug, PartialEq, Eq)]
pub enum PlainSecret {
    /// EdDSA over Curve25519 in the legacy (pre-RFC 9580) encoding.
    Ed25519Legacy([u8; 32]),
    /// Ed25519 in the RFC 9580 encoding.
    Ed25519([u8; 32]),
    /// ECDH over Curve25519.
    EcdhCurve25519([u8; 32]),
    /// Any other algorithm, by its OpenPGP public-key algorithm id.
    Other(u8),
}

/// The secret parameters of one key: plain, or locked by a passphrase.
#[derive(Clone, Copy, Debug, PartialEq, Eq)]
pub enum SecretParamBundle {
    Plain(PlainSecret),
    Encrypted,
}

/// Why the secret parameters cannot be converted.
#[derive(Clone, Copy, Debug, PartialEq, Eq)]
pub enum UnsupportedKeyError {
    /// The key material is passphrase-protected.
    Encrypted,
    /// The algorithm is outside the Curve25519 family (RSA, for one).
    Algorithm(u8),
}

/// The scalar held by `b`, or the reason it has none that can be converted.
pub open spec fn extraction(b: SecretParamBundle) -> Result<[u8; 32], UnsupportedKeyError> {
    match b {
        SecretParamBundle::Plain(PlainSecret::Ed25519Legacy(k)) => Ok(k),
        SecretParamBundle::Plain(PlainSecret::Ed25519(k)) => Ok(k),
        SecretParamBundle::Plain(PlainSecret::EcdhCurve25519(k)) => Ok(k),
        SecretParamBundle::Plain(PlainSecret::Other(tag)) => Err(UnsupportedKeyError::Algorithm(tag)),
        SecretParamBundle::Encrypted => Err(UnsupportedKeyError::Encrypted),
    }
}

/// Returns the 32-byte scalar of a plain Curve25519-family key, unchanged.
pub fn gpg_extract_sp(g_sp: &SecretParamBundle) -> (r: Result<&[u8; 32], UnsupportedKeyError>)
    ensures
        match r {
            Ok(k) => extraction(*g_sp) == Ok::<[u8; 32], UnsupportedKeyError>(*k),
            Err(e) => extraction(*g_sp) == Err::<[u8; 32], UnsupportedKeyError>(e),
        },
{
    match g_sp {
        SecretParamBundle::Plain(PlainSecret::Ed25519Legacy(k)) => Ok(k),
        SecretParamBundle::Plain(PlainSecret::Ed25519(k)) => Ok(k),
        SecretParamBundle::Plain(PlainSecret::EcdhCurve25519(k)) => Ok(k),
        SecretParamBundle::Plain(PlainSecret::Other(tag)) => Err(UnsupportedKeyError::Algorithm(*tag)),
        SecretParamBundle::Encrypted => Err(UnsupportedKeyError::Encrypted),
    }
}

/// The three Curve25519-family encodings of one scalar extract to that same
/// scalar.
pub proof fn lemma_extraction_representation_transparent(k: [u8; 32])
    ensures
        extraction(SecretParamBundle::Plain(PlainSecret::Ed25519(k))) == Ok::<[u8; 32], UnsupportedKeyError>(k),
        extraction(SecretParamBundle::Plain(PlainSecret::Ed25519Legacy(k))) == Ok::<[u8; 32], UnsupportedKeyError>(k),
        extraction(SecretParamBundle::Plain(PlainSecret::EcdhCurve25519(k))) == Ok::<[u8; 32], UnsupportedKeyError>(k),
{
}

/// Encrypted key material, and plain material of any algorithm outside the
/// Curve25519 family, yields no scalar.
pub proof fn lemma_extraction_rejects_unsupported(b: SecretParamBundle)
    requires
        b == SecretParamBundle::Encrypted || b is Plain && b->Plain_0 is Other,
    ensures
        extraction(b) is Err,
{
}

} // verus!
