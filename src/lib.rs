//! Conversion of an elliptic-curve OpenPGP secret key into an OpenSSH Ed25519
//! private key: selection of the key material, extraction of the scalar, and
//! assembly of the SSH key.
use vstd::prelude::*;

pub mod params;
pub mod select;
pub mod convert;
pub mod document;

verus! {

} // verus!
