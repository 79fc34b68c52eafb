//! A whole secret key document and its conversion, end to end, into OpenSSH
//! text.
use vstd::prelude::*;
use crate::convert::{converted_text, gpg_sp_to_ssh_pk, EncodeError};
use crate::params::{extraction, gpg_extract_sp, UnsupportedKeyError};
use crate::select::{find_secret_param_by_key_id, lowered, selection, SecretKeyEntry, SelectError};

verus! {

/// A secret key document: the primary key, its subkeys in order, and the
/// identity records (for instance `Name <email>`) as raw bytes.
#[derive(Clone, Debug)]
pub struct SecretKeyDocument {
    pub primary: SecretKeyEntry,
    pub subkeys: Vec<SecretKeyEntry>,
    pub identities: Vec<Vec<u8>>,
}

/// Why a document could not be converted.
#[derive(Clone, Copy, Debug, PartialEq, Eq)]
pub enum ConvertError {
    /// The identifier argument names no key of the document.
    KeyIdNotFound,
    /// The selected key material is encrypted or of another algorithm.
    Unsupported(UnsupportedKeyError),
    /// The SSH key could not be encoded.
    Encode,
}

/// The text that `str::from_utf8` reads from `bytes`, `None` where they are
/// not valid UTF-8.
pub uninterp spec fn utf8_text_of(bytes: Seq<u8>) -> Option<Seq<char>>;

/// Relies on `std::str::from_utf8`: decodes the bytes when they are valid
/// UTF-8.
#[verifier::external_body]
fn decode_utf8(bytes: &[u8]) -> (r: Option<String>)
    ensures
        match r {
            Some(s) => utf8_text_of(bytes@) == Some(s@),
            None => utf8_text_of(bytes@) is None,
        },
{
    match std::str::from_utf8(bytes) {
        Ok(s) => Some(s.to_string()),
        Err(_) => None,
    }
}

/// The comment that a document's identities give: the first identity's text,
/// or the empty string when there is no identity or its bytes are not UTF-8.
pub open spec fn comment_of(identities: Seq<Vec<u8>>) -> Seq<char> {
    if identities.len() == 0 {
        Seq::empty()
    } else {
        match utf8_text_of(identities[0]@) {
            Some(t) => t,
            None => Seq::empty(),
        }
    }
}

/// The comment for the SSH key: the first identity's text, else empty.
pub fn identity_comment(identities: &Vec<Vec<u8>>) -> (r: String)
    ensures
        r@ == comment_of(identities@),
{
    if identities.len() == 0 {
        return String::new();
    }
    match decode_utf8(identities[0].as_slice()) {
        Some(s) => s,
        None => String::new(),
    }
}

/// The scalar that the document yields for the identifier argument `target`
/// (already lowercased), or the error that stops the conversion.
pub open spec fn scalar_for(doc: SecretKeyDocument, target: Option<Seq<char>>) -> Result<[u8; 32], ConvertError> {
    match selection(target, doc.primary, doc.subkeys@) {
        Err(SelectError::KeyIdNotFound) => Err(ConvertError::KeyIdNotFound),
        Ok(b) => match extraction(b) {
            Ok(k) => Ok(k),
            Err(u) => Err(ConvertError::Unsupported(u)),
        },
    }
}

/// Converts the document's key chosen by `g_k_id` (the primary key when
/// absent) into OpenSSH private-key text, commented with the first identity.
/// Once a scalar is found, encoding fails only for a comment of 2^28
/// characters or more.
pub fn convert_document(doc: &SecretKeyDocument, g_k_id: &Option<String>) -> (r: Result<String, ConvertError>)
    ensures
        match scalar_for(*doc, lowered(*g_k_id)) {
            Err(e) => r == Err::<String, ConvertError>(e),
            Ok(k) => match r {
                Ok(text) => text@ == converted_text(comment_of(doc.identities@), k@),
                Err(e) => e == ConvertError::Encode,
            },
        },
        scalar_for(*doc, lowered(*g_k_id)) is Ok && comment_of(doc.identities@).len() < 0x1000_0000 ==> r is Ok,
{
    let comment = identity_comment(&doc.identities);
    let sp = match find_secret_param_by_key_id(g_k_id, &doc.primary, &doc.subkeys) {
        Ok(sp) => sp,
        Err(SelectError::KeyIdNotFound) => return Err(ConvertError::KeyIdNotFound),
    };
    let secret = match gpg_extract_sp(sp) {
        Ok(secret) => secret,
        Err(u) => return Err(ConvertError::Unsupported(u)),
    };
    let key = gpg_sp_to_ssh_pk(comment.as_str(), secret);
    match key.to_openssh() {
        Ok(text) => Ok(text),
        Err(EncodeError::Encode) => Err(ConvertError::Encode),
    }
}

} // verus!
