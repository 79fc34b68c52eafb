//! Assembly of an OpenSSH Ed25519 private key from a 32-byte seed, and its
//! OpenSSH text encoding.
use vstd::prelude::*;
use ssh_key::private::{Ed25519Keypair, Ed25519PrivateKey, KeypairData};
use ssh_key::public::Ed25519PublicKey;
use ssh_key::{LineEnding, PrivateKey};

verus! {

/// ssh-key's error type, carried through opaque and mapped to `EncodeError`.
#[verifier::external_type_specification]
#[verifier::external_body]
pub struct ExSshKeyError(ssh_key::Error);

/// The Ed25519 public key that the seed `seed` determines.
pub uninterp spec fn ed25519_public_of(seed: Seq<u8>) -> Seq<u8>;

/// The OpenSSH text (LF line endings) of an unencrypted Ed25519 private key.
pub uninterp spec fn openssh_text_of(comment: Seq<char>, private: Seq<u8>, public: Seq<u8>) -> Seq<char>;

/// Relies on ssh-key's `From<Ed25519PrivateKey> for Ed25519Keypair`, which
/// derives the public key from the seed with ed25519-dalek.
#[verifier::external_body]
fn derive_public(seed: &[u8; 32]) -> (r: [u8; 32])
    ensures
        r@ == ed25519_public_of(seed@),
{
    Ed25519Keypair::from(Ed25519PrivateKey::from_bytes(seed)).public.0
}

/// Relies on ssh-key's `PrivateKey::new` and `PrivateKey::to_openssh`, which
/// assemble an unencrypted Ed25519 key with the given comment and encode it
/// with LF line endings. `new` fails only on encrypted key data, and the
/// encoder only where a length prefix does not fit in a `u32`, which a comment
/// of fewer than 2^28 characters (at most 2^30 bytes) cannot bring about.
#[verifier::external_body]
fn encode_openssh(comment: &str, private: &[u8; 32], public: &[u8; 32]) -> (r: Result<String, ssh_key::Error>)
    ensures
        r matches Ok(text) ==> text@ == openssh_text_of(comment@, private@, public@),
        comment@.len() < 0x1000_0000 ==> r is Ok,
{
    let pair = Ed25519Keypair {
        public: Ed25519PublicKey(*public),
        private: Ed25519PrivateKey::from_bytes(private),
    };
    let key = PrivateKey::new(KeypairData::from(pair), comment)?;
    Ok(key.to_openssh(LineEnding::LF)?.to_string())
}

/// An SSH Ed25519 private key: the seed, the public key it determines, and a
/// free-text comment.
#[derive(Clone, Debug)]
pub struct SshEd25519Key {
    pub comment: String,
    pub private: [u8; 32],
    pub public: [u8; 32],
}

/// The encoding step failed.
#[derive(Clone, Copy, Debug, PartialEq, Eq)]
pub enum EncodeError {
    Encode,
}

impl SshEd25519Key {
    /// The key pair is the one its seed determines.
    pub open spec fn wf(&self) -> bool {
        self.public@ == ed25519_public_of(self.private@)
    }

    /// The key's OpenSSH text.
    pub open spec fn text(&self) -> Seq<char> {
        openssh_text_of(self.comment@, self.private@, self.public@)
    }

    /// Encodes the key in the OpenSSH private-key format, LF line endings.
    /// Succeeds whenever the comment is shorter than 2^28 characters.
    pub fn to_openssh(&self) -> (r: Result<String, EncodeError>)
        ensures
            match r {
                Ok(text) => text@ == self.text(),
                Err(e) => e == EncodeError::Encode,
            },
            self.comment@.len() < 0x1000_0000 ==> r is Ok,
    {
        match encode_openssh(self.comment.as_str(), &self.private, &self.public) {
            Ok(text) => Ok(text),
            Err(_) => Err(EncodeError::Encode),
        }
    }
}

/// The OpenSSH text of the key made from `comment` and `seed`.
pub open spec fn converted_text(comment: Seq<char>, seed: Seq<u8>) -> Seq<char> {
    openssh_text_of(comment, seed, ed25519_public_of(seed))
}

/// Makes the SSH key whose seed is `secret`, with the public key derived from
/// it and `comment` attached.
pub fn gpg_sp_to_ssh_pk(comment: &str, secret: &[u8; 32]) -> (r: SshEd25519Key)
    ensures
        r.wf(),
        r.comment@ == comment@,
        r.private == *secret,
        r.text() == converted_text(comment@, secret@),
{
    let public = derive_public(secret);
    SshEd25519Key { comment: comment.to_owned(), private: *secret, public }
}

/// Converting one comment and seed twice gives one key and one text.
pub proof fn lemma_conversion_deterministic(a: SshEd25519Key, b: SshEd25519Key)
    requires
        a.wf(),
        b.wf(),
        a.comment@ == b.comment@,
        a.private == b.private,
    ensures
        a.public@ == b.public@,
        a.text() == b.text(),
{
}

} // verus!
