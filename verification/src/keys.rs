//! Ed25519 keys, as the 32-byte values that they are stored and sent as.

use ed25519_dalek::{Signer, Verifier};
use vstd::prelude::*;

use crate::ticket::TicketError;

verus! {

/// The public key that `ed25519_dalek` derives from a secret key.
pub uninterp spec fn ed25519_public_key(secret: Seq<u8>) -> Seq<u8>;

/// The signature that `ed25519_dalek` makes of a message with a secret key.
pub uninterp spec fn ed25519_signature(secret: Seq<u8>, message: Seq<u8>) -> Seq<u8>;

/// Whether `ed25519_dalek` accepts a signature of a message under a public
/// key.
pub uninterp spec fn ed25519_accepts(key: Seq<u8>, message: Seq<u8>, signature: Seq<u8>) -> bool;

/// Whether `ed25519_dalek` takes 32 bytes to be a public key.
pub uninterp spec fn ed25519_decodes(key: Seq<u8>) -> bool;

/// `ed25519_dalek::SigningKey::verifying_key`: the public half of the key pair
/// that the secret stands for. The secret alone determines it.
#[verifier::external_body]
fn derive_public_key(secret: &[u8; 32]) -> (key: [u8; 32])
    ensures
        key@ == ed25519_public_key(secret@),
{
    ed25519_dalek::SigningKey::from_bytes(secret).verifying_key().to_bytes()
}

/// `ed25519_dalek::Signer::sign`: the signature, which the secret and the
/// message determine, is 64 bytes long and is accepted under the secret's own
/// public key.
#[verifier::external_body]
fn sign_message(secret: &[u8; 32], message: &[u8]) -> (signature: Vec<u8>)
    ensures
        signature@ == ed25519_signature(secret@, message@),
        signature@.len() == 64,
        ed25519_accepts(ed25519_public_key(secret@), message@, signature@),
{
    ed25519_dalek::SigningKey::from_bytes(secret).sign(message).to_vec()
}

/// `ed25519_dalek::Verifier::verify`: whether it accepts is determined by the
/// key, the message and the signature, and bytes that
/// `VerifyingKey::from_bytes` refuses accept nothing.
#[verifier::external_body]
fn verify_message(key: &[u8; 32], message: &[u8], signature: &[u8]) -> (accepted: bool)
    requires
        signature@.len() == 64,
    ensures
        accepted == ed25519_accepts(key@, message@, signature@),
        accepted ==> ed25519_decodes(key@),
{
    ed25519_dalek::VerifyingKey::from_bytes(key).and_then(
        |key|
            ed25519_dalek::Signature::from_slice(signature).and_then(
                |signature| key.verify(message, &signature),
            ),
    ).is_ok()
}

/// `ed25519_dalek::VerifyingKey::from_bytes`: whether the bytes decode to a
/// curve point is determined by the bytes.
#[verifier::external_body]
fn is_public_key(key: &[u8; 32]) -> (decodes: bool)
    ensures
        decodes == ed25519_decodes(key@),
{
    ed25519_dalek::VerifyingKey::from_bytes(key).is_ok()
}

/// Secret half of an Ed25519 key pair.
pub struct SigningKey {
    secret: [u8; 32],
}

/// Public half of an Ed25519 key pair.
#[derive(Debug, Clone, Copy)]
pub struct VerifyingKey {
    key: [u8; 32],
}

impl View for SigningKey {
    type V = Seq<u8>;

    closed spec fn view(&self) -> Seq<u8> {
        self.secret@
    }
}

impl View for VerifyingKey {
    type V = Seq<u8>;

    closed spec fn view(&self) -> Seq<u8> {
        self.key@
    }
}

impl SigningKey {
    /// The key pair that a 32-byte secret stands for.
    pub fn from_bytes(secret: &[u8; 32]) -> (key: Self)
        ensures
            key@ == secret@,
    {
        SigningKey { secret: *secret }
    }

    /// The public half of the key pair.
    pub fn verifying_key(&self) -> (key: VerifyingKey)
        ensures
            key@ == ed25519_public_key(self@),
            key@.len() == 32,
    {
        VerifyingKey { key: derive_public_key(&self.secret) }
    }

    /// Sign a message.
    pub fn sign(&self, message: &[u8]) -> (signature: Vec<u8>)
        ensures
            signature@ == ed25519_signature(self@, message@),
            signature@.len() == 64,
            ed25519_accepts(ed25519_public_key(self@), message@, signature@),
    {
        sign_message(&self.secret, message)
    }
}

impl VerifyingKey {
    /// The public key that 32 bytes encode, if they encode one.
    pub fn from_bytes(key: &[u8; 32]) -> (decoded: Result<Self, TicketError>)
        ensures
            decoded is Ok <==> ed25519_decodes(key@),
            match decoded {
                Ok(decoded) => decoded@ == key@,
                Err(error) => error is InvalidKeyEncoding,
            },
    {
        if is_public_key(key) {
            Ok(VerifyingKey { key: *key })
        } else {
            Err(TicketError::InvalidKeyEncoding)
        }
    }

    /// The 32 bytes that encode the key.
    pub fn to_bytes(&self) -> (bytes: [u8; 32])
        ensures
            bytes@ == self@,
    {
        self.key
    }

    /// Whether `signature`, of 64 bytes, is one of `message` under this key.
    pub fn accepts(&self, message: &[u8], signature: &[u8]) -> (accepted: bool)
        requires
            signature@.len() == 64,
        ensures
            accepted == ed25519_accepts(self@, message@, signature@),
            accepted ==> ed25519_decodes(self@),
    {
        verify_message(&self.key, message, signature)
    }
}

} // verus!
