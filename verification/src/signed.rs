//! Signing of evidence: an Ed25519 key pair signs the canonical bytes of a
//! certificate, and the signature travels as base64 text.

use crate::canonical::canonical_encoding;
use crate::evidence::WipeEvidence;
use ed25519_dalek::{Signer, Verifier};
use vstd::bytes::{
    lemma_auto_spec_u64_to_from_le_bytes, spec_u64_from_le_bytes, spec_u64_to_le_bytes,
    u64_from_le_bytes, u64_to_le_bytes,
};
use vstd::prelude::*;
use vstd::slice::slice_subrange;

verus! {

/// Bytes of a key pair: the secret key, then the public key.
pub const KEYPAIR_LEN: usize = 64;

/// Bytes of the secret key, which stands first in a key pair.
pub const SECRET_KEY_LEN: usize = 32;

/// Bytes of a signature.
pub const SIGNATURE_LEN: usize = 64;

/// Bytes of the length that stands before the key pair in a key file.
pub const BLOB_PREFIX_LEN: usize = 8;

/// Whether `ed25519_dalek::Keypair::from_bytes` takes these bytes as a key
/// pair.
pub uninterp spec fn ed25519_key_accepted(keypair: Seq<u8>) -> bool;

/// The signature that `ed25519_dalek::Keypair::sign` makes with a key pair
/// over a message.
pub uninterp spec fn ed25519_signature(keypair: Seq<u8>, message: Seq<u8>) -> Seq<u8>;

/// Whether `ed25519_dalek::PublicKey::verify` takes a signature over a
/// message for a public key, the key and the signature given as bytes.
pub uninterp spec fn ed25519_accepts(public_key: Seq<u8>, message: Seq<u8>, signature: Seq<u8>)
    -> bool;

/// The public key that `ed25519_dalek::PublicKey::from` derives from a secret
/// key, both as bytes; `None` where the bytes are no secret key.
pub uninterp spec fn ed25519_public_of(secret: Seq<u8>) -> Option<Seq<u8>>;

/// The text that `base64::encode` writes for a byte string.
pub uninterp spec fn base64_text(bytes: Seq<u8>) -> Seq<char>;

/// The bytes that `base64::decode` reads from a text, where it reads any.
pub uninterp spec fn base64_bytes(text: Seq<char>) -> Option<Seq<u8>>;

/// Why a key or a signature could not be had.
#[derive(Debug, Clone, Copy, PartialEq, Eq, Structural)]
pub enum SignError {
    /// The content of a key file is not a length followed by that many bytes.
    MalformedKeyFile,
    /// The bytes are not a key pair.
    InvalidKey,
}

/// The key pair that signs certificates.
#[derive(Debug, Clone)]
pub struct SigningIdentity {
    /// The secret key followed by the public key.
    pub keypair: Vec<u8>,
}

/// The two halves of a key pair belong together: the public key is the one
/// that the secret key gives.
pub open spec fn halves_match(keypair: Seq<u8>) -> bool {
    keypair.len() == 64 && ed25519_public_of(keypair.subrange(0, 32)) == Some(
        keypair.subrange(32, 64),
    )
}

impl SigningIdentity {
    /// The identity holds a key pair that the signature scheme takes.
    pub open spec fn wf(&self) -> bool {
        self.keypair@.len() == 64 && ed25519_key_accepted(self.keypair@)
    }

    /// The identity holds a key pair whose halves belong together, so that
    /// what it signs is accepted for its public key.
    pub open spec fn matched(&self) -> bool {
        halves_match(self.keypair@)
    }
}

/// A fresh key pair from `ed25519_dalek::Keypair::generate` over the
/// operating system's random source, as `Keypair::to_bytes` writes it.
/// Trusted: the result is 64 bytes that `Keypair::from_bytes` takes back, and
/// its public half is the one that `PublicKey::from` derives from its secret
/// half, as `generate` makes it. Which key comes is chance.
#[verifier::external_body]
fn ed25519_generate() -> (keypair: Vec<u8>)
    ensures
        keypair@.len() == 64,
        ed25519_key_accepted(keypair@),
        halves_match(keypair@),
{
    ed25519_dalek::Keypair::generate(&mut rand::rngs::OsRng {  }).to_bytes().to_vec()
}

/// Whether `ed25519_dalek::Keypair::from_bytes` takes `keypair`. Trusted: the
/// answer depends on the bytes alone, and bytes of another length than 64 are
/// refused.
#[verifier::external_body]
fn ed25519_check(keypair: &[u8]) -> (accepted: bool)
    ensures
        accepted == ed25519_key_accepted(keypair@),
        accepted ==> keypair@.len() == 64,
{
    ed25519_dalek::Keypair::from_bytes(keypair).is_ok()
}

/// The public key of a secret key, derived by `ed25519_dalek::PublicKey::from`
/// from the key that `SecretKey::from_bytes` reads. Trusted: the result
/// depends on the bytes alone; a public key has 32 bytes.
#[verifier::external_body]
fn ed25519_derive_public(secret: &[u8]) -> (public: Option<Vec<u8>>)
    ensures
        match public {
            Some(p) => ed25519_public_of(secret@) == Some(p@) && p@.len() == 32,
            None => ed25519_public_of(secret@) is None,
        },
{
    match ed25519_dalek::SecretKey::from_bytes(secret) {
        Ok(key) => Some(ed25519_dalek::PublicKey::from(&key).to_bytes().to_vec()),
        Err(_) => None,
    }
}

/// Signs `message` with `ed25519_dalek::Keypair::sign`, the key pair read by
/// `Keypair::from_bytes`. Trusted: there is a signature exactly where the key
/// pair is taken; it depends on key pair and message alone and is 64 bytes
/// long; and where the halves of the key pair belong together,
/// `PublicKey::verify` takes it for the public half over the same message,
/// which is what the crate documents of the key pairs that it generates.
#[verifier::external_body]
fn ed25519_sign(keypair: &[u8], message: &[u8]) -> (signature: Option<Vec<u8>>)
    ensures
        signature is Some <==> ed25519_key_accepted(keypair@),
        signature matches Some(s) ==> s@ == ed25519_signature(keypair@, message@) && s@.len()
            == 64,
        signature matches Some(s) ==> (halves_match(keypair@) ==> ed25519_accepts(
            keypair@.subrange(32, 64),
            message@,
            s@,
        )),
{
    match ed25519_dalek::Keypair::from_bytes(keypair) {
        Ok(pair) => Some(pair.sign(message).to_bytes().to_vec()),
        Err(_) => None,
    }
}

/// Checks `signature` over `message` with `ed25519_dalek::PublicKey::verify`,
/// key and signature read by their `from_bytes`. Trusted: the answer depends
/// on the three byte strings alone; a key of another length than 32 and a
/// signature of another length than 64 are refused.
#[verifier::external_body]
fn ed25519_verify(public_key: &[u8], message: &[u8], signature: &[u8]) -> (accepted: bool)
    ensures
        accepted == ed25519_accepts(public_key@, message@, signature@),
        accepted ==> public_key@.len() == 32 && signature@.len() == 64,
{
    match (
        ed25519_dalek::PublicKey::from_bytes(public_key),
        ed25519_dalek::Signature::from_bytes(signature),
    ) {
        (Ok(key), Ok(sig)) => key.verify(message, &sig).is_ok(),
        _ => false,
    }
}

/// Base64 text of `bytes`, written by `base64::encode`. Trusted: the text
/// depends on the bytes alone, and `base64::decode`, which reads the same
/// alphabet and padding, gives the bytes back from it.
#[verifier::external_body]
fn base64_encode(bytes: &[u8]) -> (text: String)
    ensures
        text@ == base64_text(bytes@),
        base64_bytes(text@) == Some(bytes@),
{
    base64::encode(bytes)
}

/// The bytes of a base64 text, read by `base64::decode`; `None` where the
/// crate refuses the text. Trusted: the result depends on the text alone.
#[verifier::external_body]
fn base64_decode(text: &str) -> (bytes: Option<Vec<u8>>)
    ensures
        match bytes {
            Some(b) => base64_bytes(text@) == Some(b@),
            None => base64_bytes(text@) is None,
        },
{
    base64::decode(text).ok()
}

/// Makes a new signing identity.
pub fn generate_keypair() -> (identity: SigningIdentity)
    ensures
        identity.wf(),
        identity.matched(),
{
    SigningIdentity { keypair: ed25519_generate() }
}

/// The content of the key file of a key pair: the number of its bytes as
/// eight little-endian bytes, then the bytes.
pub open spec fn keypair_blob(keypair: Seq<u8>) -> Seq<u8> {
    spec_u64_to_le_bytes(keypair.len() as u64) + keypair
}

/// The byte string that the content of a key file frames: the bytes that
/// follow the length, as many as the length says. What stands after them is
/// passed over. `None` where the content is shorter than its length says.
pub open spec fn framed_bytes(blob: Seq<u8>) -> Option<Seq<u8>> {
    if blob.len() < 8 {
        None
    } else {
        let count = spec_u64_from_le_bytes(blob.subrange(0, 8)) as int;
        if blob.len() - 8 < count {
            None
        } else {
            Some(blob.subrange(8, 8 + count))
        }
    }
}

impl SigningIdentity {
    /// The content of the key file of this identity.
    pub fn to_blob(&self) -> (blob: Vec<u8>)
        ensures
            blob@ == keypair_blob(self.keypair@),
    {
        let mut blob = u64_to_le_bytes(self.keypair.len() as u64);
        blob.extend_from_slice(self.keypair.as_slice());
        blob
    }

    /// Whether the halves of the key pair belong together. A key file that
    /// was put together from the halves of two key pairs loads, and signs,
    /// but what it signs is not accepted for its public half.
    pub fn is_matched(&self) -> (matched: bool)
        ensures
            matched == self.matched(),
    {
        if self.keypair.len() != KEYPAIR_LEN {
            return false;
        }
        let secret = slice_subrange(self.keypair.as_slice(), 0, SECRET_KEY_LEN);
        let public = slice_subrange(self.keypair.as_slice(), SECRET_KEY_LEN, KEYPAIR_LEN);
        match ed25519_derive_public(secret) {
            Some(derived) => same_bytes(derived.as_slice(), public),
            None => false,
        }
    }

    /// The public half of the key pair, against which signatures are
    /// checked; `None` where the identity does not hold 64 bytes.
    pub fn public_key(&self) -> (key: Option<Vec<u8>>)
        ensures
            match key {
                Some(k) => self.keypair@.len() == 64 && k@ == self.keypair@.subrange(32, 64),
                None => self.keypair@.len() != 64,
            },
    {
        if self.keypair.len() != KEYPAIR_LEN {
            return None;
        }
        let half = slice_subrange(self.keypair.as_slice(), SECRET_KEY_LEN, KEYPAIR_LEN);
        let mut key: Vec<u8> = Vec::new();
        key.extend_from_slice(half);
        Some(key)
    }
}

/// Whether two byte strings are the same.
pub fn same_bytes(a: &[u8], b: &[u8]) -> (same: bool)
    ensures
        same == (a@ == b@),
{
    if a.len() != b.len() {
        return false;
    }
    let mut i: usize = 0;
    while i < a.len()
        invariant
            a@.len() == b@.len(),
            i <= a@.len(),
            a@.subrange(0, i as int) == b@.subrange(0, i as int),
        decreases a@.len() - i,
    {
        if a[i] != b[i] {
            return false;
        }
        proof {
            assert(a@.subrange(0, i + 1) =~= a@.subrange(0, i as int).push(a@[i as int]));
            assert(b@.subrange(0, i + 1) =~= b@.subrange(0, i as int).push(b@[i as int]));
        }
        i = i + 1;
    }
    proof {
        assert(a@ =~= a@.subrange(0, a@.len() as int));
        assert(b@ =~= b@.subrange(0, b@.len() as int));
    }
    true
}

/// Makes a new signing identity and returns the content of its key file.
pub fn generate_keypair_to_file() -> (blob: Vec<u8>)
    ensures
        exists|keypair: Seq<u8>|
            keypair.len() == 64 && ed25519_key_accepted(keypair) && halves_match(keypair) && blob@
                == #[trigger] keypair_blob(keypair),
{
    let identity = generate_keypair();
    let blob = identity.to_blob();
    assert(blob@ == keypair_blob(identity.keypair@));
    blob
}

/// What loading the content of a key file gives: the framed bytes where they
/// are a key pair.
pub open spec fn loaded_keypair(blob: Seq<u8>) -> Result<Seq<u8>, SignError> {
    match framed_bytes(blob) {
        None => Err(SignError::MalformedKeyFile),
        Some(keypair) => if ed25519_key_accepted(keypair) {
            Ok(keypair)
        } else {
            Err(SignError::InvalidKey)
        },
    }
}

/// Reads a signing identity from the content of its key file.
pub fn load_keypair_from_file(blob: &[u8]) -> (loaded: Result<SigningIdentity, SignError>)
    ensures
        match loaded {
            Ok(identity) => loaded_keypair(blob@) == Ok::<Seq<u8>, SignError>(identity.keypair@)
                && identity.wf(),
            Err(e) => loaded_keypair(blob@) == Err::<Seq<u8>, SignError>(e),
        },
{
    if blob.len() < BLOB_PREFIX_LEN {
        return Err(SignError::MalformedKeyFile);
    }
    let count: u64 = u64_from_le_bytes(slice_subrange(blob, 0, BLOB_PREFIX_LEN));
    let left: usize = blob.len() - BLOB_PREFIX_LEN;
    if (left as u64) < count {
        return Err(SignError::MalformedKeyFile);
    }
    let framed = slice_subrange(blob, BLOB_PREFIX_LEN, BLOB_PREFIX_LEN + count as usize);
    if !ed25519_check(framed) {
        return Err(SignError::InvalidKey);
    }
    let mut keypair: Vec<u8> = Vec::new();
    keypair.extend_from_slice(framed);
    proof {
        assert(keypair@ =~= framed@);
        assert(framed_bytes(blob@) == Some(framed@));
    }
    Ok(SigningIdentity { keypair })
}

/// The content of the key file of any byte string frames that byte string:
/// what `to_blob` writes, `load_keypair_from_file` reads back, for an
/// identity that the signature scheme takes.
pub proof fn lemma_blob_round_trip(keypair: Seq<u8>)
    requires
        keypair.len() <= u64::MAX,
    ensures
        framed_bytes(keypair_blob(keypair)) == Some(keypair),
        ed25519_key_accepted(keypair) ==> loaded_keypair(keypair_blob(keypair)) == Ok::<
            Seq<u8>,
            SignError,
        >(keypair),
{
    lemma_auto_spec_u64_to_from_le_bytes();
    let blob = keypair_blob(keypair);
    let prefix = spec_u64_to_le_bytes(keypair.len() as u64);
    assert(blob.subrange(0, 8) =~= prefix);
    assert(blob.subrange(8, 8 + keypair.len() as int) =~= keypair);
}

/// The text of a signature: its base64 form, or the error where the key pair
/// gave no signature.
pub open spec fn signature_text_of(signature: Option<Seq<u8>>) -> Result<Seq<char>, SignError> {
    match signature {
        Some(s) => Ok(base64_text(s)),
        None => Err(SignError::InvalidKey),
    }
}

/// The characters of a signing result.
pub open spec fn text_result(result: Result<String, SignError>) -> Result<Seq<char>, SignError> {
    match result {
        Ok(text) => Ok(text@),
        Err(e) => Err(e),
    }
}

/// The bytes of an optional byte string.
pub open spec fn opt_bytes(bytes: Option<Vec<u8>>) -> Option<Seq<u8>> {
    match bytes {
        Some(b) => Some(b@),
        None => None,
    }
}

/// Writes a signature as text; a missing signature is an invalid key. The
/// text reads back as the signature.
pub fn signature_text(signature: Option<Vec<u8>>) -> (text: Result<String, SignError>)
    ensures
        text_result(text) == signature_text_of(opt_bytes(signature)),
        text matches Ok(t) ==> base64_bytes(t@) == opt_bytes(signature),
{
    match signature {
        Some(s) => Ok(base64_encode(s.as_slice())),
        None => Err(SignError::InvalidKey),
    }
}

/// The signature of a key pair over a message, where the key pair is taken.
pub open spec fn signature_of(keypair: Seq<u8>, message: Seq<u8>) -> Option<Seq<u8>> {
    if ed25519_key_accepted(keypair) {
        Some(ed25519_signature(keypair, message))
    } else {
        None
    }
}

/// Signs the canonical bytes of `ev` with the key pair of `kp` and returns
/// the signature as base64 text. The certificate is not changed, and signing
/// fails only where the identity holds no valid key pair. Where the halves of
/// the key pair belong together, the signature holds: checked against the
/// public half and the canonical bytes of this certificate it is accepted.
pub fn sign_evidence(kp: &SigningIdentity, ev: &WipeEvidence) -> (signed: Result<String, SignError>)
    ensures
        text_result(signed) == signature_text_of(
            signature_of(kp.keypair@, canonical_encoding(ev@)),
        ),
        kp.wf() ==> signed is Ok,
        signed matches Ok(text) ==> (kp.matched() ==> signature_holds(
            kp.keypair@.subrange(32, 64),
            canonical_encoding(ev@),
            text@,
        )),
{
    let canonical = ev.canonical_bytes();
    let signature = ed25519_sign(kp.keypair.as_slice(), canonical.as_slice());
    signature_text(signature)
}

/// Whether a signature that came as text is one: whether it is base64 of a
/// signature that the public key takes over the bytes.
pub open spec fn signature_holds(public_key: Seq<u8>, cert_bytes: Seq<u8>, signature: Seq<char>)
    -> bool {
    match base64_bytes(signature) {
        Some(sig) => ed25519_accepts(public_key, cert_bytes, sig),
        None => false,
    }
}

/// Judges decoded signature bytes against a public key and the bytes of a
/// certificate; text that was no base64 is no signature.
pub fn verify_decoded(public_key: &[u8], cert_bytes: &[u8], signature: Option<Vec<u8>>) -> (valid:
    bool)
    ensures
        valid == match signature {
            Some(sig) => ed25519_accepts(public_key@, cert_bytes@, sig@),
            None => false,
        },
{
    match signature {
        Some(sig) => ed25519_verify(public_key, cert_bytes, sig.as_slice()),
        None => false,
    }
}

/// Checks a signature, given as base64 text, over the canonical bytes of a
/// certificate against a public key.
pub fn verify(public_key: &[u8], cert_bytes: &[u8], signature: &str) -> (valid: bool)
    ensures
        valid == signature_holds(public_key@, cert_bytes@, signature@),
{
    let decoded = base64_decode(signature);
    verify_decoded(public_key, cert_bytes, decoded)
}

} // verus!
