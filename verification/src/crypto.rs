//! Hashing and signatures: SHA-256 from rust-crypto and Ed25519 from
//! ed25519-dalek, reached through a few trusted calls, and the key pair type
//! the node signs with.

use vstd::prelude::*;
use crypto::digest::Digest;
use ed25519_dalek::{Signer, Verifier};
use crate::text::{hex_lower, to_hex};

verus! {

/// The SHA-256 digest of `data`.
pub uninterp spec fn spec_sha256(data: Seq<u8>) -> Seq<u8>;

/// Whether `ed25519_dalek::PublicKey::from_bytes` accepts these bytes.
pub uninterp spec fn ed25519_public_key_accepted(public: Seq<u8>) -> bool;

/// Whether `ed25519_dalek::Keypair::from_bytes` accepts these bytes: 64 of
/// them, the last 32 an accepted public key (its source checks the length,
/// takes any 32 bytes as the secret, and parses the rest as a public key).
pub open spec fn ed25519_keypair_accepted(keypair: Seq<u8>) -> bool {
    keypair.len() == 64 && ed25519_public_key_accepted(keypair.subrange(32, 64))
}

/// Whether `ed25519_dalek::Signature::from_bytes` accepts these bytes.
pub uninterp spec fn ed25519_signature_accepted(sig: Seq<u8>) -> bool;

/// `ed25519_dalek::Signature::from_bytes` (from the ed25519 crate, version
/// 1.5).  Claimed: the answer is the named acceptance of these bytes, and
/// the source refuses any length but 64 (and a last byte with any of its
/// three high bits set).
#[verifier::external_body]
pub fn signature_accepted(sig: &[u8]) -> (ok: bool)
    ensures
        ok == ed25519_signature_accepted(sig@),
        ok ==> sig@.len() == 64,
{
    ed25519_dalek::Signature::from_bytes(sig).is_ok()
}

/// The public key that ed25519-dalek derives from these secret-key bytes.
pub uninterp spec fn ed25519_public_of(secret: Seq<u8>) -> Seq<u8>;

/// Whether the public half of key-pair bytes is the key derived from their
/// secret half, as in every key pair that ed25519-dalek generates.
pub open spec fn ed25519_keypair_matched(keypair: Seq<u8>) -> bool {
    keypair.len() == 64 && keypair.subrange(32, 64) == ed25519_public_of(keypair.subrange(0, 32))
}

/// The Ed25519 signature that the key pair with these bytes makes on `msg`.
pub uninterp spec fn ed25519_signature(keypair: Seq<u8>, msg: Seq<u8>) -> Seq<u8>;

/// Whether `sig` is accepted as a signature of `msg` under the public key `public`.
pub uninterp spec fn ed25519_verifies(public: Seq<u8>, msg: Seq<u8>, sig: Seq<u8>) -> bool;

/// `crypto::sha2::Sha256` of rust-crypto: `input` of the data, then `result`
/// into a 32-byte buffer.  Claimed: the buffer holds the named digest of the
/// input, 32 bytes long (the source fixes 256 output bits).
#[verifier::external_body]
fn sha256_digest(data: &[u8]) -> (digest: Vec<u8>)
    ensures
        digest@ == spec_sha256(data@),
        digest@.len() == 32,
{
    let mut hasher = crypto::sha2::Sha256::new();
    hasher.input(data);
    let mut buf = vec![0u8; 32];
    hasher.result(&mut buf);
    buf
}

/// The lowercase hexadecimal SHA-256 of `data`.
pub open spec fn spec_sha256_hex(data: Seq<u8>) -> Seq<char> {
    hex_lower(spec_sha256(data))
}

/// The SHA-256 digest of `data` as 64 lowercase hexadecimal characters.
pub fn sha256_hex(data: &[u8]) -> (h: String)
    ensures
        h@ == spec_sha256_hex(data@),
        h@.len() == 64,
{
    let d = sha256_digest(data);
    to_hex(d.as_slice())
}

/// `ed25519_dalek::PublicKey::from_bytes` (version 1.0).  Claimed: the
/// result is the named acceptance of these bytes, and the source refuses any
/// length but 32 (the bytes must also decompress to a curve point).
#[verifier::external_body]
pub fn public_key_accepted(bytes: &[u8]) -> (ok: bool)
    ensures
        ok == ed25519_public_key_accepted(bytes@),
        ok ==> bytes@.len() == 32,
{
    ed25519_dalek::PublicKey::from_bytes(bytes).is_ok()
}

/// `ed25519_dalek::Keypair::sign` on a key pair rebuilt from its bytes.
/// Claimed: the 64 signature bytes are the named signature of the message
/// under these key-pair bytes (Ed25519 signing is deterministic);
/// `Signature::from_bytes` accepts them, since the source builds every
/// signature it returns through that very call and unwraps its result; and,
/// when the public half is the one derived from the secret half, the
/// signature verifies under it, as the crate's documentation asserts of a
/// generated key pair.  Of a key pair whose halves do not match, nothing is
/// claimed about verification.
#[verifier::external_body]
fn keypair_sign(keypair: &[u8], msg: &[u8]) -> (sig: Vec<u8>)
    requires
        ed25519_keypair_accepted(keypair@),
    ensures
        sig@ == ed25519_signature(keypair@, msg@),
        sig@.len() == 64,
        ed25519_signature_accepted(sig@),
        ed25519_keypair_matched(keypair@) ==> ed25519_verifies(keypair@.subrange(32, 64), msg@, sig@),
{
    let kp = ed25519_dalek::Keypair::from_bytes(keypair).unwrap();
    kp.sign(msg).to_bytes().to_vec()
}

/// `ed25519_dalek::PublicKey::verify` after `PublicKey::from_bytes` and
/// `Signature::from_bytes`.  Claimed: the answer is the named verification
/// of these bytes; bytes that do not parse as a key or a signature are
/// refused, so acceptance implies a 32-byte key and a 64-byte signature.
#[verifier::external_body]
pub fn signature_verifies(public: &[u8], msg: &[u8], sig: &[u8]) -> (ok: bool)
    ensures
        ok == ed25519_verifies(public@, msg@, sig@),
        ok ==> public@.len() == 32 && sig@.len() == 64,
{
    match (ed25519_dalek::PublicKey::from_bytes(public), ed25519_dalek::Signature::from_bytes(sig)) {
        (Ok(pk), Ok(s)) => pk.verify(msg, &s).is_ok(),
        _ => false,
    }
}

/// `ed25519_dalek::SecretKey::generate` with the operating system's random
/// source (`OsRng` of rand), as bytes.  Claimed only their number, 32; the
/// bytes themselves are random.
#[verifier::external_body]
fn generate_secret_bytes() -> (secret: Vec<u8>)
    ensures
        secret@.len() == 32,
{
    ed25519_dalek::SecretKey::generate(&mut rand::rngs::OsRng {}).to_bytes().to_vec()
}

/// `PublicKey::from(&SecretKey)` of ed25519-dalek, after
/// `SecretKey::from_bytes`, which fails on any length but 32 (ruled out by
/// `requires`).  Claimed: the 32 bytes are the named derived key, and
/// `PublicKey::from_bytes` accepts them: they are the compression of a curve
/// point, which decompresses.
#[verifier::external_body]
fn public_of_secret(secret: &[u8]) -> (public: Vec<u8>)
    requires
        secret@.len() == 32,
    ensures
        public@ == ed25519_public_of(secret@),
        public@.len() == 32,
        ed25519_public_key_accepted(public@),
{
    let sk = ed25519_dalek::SecretKey::from_bytes(secret).unwrap();
    ed25519_dalek::PublicKey::from(&sk).to_bytes().to_vec()
}

/// An Ed25519 key pair: 32 secret bytes followed by 32 public-key bytes,
/// in a form that ed25519-dalek accepts.
pub struct KeyPair {
    bytes: Vec<u8>,
}

impl View for KeyPair {
    type V = Seq<u8>;

    closed spec fn view(&self) -> Seq<u8> {
        self.bytes@
    }
}

impl KeyPair {
    #[verifier::type_invariant]
    closed spec fn accepted(self) -> bool {
        ed25519_keypair_accepted(self.bytes@)
    }

    /// The key pair with these 64 bytes, if ed25519-dalek accepts them.
    pub fn from_bytes(bytes: &[u8]) -> (kp: Option<KeyPair>)
        ensures
            kp is Some <==> ed25519_keypair_accepted(bytes@),
            kp matches Some(k) ==> k@ == bytes@,
    {
        if bytes.len() == 64 && public_key_accepted(vstd::slice::slice_subrange(bytes, 32, 64)) {
            let mut v: Vec<u8> = Vec::new();
            crate::encoding::append_bytes(&mut v, bytes);
            Some(KeyPair { bytes: v })
        } else {
            None
        }
    }

    /// The key pair made of a secret key and a public key, if accepted.
    pub fn from_parts(secret: &[u8], public: &[u8]) -> (kp: Option<KeyPair>)
        ensures
            kp is Some <==> ed25519_keypair_accepted(secret@ + public@),
            kp matches Some(k) ==> k@ == secret@ + public@,
    {
        let mut v: Vec<u8> = Vec::new();
        crate::encoding::append_bytes(&mut v, secret);
        crate::encoding::append_bytes(&mut v, public);
        KeyPair::from_bytes(v.as_slice())
    }

    /// A copy of this key pair.
    pub fn duplicate(&self) -> (kp: KeyPair)
        ensures
            kp@ == self@,
    {
        proof {
            use_type_invariant(self);
        }
        let mut bytes: Vec<u8> = Vec::new();
        crate::encoding::append_bytes(&mut bytes, self.bytes.as_slice());
        KeyPair { bytes }
    }

    /// A new key pair: a random secret key and the public key derived from it.
    pub fn generate() -> (kp: KeyPair)
        ensures
            ed25519_keypair_accepted(kp@),
            ed25519_keypair_matched(kp@),
    {
        let secret = generate_secret_bytes();
        let public = public_of_secret(secret.as_slice());
        let mut bytes: Vec<u8> = Vec::new();
        crate::encoding::append_bytes(&mut bytes, secret.as_slice());
        crate::encoding::append_bytes(&mut bytes, public.as_slice());
        assert(bytes@.subrange(0, 32) =~= secret@);
        assert(bytes@.subrange(32, 64) =~= public@);
        KeyPair { bytes }
    }

    /// The 32 public-key bytes.
    pub fn public_key(&self) -> (pk: Vec<u8>)
        ensures
            pk@ == self@.subrange(32, 64),
    {
        proof {
            use_type_invariant(self);
        }
        self.half(32)
    }

    /// The 32 secret-key bytes.
    pub fn secret_key(&self) -> (sk: Vec<u8>)
        ensures
            sk@ == self@.subrange(0, 32),
    {
        proof {
            use_type_invariant(self);
        }
        self.half(0)
    }

    fn half(&self, start: usize) -> (part: Vec<u8>)
        requires
            start == 0 || start == 32,
            self.bytes@.len() == 64,
        ensures
            part@ == self@.subrange(start as int, start + 32),
    {
        let mut part: Vec<u8> = Vec::new();
        let mut i: usize = start;
        assert(part@ =~= self.bytes@.subrange(start as int, start as int));
        while i < start + 32
            invariant
                start <= i <= start + 32,
                start + 32 <= 64,
                self.bytes@.len() == 64,
                part@ == self.bytes@.subrange(start as int, i as int),
            decreases start + 32 - i,
        {
            part.push(self.bytes[i]);
            i = i + 1;
            assert(part@ =~= self.bytes@.subrange(start as int, i as int));
        }
        part
    }

    /// The signature of `msg` with this key pair.
    pub fn sign(&self, msg: &[u8]) -> (sig: Vec<u8>)
        ensures
            sig@ == ed25519_signature(self@, msg@),
            sig@.len() == 64,
            ed25519_signature_accepted(sig@),
            ed25519_keypair_matched(self@) ==> ed25519_verifies(self@.subrange(32, 64), msg@, sig@),
    {
        proof {
            use_type_invariant(self);
        }
        keypair_sign(self.bytes.as_slice(), msg)
    }
}

} // verus!
