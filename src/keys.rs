use vstd::prelude::*;
use solana_sdk::signature::{Keypair, Signature, Signer};
use crate::error::LedgerError;

verus! {

/// The ed25519 public key that the signing scheme derives from a 32-byte seed.
pub uninterp spec fn public_of_seed(seed: Seq<u8>) -> Seq<u8>;

/// The ed25519 signature of `message` under the key derived from `seed`.
pub uninterp spec fn ed25519_signature(seed: Seq<u8>, message: Seq<u8>) -> Seq<u8>;

/// Whether `signature` authenticates `message` under the public key `public`.
pub uninterp spec fn signature_verifies(signature: Seq<u8>, public: Seq<u8>, message: Seq<u8>) -> bool;

/// The seed half of a 64-byte secret.
pub open spec fn seed_of(secret: Seq<u8>) -> Seq<u8> {
    secret.subrange(0, 32)
}

/// The public-key half of a 64-byte secret.
pub open spec fn public_of(secret: Seq<u8>) -> Seq<u8> {
    secret.subrange(32, 64)
}

/// A 64-byte secret whose public half is the key derived from its seed half.
pub open spec fn keypair_consistent(secret: Seq<u8>) -> bool {
    secret.len() == 64 && public_of(secret) == public_of_seed(seed_of(secret))
}

/// Relies on `Keypair::try_from(&[u8])`: it accepts exactly 64 bytes whose
/// last 32 are the public key derived from the first 32.
#[verifier::external_body]
fn keypair_bytes_accepted(bytes: &[u8]) -> (r: bool)
    ensures
        r == keypair_consistent(bytes@),
{
    Keypair::try_from(bytes).is_ok()
}

/// Relies on `Keypair::new`: fresh random key material from the operating
/// system, laid out as seed followed by derived public key.
#[verifier::external_body]
fn random_keypair_bytes() -> (r: [u8; 64])
    ensures
        keypair_consistent(r@),
{
    Keypair::new().to_bytes()
}

/// Relies on `Keypair::new_from_array` and `pubkey`: the public key derived
/// from the seed.
#[verifier::external_body]
fn derive_public(seed: &[u8; 32]) -> (r: [u8; 32])
    ensures
        r@ == public_of_seed(seed@),
{
    Keypair::new_from_array(*seed).pubkey().to_bytes()
}

/// Relies on `Keypair::new_from_array` and `sign_message`: ed25519 signing is
/// deterministic in the seed and the message.
#[verifier::external_body]
fn sign_with_seed(seed: &[u8; 32], message: &[u8]) -> (r: [u8; 64])
    ensures
        r@ == ed25519_signature(seed@, message@),
{
    Keypair::new_from_array(*seed).sign_message(message).into()
}

/// Relies on `Signature::try_from(&[u8])`: it takes exactly 64 bytes.
#[verifier::external_body]
fn signature_from_bytes(bytes: &[u8]) -> (r: Option<[u8; 64]>)
    ensures
        r is Some <==> bytes@.len() == 64,
        r matches Some(a) ==> a@ == bytes@,
{
    Signature::try_from(bytes).ok().map(|s| s.into())
}

/// Relies on `Signature::verify`.
#[verifier::external_body]
fn signature_check(signature: &[u8; 64], public: &[u8; 32], message: &[u8]) -> (r: bool)
    ensures
        r == signature_verifies(signature@, public@, message@),
{
    Signature::from(*signature).verify(public, message)
}

/// Copies `len` bytes of `src` from `start` into a new vector.
fn copy_range(src: &[u8], start: usize, len: usize) -> (r: Vec<u8>)
    requires
        start + len <= src@.len(),
    ensures
        r@ == src@.subrange(start as int, start + len),
{
    let n: usize = src.len();
    let mut r: Vec<u8> = Vec::with_capacity(len);
    let mut i: usize = 0;
    while i < len
        invariant
            n == src@.len(),
            start + len <= src@.len(),
            i <= len,
            r@ == src@.subrange(start as int, start + i),
        decreases len - i,
    {
        r.push(src[start + i]);
        i = i + 1;
    }
    r
}

/// Copies 32 bytes of `src` from `start` into an array.
pub fn array32_at(src: &[u8], start: usize) -> (r: [u8; 32])
    requires
        start + 32 <= src@.len(),
    ensures
        r@ == src@.subrange(start as int, start + 32),
{
    let n: usize = src.len();
    let mut r: [u8; 32] = [0u8; 32];
    let mut i: usize = 0;
    while i < 32
        invariant
            n == src@.len(),
            start + 32 <= src@.len(),
            i <= 32,
            r@.len() == 32,
            forall|j: int| 0 <= j < i ==> r@[j] == src@[start + j],
        decreases 32 - i,
    {
        r[i] = src[start + i];
        i = i + 1;
    }
    assert(r@ =~= src@.subrange(start as int, start + 32));
    r
}

/// An ed25519 keypair: a 32-byte seed and the public key derived from it.
pub struct KeyPair {
    seed: [u8; 32],
    public: [u8; 32],
}

impl View for KeyPair {
    type V = Seq<u8>;

    /// The 64-byte secret: seed followed by public key.
    closed spec fn view(&self) -> Seq<u8> {
        self.seed@ + self.public@
    }
}

impl KeyPair {
    /// The keypair is well formed: its 64 bytes are consistent.
    pub open spec fn wf(&self) -> bool {
        keypair_consistent(self@)
    }

    /// Rebuilds a keypair from its 64 secret bytes (seed, then public key).
    pub fn from_secret_bytes(bytes: &[u8]) -> (r: Result<KeyPair, LedgerError>)
        ensures
            r is Ok <==> keypair_consistent(bytes@),
            r matches Ok(k) ==> k.wf() && k@ == bytes@
                && public_of(k@) == public_of_seed(seed_of(bytes@)),
            r matches Err(e) ==> e == LedgerError::InvalidKeypair,
    {
        if bytes.len() != 64 || !keypair_bytes_accepted(bytes) {
            return Err(LedgerError::InvalidKeypair);
        }
        let seed = array32_at(bytes, 0);
        let public = array32_at(bytes, 32);
        let k = KeyPair { seed, public };
        assert(k@ =~= bytes@);
        Ok(k)
    }

    /// The keypair whose seed is `seed`, with its public key derived.
    pub fn from_seed(seed: &[u8; 32]) -> (r: KeyPair)
        ensures
            r.wf(),
            seed_of(r@) == seed@,
            public_of(r@) == public_of_seed(seed@),
    {
        let public = derive_public(seed);
        let r = KeyPair { seed: *seed, public };
        assert(seed_of(r@) =~= seed@);
        assert(public_of(r@) =~= public@);
        r
    }

    /// A keypair made from fresh operating-system randomness.
    pub fn generate() -> (r: KeyPair)
        ensures
            r.wf(),
    {
        let bytes = random_keypair_bytes();
        let seed = array32_at(&bytes, 0);
        let public = array32_at(&bytes, 32);
        let r = KeyPair { seed, public };
        assert(r@ =~= bytes@);
        r
    }

    /// The 64 secret bytes: seed followed by public key.
    pub fn to_bytes(&self) -> (r: Vec<u8>)
        ensures
            r@ == self@,
    {
        let mut r = copy_range(&self.seed, 0, 32);
        let mut tail = copy_range(&self.public, 0, 32);
        r.append(&mut tail);
        assert(r@ =~= self@);
        r
    }

    /// The public key, the address that signatures are checked against.
    pub fn public_key(&self) -> (r: [u8; 32])
        ensures
            r@ == public_of(self@),
    {
        assert(public_of(self@) =~= self.public@);
        self.public
    }

    /// The detached signature of `message`.
    pub fn sign(&self, message: &[u8]) -> (r: [u8; 64])
        ensures
            r@ == ed25519_signature(seed_of(self@), message@),
    {
        assert(seed_of(self@) =~= self.seed@);
        sign_with_seed(&self.seed, message)
    }
}

/// Checks a detached signature. Bytes that are not 64 long are a format
/// error; a well-formed signature that does not match gives `Ok(false)`.
pub fn verify(public: &[u8; 32], message: &[u8], signature: &[u8]) -> (r: Result<bool, LedgerError>)
    ensures
        r is Err <==> signature@.len() != 64,
        r matches Err(e) ==> e == LedgerError::InvalidSignatureFormat,
        r matches Ok(v) ==> v == signature_verifies(signature@, public@, message@),
{
    match signature_from_bytes(signature) {
        Some(sig) => Ok(signature_check(&sig, public, message)),
        None => Err(LedgerError::InvalidSignatureFormat),
    }
}

/// Signing is deterministic: the same keypair and message give the same
/// signature.
pub proof fn lemma_sign_deterministic(k1: KeyPair, k2: KeyPair, m1: Seq<u8>, m2: Seq<u8>)
    requires
        k1@ == k2@,
        m1 == m2,
    ensures
        ed25519_signature(seed_of(k1@), m1) == ed25519_signature(seed_of(k2@), m2),
{
}

} // verus!
