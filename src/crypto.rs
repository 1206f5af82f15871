//! Layered encryption for the planned multi-hop transport: each hop's layer is
//! a random nonce followed by the ChaCha20-Poly1305 sealing of the layer inside.
use vstd::prelude::*;
use chacha20poly1305::aead::{Aead, KeyInit};
use rand::RngCore;
use vstd::utf8::encode_utf8;

verus! {

/// Length of a nonce.
pub const NONCE_LEN: usize = 12;

/// Length of the authentication tag that sealing appends.
pub const TAG_LEN: usize = 16;

/// Length of a session key.
pub const KEY_LEN: usize = 32;

/// Plaintexts shorter than this (2^32 - 1 blocks of 64 bytes) can be sealed.
pub const SEAL_LIMIT: u64 = 274877906880;

#[verifier::external_type_specification]
#[verifier::external_body]
pub struct ExEphemeralSecret(x25519_dalek::EphemeralSecret);

#[verifier::external_type_specification]
#[verifier::external_body]
pub struct ExPublicKey(x25519_dalek::PublicKey);

/// What ChaCha20-Poly1305 sealing gives for a key, a nonce and a plaintext.
pub uninterp spec fn sealed_of(key: Seq<u8>, nonce: Seq<u8>, plaintext: Seq<u8>) -> Option<Seq<u8>>;

/// What ChaCha20-Poly1305 opening gives for a key, a nonce and a ciphertext.
pub uninterp spec fn opened_of(key: Seq<u8>, nonce: Seq<u8>, ciphertext: Seq<u8>) -> Option<Seq<u8>>;

/// Relies on rand's `thread_rng().fill_bytes`: `n` random bytes.
#[verifier::external_body]
fn random_bytes(n: usize) -> (r: Vec<u8>)
    ensures
        r@.len() == n,
{
    let mut v = vec![0u8; n];
    rand::thread_rng().fill_bytes(&mut v);
    v
}

/// Relies on chacha20poly1305's `new_from_slice` and `Aead::encrypt`: the result
/// depends on the three inputs alone, fails for a key that is not 32 bytes,
/// succeeds for a 32-byte key below the cipher's block limit, and is the
/// plaintext's length plus a 16-byte tag.
#[verifier::external_body]
fn seal(key: &[u8], nonce: &[u8], plaintext: &[u8]) -> (r: Option<Vec<u8>>)
    requires
        nonce@.len() == NONCE_LEN,
    ensures
        r matches Some(c) ==> Some(c@) == sealed_of(key@, nonce@, plaintext@),
        r is None ==> sealed_of(key@, nonce@, plaintext@) is None,
        r matches Some(c) ==> c@.len() == plaintext@.len() + TAG_LEN,
        key@.len() == KEY_LEN && plaintext@.len() < SEAL_LIMIT ==> r is Some,
{
    let cipher = chacha20poly1305::ChaCha20Poly1305::new_from_slice(key).ok()?;
    cipher.encrypt(chacha20poly1305::Nonce::from_slice(nonce), plaintext).ok()
}

/// Relies on chacha20poly1305's `new_from_slice` and `Aead::decrypt`: the result
/// depends on the three inputs alone.
#[verifier::external_body]
fn open(key: &[u8], nonce: &[u8], ciphertext: &[u8]) -> (r: Option<Vec<u8>>)
    requires
        nonce@.len() == NONCE_LEN,
    ensures
        r matches Some(p) ==> Some(p@) == opened_of(key@, nonce@, ciphertext@),
        r is None ==> opened_of(key@, nonce@, ciphertext@) is None,
{
    let cipher = chacha20poly1305::ChaCha20Poly1305::new_from_slice(key).ok()?;
    cipher.decrypt(chacha20poly1305::Nonce::from_slice(nonce), ciphertext).ok()
}

/// Relies on x25519-dalek's `EphemeralSecret::random_from_rng` (with the
/// operating system's generator) and `PublicKey::from`: a fresh key pair.
#[verifier::external_body]
pub fn generate_keypair() -> (x25519_dalek::EphemeralSecret, x25519_dalek::PublicKey) {
    let secret = x25519_dalek::EphemeralSecret::random_from_rng(chacha20poly1305::aead::OsRng);
    let public = x25519_dalek::PublicKey::from(&secret);
    (secret, public)
}

fn copy_bytes(v: &[u8], from: usize, to: usize) -> (r: Vec<u8>)
    requires
        from <= to <= v@.len(),
    ensures
        r@ == v@.subrange(from as int, to as int),
{
    let mut r: Vec<u8> = Vec::new();
    let mut i = from;
    while i < to
        invariant
            from <= i <= to,
            to <= v@.len(),
            r@ == v@.subrange(from as int, i as int),
        decreases to - i,
    {
        r.push(v[i]);
        assert(r@ =~= v@.subrange(from as int, i + 1));
        i = i + 1;
    }
    r
}

/// `v` is `payload` wrapped in `hops` layers under `key`: each layer is a
/// nonce followed by the sealing of the layer inside it.
pub open spec fn onion_of(key: Seq<u8>, payload: Seq<u8>, hops: nat, v: Seq<u8>) -> bool
    decreases hops,
{
    if hops == 0 {
        v == payload
    } else {
        v.len() >= NONCE_LEN && exists|inner: Seq<u8>|
            onion_of(key, payload, (hops - 1) as nat, inner) && Some(v.subrange(NONCE_LEN as int, v.len() as int))
                == #[trigger] sealed_of(key, v.subrange(0, NONCE_LEN as int), inner)
    }
}

/// The payload the layers wrap: the method and the URI, joined by `::`.
pub open spec fn onion_payload(method: Seq<char>, uri: Seq<char>) -> Seq<char> {
    method + "::"@ + uri
}

/// Encrypts layers with this session's key.
#[derive(Debug)]
pub struct CryptoLayer {
    session_key: Vec<u8>,
}

impl CryptoLayer {
    pub closed spec fn key(&self) -> Seq<u8> {
        self.session_key@
    }

    /// A layer with a fresh random 32-byte session key.
    pub fn new() -> (r: Self)
        ensures
            r.key().len() == KEY_LEN,
    {
        CryptoLayer { session_key: random_bytes(KEY_LEN) }
    }

    /// One layer: a random nonce, then the sealed data.
    fn encrypt_layer(&self, data: &[u8]) -> (r: Option<Vec<u8>>)
        ensures
            r matches Some(c) ==> c@.len() == NONCE_LEN + data@.len() + TAG_LEN
                && Some(c@.subrange(NONCE_LEN as int, c@.len() as int)) == sealed_of(
                self.key(),
                c@.subrange(0, NONCE_LEN as int),
                data@,
            ),
            self.key().len() == KEY_LEN && data@.len() < SEAL_LIMIT ==> r is Some,
    {
        let nonce = random_bytes(NONCE_LEN);
        let sealed = seal(self.session_key.as_slice(), nonce.as_slice(), data)?;
        let mut out = nonce;
        let ghost n = out@;
        let mut i: usize = 0;
        while i < sealed.len()
            invariant
                i <= sealed@.len(),
                out@ == n + sealed@.subrange(0, i as int),
            decreases sealed.len() - i,
        {
            out.push(sealed[i]);
            assert(out@ =~= n + sealed@.subrange(0, i + 1));
            i = i + 1;
        }
        assert(sealed@.subrange(0, sealed@.len() as int) =~= sealed@);
        assert(out@.subrange(0, NONCE_LEN as int) =~= n);
        assert(out@.subrange(NONCE_LEN as int, out@.len() as int) =~= sealed@);
        Some(out)
    }

    /// Wraps `method::uri` (as UTF-8) in one layer per hop, the last hop's first.
    /// It fails only when sealing fails, which a 32-byte key below the cipher's
    /// limit rules out.
    pub fn build_onion_layers(&self, method: &str, uri: &str, hops: usize) -> (r: Result<Vec<u8>, String>)
        ensures
            r matches Ok(v) ==> onion_of(self.key(), encode_utf8(onion_payload(method@, uri@)), hops as nat, v@),
            r matches Ok(v) ==> v@.len() == encode_utf8(onion_payload(method@, uri@)).len() + hops * (
            NONCE_LEN + TAG_LEN),
            self.key().len() == KEY_LEN && encode_utf8(onion_payload(method@, uri@)).len() + hops * (NONCE_LEN
                + TAG_LEN) < SEAL_LIMIT ==> r is Ok,
    {
        let payload = String::from_str(method).concat("::").concat(uri);
        let mut encrypted = payload.as_str().as_bytes_vec();
        let ghost p0 = encrypted@;
        let ghost len0 = encrypted@.len();
        let mut i: usize = 0;
        while i < hops
            invariant
                i <= hops,
                encrypted@.len() == len0 + i * (NONCE_LEN + TAG_LEN),
                onion_of(self.key(), p0, i as nat, encrypted@),
                p0 == encode_utf8(onion_payload(method@, uri@)),
                len0 == p0.len(),
            decreases hops - i,
        {
            let ghost inner = encrypted@;
            proof {
                if self.key().len() == KEY_LEN && len0 + hops * (NONCE_LEN + TAG_LEN) < SEAL_LIMIT {
                    assert(i * (NONCE_LEN + TAG_LEN) <= hops * (NONCE_LEN + TAG_LEN)) by (nonlinear_arith)
                        requires
                            i <= hops,
                    ;
                    assert(encrypted@.len() < SEAL_LIMIT);
                }
            }
            encrypted = match self.encrypt_layer(encrypted.as_slice()) {
                Some(c) => c,
                None => {
                    return Err(String::from_str("Encryption error"));
                },
            };
            assert(encrypted@.len() == len0 + (i + 1) * (NONCE_LEN + TAG_LEN)) by (nonlinear_arith)
                requires
                    encrypted@.len() == NONCE_LEN + len0 + i * (NONCE_LEN + TAG_LEN) + TAG_LEN,
            ;
            assert(onion_of(self.key(), p0, (i + 1) as nat, encrypted@)) by {
                assert(onion_of(self.key(), p0, i as nat, inner));
            }
            i = i + 1;
        }
        Ok(encrypted)
    }

    /// Removes one layer: the first 12 bytes are the nonce, the rest is opened.
    pub fn decrypt_layer(&self, data: &[u8]) -> (r: Result<Vec<u8>, String>)
        ensures
            data@.len() < NONCE_LEN ==> r is Err,
            data@.len() >= NONCE_LEN ==> match opened_of(
                self.key(),
                data@.subrange(0, NONCE_LEN as int),
                data@.subrange(NONCE_LEN as int, data@.len() as int),
            ) {
                Some(p) => r matches Ok(v) && v@ == p,
                None => r is Err,
            },
    {
        if data.len() < NONCE_LEN {
            return Err(String::from_str("Invalid encrypted data"));
        }
        let nonce = copy_bytes(data, 0, NONCE_LEN);
        let ciphertext = copy_bytes(data, NONCE_LEN, data.len());
        match open(self.session_key.as_slice(), nonce.as_slice(), ciphertext.as_slice()) {
            Some(p) => Ok(p),
            None => Err(String::from_str("Decryption error")),
        }
    }
}

} // verus!
