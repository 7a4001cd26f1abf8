//! The session codec and the admin credentials: tokens are the player's id
//! sealed with an authenticated cipher under a fixed key and nonce and written
//! in hexadecimal; passwords are verified against Argon2 hashes.

use crate::codec::{decode_hex, encode_hex, hex_decoding, hex_encoding, lemma_hex_round_trip};
use argon2::password_hash::rand_core::OsRng;
use argon2::password_hash::SaltString;
use argon2::{Argon2, PasswordHash, PasswordHasher, PasswordVerifier};
use chacha20poly1305::aead::Aead;
use chacha20poly1305::{ChaCha20Poly1305, Key, KeyInit, Nonce};
use sha2::{Digest, Sha256};
use vstd::prelude::*;
use vstd::utf8::{decode_utf8, encode_utf8, valid_utf8};

verus! {

/// The length of the cipher's key in bytes.
pub const KEY_LEN: usize = 32;

/// The length of the cipher's nonce in bytes.
pub const NONCE_LEN: usize = 12;

/// The SHA-256 digest of `data`, as `Sha256::digest` computes it.
pub uninterp spec fn sha256(data: Seq<u8>) -> Seq<u8>;

/// What `ChaCha20Poly1305::encrypt` gives for `message` under `key` and
/// `nonce`: the ciphertext followed by its tag, or `None` where it fails.
pub uninterp spec fn sealed(key: Seq<u8>, nonce: Seq<u8>, message: Seq<u8>) -> Option<Seq<u8>>;

/// What `ChaCha20Poly1305::decrypt` gives for `sealed` under `key` and
/// `nonce`: the message, or `None` where the tag does not fit.
pub uninterp spec fn opened(key: Seq<u8>, nonce: Seq<u8>, sealed: Seq<u8>) -> Option<Seq<u8>>;

/// What checking `password` against the PHC string `hash` gives: `None` where
/// `PasswordHash::new` cannot parse `hash`, else whether
/// `Argon2::verify_password` accepts the password.
pub uninterp spec fn argon2_outcome(password: Seq<char>, hash: Seq<char>) -> Option<bool>;

/// Calls `Sha256::digest`. The digest is named, and is 32 bytes long.
#[verifier::external_body]
fn sha256_digest(data: &[u8]) -> (r: Vec<u8>)
    ensures
        r@ == sha256(data@),
        r@.len() == KEY_LEN,
{
    Sha256::digest(data).to_vec()
}

/// Calls `ChaCha20Poly1305::encrypt` with no associated data. The result is
/// named. As the cipher's source shows, it fails only on a message of
/// `u32::MAX` blocks of 64 bytes or more, and what it gives is opened again,
/// under the same key and nonce, to the message.
#[verifier::external_body]
fn seal(key: &Vec<u8>, nonce: &Vec<u8>, message: &[u8]) -> (r: Option<Vec<u8>>)
    requires
        key@.len() == KEY_LEN,
        nonce@.len() == NONCE_LEN,
    ensures
        match r {
            Some(c) => sealed(key@, nonce@, message@) == Some(c@) && opened(key@, nonce@, c@)
                == Some(message@),
            None => sealed(key@, nonce@, message@) is None,
        },
        message@.len() / 64 < 0xffff_ffff ==> r is Some,
{
    ChaCha20Poly1305::new(Key::from_slice(key)).encrypt(Nonce::from_slice(nonce), message).ok()
}

/// Calls `ChaCha20Poly1305::decrypt` with no associated data. The result is named.
#[verifier::external_body]
fn open(key: &Vec<u8>, nonce: &Vec<u8>, sealed: &Vec<u8>) -> (r: Option<Vec<u8>>)
    requires
        key@.len() == KEY_LEN,
        nonce@.len() == NONCE_LEN,
    ensures
        match r {
            Some(m) => opened(key@, nonce@, sealed@) == Some(m@),
            None => opened(key@, nonce@, sealed@) is None,
        },
{
    ChaCha20Poly1305::new(Key::from_slice(key)).decrypt(
        Nonce::from_slice(nonce),
        sealed.as_slice(),
    ).ok()
}

/// Calls `String::from_utf8`, which gives the text exactly where the bytes
/// are UTF-8.
#[verifier::external_body]
fn utf8_text(bytes: Vec<u8>) -> (r: Option<String>)
    ensures
        match r {
            Some(s) => valid_utf8(bytes@) && s@ == decode_utf8(bytes@),
            None => !valid_utf8(bytes@),
        },
{
    String::from_utf8(bytes).ok()
}

/// Parses `hash` with `PasswordHash::new` and checks `password` against it
/// with `Argon2::verify_password`, under the default parameters. The result
/// is named.
#[verifier::external_body]
fn phc_verify(password: &str, hash: &str) -> (r: Option<bool>)
    ensures
        r == argon2_outcome(password@, hash@),
{
    match PasswordHash::new(hash) {
        Ok(parsed) => Some(Argon2::default().verify_password(password.as_bytes(), &parsed).is_ok()),
        Err(_) => None,
    }
}

/// Hashes `password` with `Argon2::hash_password` under a salt from
/// `SaltString::generate`, and gives the PHC string. The salt is random, so
/// the string is not named; whatever it is, the password verifies against it.
#[verifier::external_body]
fn phc_hash(password: &str) -> (r: Option<String>)
    ensures
        r matches Some(h) ==> argon2_outcome(password@, h@) == Some(true),
{
    let salt = SaltString::generate(&mut OsRng);
    match Argon2::default().hash_password(password.as_bytes(), &salt) {
        Ok(hash) => Some(hash.to_string()),
        Err(_) => None,
    }
}

/// Whether two byte strings are the same, in time that depends on their
/// lengths only.
pub fn same_bytes(a: &[u8], b: &[u8]) -> (r: bool)
    ensures
        r == (a@ == b@),
{
    if a.len() != b.len() {
        return false;
    }
    let mut diff: u8 = 0;
    let mut i: usize = 0;
    proof {
        assert(a@.take(0) =~= b@.take(0));
    }
    while i < a.len()
        invariant
            i <= a.len(),
            a.len() == b.len(),
            diff == 0 <==> a@.take(i as int) == b@.take(i as int),
        decreases a.len() - i,
    {
        let x = a[i];
        let y = b[i];
        proof {
            assert((diff | (x ^ y)) == 0 <==> (diff == 0 && x == y)) by (bit_vector);
            assert(a@.take(i + 1) =~= a@.take(i as int).push(x));
            assert(b@.take(i + 1) =~= b@.take(i as int).push(y));
            if a@.take(i + 1) == b@.take(i + 1) {
                assert(a@.take(i + 1).drop_last() =~= a@.take(i as int));
                assert(b@.take(i + 1).drop_last() =~= b@.take(i as int));
                assert(a@.take(i + 1).last() == x && b@.take(i + 1).last() == y);
            }
        }
        diff = diff | (x ^ y);
        i += 1;
    }
    proof {
        assert(a@.take(a.len() as int) =~= a@);
        assert(b@.take(b.len() as int) =~= b@);
    }
    diff == 0
}

/// Texts are the same exactly where their UTF-8 bytes are.
pub proof fn lemma_same_text(a: Seq<char>, b: Seq<char>)
    ensures
        (encode_utf8(a) == encode_utf8(b)) <==> a == b,
{
    vstd::utf8::encode_utf8_decode_utf8(a);
    vstd::utf8::encode_utf8_decode_utf8(b);
}

/// The credentials and the cipher of the running service.
pub struct Config {
    admin_hash: String,
    admin_token: String,
    key: Vec<u8>,
    nonce: Vec<u8>,
}

/// The mathematical value of a [`Config`].
pub struct ConfigView {
    pub admin_hash: Seq<char>,
    pub admin_token: Seq<char>,
    pub key: Seq<u8>,
    pub nonce: Seq<u8>,
}

impl View for Config {
    type V = ConfigView;

    closed spec fn view(&self) -> ConfigView {
        ConfigView {
            admin_hash: self.admin_hash@,
            admin_token: self.admin_token@,
            key: self.key@,
            nonce: self.nonce@,
        }
    }
}

impl ConfigView {
    /// The token for `plaintext`: its UTF-8 bytes sealed, in hexadecimal.
    pub open spec fn encrypt(self, plaintext: Seq<char>) -> Option<Seq<char>> {
        match sealed(self.key, self.nonce, encode_utf8(plaintext)) {
            Some(c) => Some(hex_encoding(c)),
            None => None,
        }
    }

    /// The text that `token` was made for. A token that is not hexadecimal,
    /// whose tag does not fit, or whose message is not UTF-8 gives `None`.
    pub open spec fn decrypt(self, token: Seq<char>) -> Option<Seq<char>> {
        match hex_decoding(token) {
            None => None,
            Some(c) => match opened(self.key, self.nonce, c) {
                None => None,
                Some(m) => plaintext_of(m),
            },
        }
    }

    /// The admin token, for a password check that succeeded.
    pub open spec fn grant(self, verified: Option<bool>) -> Option<Seq<char>> {
        if verified == Some(true) {
            Some(self.admin_token)
        } else {
            None
        }
    }
}

/// The text of an opened message, if it is UTF-8.
pub open spec fn plaintext_of(message: Seq<u8>) -> Option<Seq<char>> {
    if valid_utf8(message) {
        Some(decode_utf8(message))
    } else {
        None
    }
}

/// The value of an optional text.
pub open spec fn text_view(r: Option<String>) -> Option<Seq<char>> {
    match r {
        Some(s) => Some(s@),
        None => None,
    }
}

/// The token for a sealed message, or none where sealing failed.
pub fn token_of(sealed: Option<Vec<u8>>) -> (r: Option<String>)
    ensures
        match sealed {
            Some(c) => text_view(r) == Some(hex_encoding(c@)),
            None => r is None,
        },
{
    match sealed {
        Some(c) => Some(encode_hex(&c)),
        None => None,
    }
}

/// The text of an opened message, or none where opening failed or the
/// message is not UTF-8.
pub fn text_of(opened: Option<Vec<u8>>) -> (r: Option<String>)
    ensures
        match opened {
            Some(m) => text_view(r) == plaintext_of(m@),
            None => r is None,
        },
{
    match opened {
        Some(m) => utf8_text(m),
        None => None,
    }
}

impl Config {
    #[verifier::type_invariant]
    spec fn well_formed(self) -> bool {
        self.key@.len() == KEY_LEN && self.nonce@.len() == NONCE_LEN
    }

    /// The hexadecimal SHA-256 digest of `text`.
    pub fn hash(text: &str) -> (r: String)
        ensures
            r@ == hex_encoding(sha256(encode_utf8(text@))),
    {
        let digest = sha256_digest(text.as_bytes());
        encode_hex(&digest)
    }

    /// The bytes of the digest of `text`, read back from its hexadecimal form.
    fn digest_of(text: &str) -> (r: Vec<u8>)
        ensures
            r@ == sha256(encode_utf8(text@)),
            r@.len() == KEY_LEN,
    {
        let digest = sha256_digest(text.as_bytes());
        let hexed = encode_hex(&digest);
        match decode_hex(hexed.as_str()) {
            Some(bytes) => bytes,
            None => digest,
        }
    }

    /// Sets the service up from its four secrets: the admin password is
    /// hashed, the admin token kept, the key is the digest of `secret_key`,
    /// and the nonce the first twelve bytes of the digest of `nonce`.
    /// `None` where the password could not be hashed.
    pub fn new(admin_pass: &str, admin_token: &str, secret_key: &str, nonce: &str) -> (r: Option<
        Config,
    >)
        ensures
            r matches Some(c) ==> {
                &&& c@.admin_token == admin_token@
                &&& c@.key == sha256(encode_utf8(secret_key@))
                &&& c@.nonce == sha256(encode_utf8(nonce@)).take(NONCE_LEN as int)
                &&& argon2_outcome(admin_pass@, c@.admin_hash) == Some(true)
                &&& c@.grant(argon2_outcome(admin_pass@, c@.admin_hash)) == Some(admin_token@)
            },
    {
        match Self::argon2_generate(admin_pass) {
            Some(admin_hash) => Some(Self::with_hash(admin_hash, admin_token, secret_key, nonce)),
            None => None,
        }
    }

    /// The service with `admin_hash` as the hash of the admin's password: the
    /// admin token is kept, the key is the digest of `secret_key`, and the
    /// nonce the first twelve bytes of the digest of `nonce`.
    pub fn with_hash(admin_hash: String, admin_token: &str, secret_key: &str, nonce: &str) -> (c:
        Config)
        ensures
            c@ == (ConfigView {
                admin_hash: admin_hash@,
                admin_token: admin_token@,
                key: sha256(encode_utf8(secret_key@)),
                nonce: sha256(encode_utf8(nonce@)).take(NONCE_LEN as int),
            }),
    {
        let key = Self::digest_of(secret_key);
        let digest = Self::digest_of(nonce);
        let mut short: Vec<u8> = Vec::new();
        let mut i: usize = 0;
        while i < NONCE_LEN
            invariant
                i <= NONCE_LEN,
                digest@.len() == KEY_LEN,
                short@ == digest@.take(i as int),
            decreases NONCE_LEN - i,
        {
            short.push(digest[i]);
            proof {
                assert(digest@.take(i + 1) =~= digest@.take(i as int).push(digest@[i as int]));
            }
            i += 1;
        }
        Config { admin_hash, admin_token: admin_token.to_owned(), key, nonce: short }
    }

    /// The admin token, if `password` verifies against the admin's hash.
    pub fn get_admin_token(&self, password: &str) -> (r: Option<String>)
        ensures
            text_view(r) == self@.grant(argon2_outcome(password@, self@.admin_hash)),
    {
        let verified = Self::argon2_verify(password, self.admin_hash.as_str());
        self.grant(verified)
    }

    /// The admin token, for a password check that gave `verified`.
    pub fn grant(&self, verified: Option<bool>) -> (r: Option<String>)
        ensures
            text_view(r) == self@.grant(verified),
    {
        match verified {
            Some(true) => Some(self.admin_token.clone()),
            _ => None,
        }
    }

    /// Whether `token` is the admin token. The comparison takes the same
    /// time for every token of one length.
    pub fn verify_admin_token(&self, token: &str) -> (r: bool)
        ensures
            r == (token@ == self@.admin_token),
    {
        proof {
            lemma_same_text(token@, self.admin_token@);
        }
        same_bytes(token.as_bytes(), self.admin_token.as_str().as_bytes())
    }

    /// The session token for `plaintext`. It decrypts to `plaintext` again.
    /// It is owed for every text of less than `u32::MAX` blocks of 64 bytes.
    pub fn encrypt(&self, plaintext: &str) -> (r: Option<String>)
        ensures
            text_view(r) == self@.encrypt(plaintext@),
            r matches Some(token) ==> self@.decrypt(token@) == Some(plaintext@),
            encode_utf8(plaintext@).len() / 64 < 0xffff_ffff ==> r is Some,
    {
        proof {
            use_type_invariant(self);
            vstd::utf8::encode_utf8_valid_utf8(plaintext@);
            vstd::utf8::encode_utf8_decode_utf8(plaintext@);
        }
        let sealed = seal(&self.key, &self.nonce, plaintext.as_bytes());
        proof {
            if sealed is Some {
                lemma_hex_round_trip(sealed->0@);
            }
        }
        token_of(sealed)
    }

    /// The text that `ciphertext` was made for, or `None` where it is no token
    /// of this service: not hexadecimal, a tag that does not fit, or a
    /// message that is not UTF-8.
    pub fn decrypt(&self, ciphertext: &str) -> (r: Option<String>)
        ensures
            text_view(r) == self@.decrypt(ciphertext@),
    {
        proof {
            use_type_invariant(self);
        }
        match decode_hex(ciphertext) {
            None => None,
            Some(sealed) => text_of(open(&self.key, &self.nonce, &sealed)),
        }
    }

    /// A fresh Argon2id hash of `password`, as a PHC string; `password`
    /// verifies against it.
    pub fn argon2_generate(password: &str) -> (r: Option<String>)
        ensures
            r matches Some(h) ==> argon2_outcome(password@, h@) == Some(true),
    {
        phc_hash(password)
    }

    /// Whether `password` verifies against `hash`; `None` where `hash` is
    /// malformed.
    pub fn argon2_verify(password: &str, hash: &str) -> (r: Option<bool>)
        ensures
            r == argon2_outcome(password@, hash@),
    {
        phc_verify(password, hash)
    }
}

} // verus!
