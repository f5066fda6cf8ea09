//! Seed-phrase validation and address derivation.
//!
//! An address is derived from a mnemonic seed phrase alone — no network,
//! no randomness: the phrase's BIP-39 seed keys an Ed25519 key pair, the
//! public key is hashed, and the leading bytes of the digest are
//! Base58-encoded under a fixed prefix. A malformed phrase is rejected
//! before any work starts.

use vstd::prelude::*;
use sha2::Digest;
use crate::errors::BotError;

verus! {

/// How many leading bytes of the public-key digest go into an address.
pub const ADDRESS_DIGEST_BYTES: usize = 25;

/// Bytes of the seed that key the Ed25519 secret key.
pub const SECRET_KEY_BYTES: usize = 32;

/// Whether BIP-39 accepts the phrase as a valid English mnemonic
/// (word list, word count and checksum).
pub uninterp spec fn mnemonic_ok(phrase: Seq<char>) -> bool;

/// The 64-byte BIP-39 seed of a valid mnemonic, with an empty passphrase.
pub uninterp spec fn seed_of(phrase: Seq<char>) -> Seq<u8>;

/// The Ed25519 public key determined by a 32-byte secret key.
pub uninterp spec fn pk_bytes_of(secret: Seq<u8>) -> Seq<u8>;

/// The SHA-256 digest of a byte string.
pub uninterp spec fn sha256_of(data: Seq<u8>) -> Seq<u8>;

/// The Base58 rendering of a byte string.
pub uninterp spec fn base58_of(data: Seq<u8>) -> Seq<char>;

/// The address derived from a valid seed phrase: a fixed prefix over the
/// Base58 form of the truncated digest of the phrase's public key.
pub open spec fn address_of(phrase: Seq<char>) -> Seq<char> {
    seq!['G'] + base58_of(
        sha256_of(pk_bytes_of(seed_of(phrase).take(SECRET_KEY_BYTES as int))).take(
            ADDRESS_DIGEST_BYTES as int,
        ),
    )
}

/// Relies on bip39::Mnemonic::parse_in_normalized: it accepts exactly
/// the valid English mnemonics.
#[verifier::external_body]
fn parse_mnemonic_ok(phrase: &str) -> (r: bool)
    ensures
        r == mnemonic_ok(phrase@),
{
    bip39::Mnemonic::parse_in_normalized(bip39::Language::English, phrase).is_ok()
}

/// Relies on bip39::Mnemonic::parse_in_normalized and
/// bip39::Mnemonic::to_seed_normalized: the 64-byte seed a valid
/// mnemonic yields with an empty passphrase, a function of the phrase
/// alone.
#[verifier::external_body]
fn phrase_to_seed(phrase: &str) -> (r: Vec<u8>)
    requires
        mnemonic_ok(phrase@),
    ensures
        r@ == seed_of(phrase@),
        r@.len() == 64,
{
    let mnemonic = bip39::Mnemonic::parse_in_normalized(bip39::Language::English, phrase)
        .unwrap();
    mnemonic.to_seed_normalized("").to_vec()
}

/// Relies on ed25519_dalek::SecretKey::from_bytes (which accepts any
/// 32-byte string) and ed25519_dalek::PublicKey::from: the public key
/// is a function of the secret key alone.
#[verifier::external_body]
fn public_key_bytes(secret: &[u8]) -> (r: Vec<u8>)
    requires
        secret@.len() == SECRET_KEY_BYTES,
    ensures
        r@ == pk_bytes_of(secret@),
        r@.len() == 32,
{
    let sk = ed25519_dalek::SecretKey::from_bytes(secret).unwrap();
    let pk = ed25519_dalek::PublicKey::from(&sk);
    pk.to_bytes().to_vec()
}

/// Relies on sha2::Sha256: the 32-byte SHA-256 digest of the input.
#[verifier::external_body]
fn sha256(data: &[u8]) -> (r: Vec<u8>)
    ensures
        r@ == sha256_of(data@),
        r@.len() == 32,
{
    sha2::Sha256::digest(data).to_vec()
}

/// Relies on bs58::encode: the Base58 rendering of the input, a
/// function of the bytes alone.
#[verifier::external_body]
fn base58_encode(data: &[u8]) -> (r: String)
    ensures
        r@ == base58_of(data@),
{
    bs58::encode(data).into_string()
}

/// Copy the first `n` bytes of `data` into a fresh vector.
fn take_prefix(data: &Vec<u8>, n: usize) -> (r: Vec<u8>)
    requires
        n <= data@.len(),
    ensures
        r@ == data@.take(n as int),
{
    let mut r: Vec<u8> = Vec::new();
    let mut i: usize = 0;
    while i < n
        invariant
            0 <= i <= n <= data@.len(),
            r@ == data@.take(i as int),
        decreases n - i,
    {
        r.push(data[i]);
        proof {
            assert(r@ =~= data@.take(i + 1));
        }
        i = i + 1;
    }
    r
}

/// Validate a seed phrase and derive its address.
///
/// Exactly the phrases BIP-39 accepts derive an address; every other
/// phrase is rejected as a validation failure before any worker could
/// be spawned on it.
pub fn derive_address(seed_phrase: &str) -> (r: Result<String, BotError>)
    ensures
        r is Ok <==> mnemonic_ok(seed_phrase@),
        r is Ok ==> r->Ok_0@ == address_of(seed_phrase@),
        r is Err ==> r->Err_0 == BotError::ValidationFailure,
{
    if !parse_mnemonic_ok(seed_phrase) {
        return Err(BotError::ValidationFailure);
    }
    let seed: Vec<u8> = phrase_to_seed(seed_phrase);
    let secret: Vec<u8> = take_prefix(&seed, SECRET_KEY_BYTES);
    let pk: Vec<u8> = public_key_bytes(secret.as_slice());
    let digest: Vec<u8> = sha256(pk.as_slice());
    let head: Vec<u8> = take_prefix(&digest, ADDRESS_DIGEST_BYTES);
    let encoded: String = base58_encode(head.as_slice());
    let mut out: String = String::new();
    out.append("G");
    out.append(encoded.as_str());
    proof {
        reveal_strlit("G");
        assert("G"@ =~= seq!['G']);
        assert(out@ =~= address_of(seed_phrase@));
    }
    Ok(out)
}

/// Whether a seed phrase would be accepted at login.
pub fn validate_seed_phrase(seed_phrase: &str) -> (r: bool)
    ensures
        r == mnemonic_ok(seed_phrase@),
{
    parse_mnemonic_ok(seed_phrase)
}

/// Length of a ledger private seed in its text form.
pub const PRIVATE_SEED_LEN: usize = 56;

/// Whether a character may appear after the leading marker of a
/// private seed: a decimal digit or an upper-case letter.
pub open spec fn seed_body_char(c: char) -> bool {
    ('0' <= c && c <= '9') || ('A' <= c && c <= 'Z')
}

/// The text form of a ledger private seed: the marker 'S' followed by
/// fifty-five digits or upper-case letters.
pub open spec fn valid_private_seed(s: Seq<char>) -> bool {
    &&& s.len() == PRIVATE_SEED_LEN
    &&& s[0] == 'S'
    &&& forall|i: int| 1 <= i < s.len() ==> seed_body_char(#[trigger] s[i])
}

/// Whether a string is a well-formed ledger private seed.
pub fn validate_private_seed_format(private_key: &str) -> (r: bool)
    ensures
        r == valid_private_seed(private_key@),
{
    let n: usize = private_key.unicode_len();
    if n != PRIVATE_SEED_LEN {
        return false;
    }
    if private_key.get_char(0) != 'S' {
        return false;
    }
    let mut i: usize = 1;
    while i < n
        invariant
            1 <= i <= n,
            n == private_key@.len(),
            forall|j: int| 1 <= j < i ==> seed_body_char(#[trigger] private_key@[j]),
        decreases n - i,
    {
        let c: char = private_key.get_char(i);
        let ok: bool = ('0' <= c && c <= '9') || ('A' <= c && c <= 'Z');
        if !ok {
            return false;
        }
        i = i + 1;
    }
    true
}

} // verus!
