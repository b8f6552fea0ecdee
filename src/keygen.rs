//! Key generation from a BIP-39 mnemonic phrase.

use vstd::prelude::*;
use crate::address::Address;
use bip39::{Language, Mnemonic, MnemonicType, Seed};
use solana_sdk::signature::{keypair_from_seed, Keypair};
use solana_sdk::signer::Signer;

verus! {

#[verifier::external_type_specification]
pub struct ExMnemonicType(MnemonicType);

#[verifier::external_type_specification]
#[verifier::external_body]
pub struct ExKeypair(Keypair);

/// The word counts that a mnemonic phrase may have.
pub open spec fn is_supported_word_count(n: nat) -> bool {
    n == 12 || n == 15 || n == 18 || n == 21 || n == 24
}

/// The number of words of a phrase of the given type.
pub open spec fn type_word_count(t: MnemonicType) -> nat {
    match t {
        MnemonicType::Words12 => 12,
        MnemonicType::Words15 => 15,
        MnemonicType::Words18 => 18,
        MnemonicType::Words21 => 21,
        MnemonicType::Words24 => 24,
    }
}

/// `s` is `n` non-empty words joined by single spaces.
pub open spec fn is_phrase_of(s: Seq<char>, n: nat) -> bool {
    &&& n >= 1
    &&& s.len() > 0
    &&& s[0] != ' '
    &&& s.last() != ' '
    &&& forall|i: int| 0 <= i < s.len() - 1 && s[i] == ' ' ==> #[trigger] s[i + 1] != ' '
    &&& s.filter(|c: char| c == ' ').len() + 1 == n
}

/// The BIP-39 seed of `phrase` with `passphrase`, or `None` when the phrase is
/// not a valid English mnemonic.
pub uninterp spec fn bip39_seed_of(phrase: Seq<char>, passphrase: Seq<char>) -> Option<Seq<u8>>;

/// The public key of the ed25519 keypair whose secret key is the first 32
/// bytes of `seed`.
pub uninterp spec fn ed25519_public_of(seed: Seq<u8>) -> Seq<u8>;

/// The address derived from `phrase` and `passphrase`: the public key of the
/// keypair made from their seed.
pub open spec fn derived_address(phrase: Seq<char>, passphrase: Seq<char>) -> Option<Seq<u8>> {
    match bip39_seed_of(phrase, passphrase) {
        Some(seed) => if seed.len() >= 32 {
            Some(ed25519_public_of(seed))
        } else {
            None
        },
        None => None,
    }
}

/// The passphrase used for derivation: an absent one is the empty string.
pub open spec fn passphrase_text(passphrase: Option<String>) -> Seq<char> {
    match passphrase {
        Some(p) => p@,
        None => Seq::empty(),
    }
}

/// Relies on `MnemonicType::for_word_count`: one type for each supported word
/// count, an error for any other.
#[verifier::external_body]
fn mnemonic_type_for(word_count: usize) -> (r: Option<MnemonicType>)
    ensures
        r is Some <==> is_supported_word_count(word_count as nat),
        r matches Some(t) ==> type_word_count(t) == word_count,
{
    MnemonicType::for_word_count(word_count).ok()
}

/// Relies on `Mnemonic::new` with the English wordlist and
/// `Mnemonic::into_phrase`: fresh entropy from the operating system's secure
/// generator, written as words of the type's count joined by single spaces; the
/// phrase carries a valid checksum, so `Mnemonic::from_phrase` accepts it.
#[verifier::external_body]
fn new_phrase(t: MnemonicType) -> (r: String)
    ensures
        is_phrase_of(r@, type_word_count(t)),
        forall|p: Seq<char>| #[trigger] bip39_seed_of(r@, p) is Some,
{
    Mnemonic::new(t, Language::English).into_phrase()
}

/// Relies on `Mnemonic::from_phrase` with the English wordlist and
/// `Seed::new`: the 64-byte PBKDF2 seed of a phrase that parses, `None` for one
/// that does not.
#[verifier::external_body]
fn seed_from_phrase(phrase: &str, passphrase: &str) -> (r: Option<Vec<u8>>)
    ensures
        r is Some <==> bip39_seed_of(phrase@, passphrase@) is Some,
        r matches Some(v) ==> bip39_seed_of(phrase@, passphrase@) == Some(v@) && v@.len() == 64,
{
    match Mnemonic::from_phrase(phrase, Language::English) {
        Ok(m) => Some(Seed::new(&m, passphrase).as_bytes().to_vec()),
        Err(_) => None,
    }
}

/// Relies on `keypair_from_seed`: it fails exactly on seeds shorter than 32
/// bytes, and otherwise takes the first 32 bytes as the ed25519 secret key.
#[verifier::external_body]
fn keypair_from_seed_bytes(seed: &Vec<u8>) -> (r: Option<(Keypair, Address)>)
    ensures
        r is Some <==> seed@.len() >= 32,
        r matches Some(k) ==> k.1@ == ed25519_public_of(seed@),
{
    match keypair_from_seed(seed) {
        Ok(k) => {
            let bytes = k.pubkey().to_bytes();
            Some((k, Address { bytes }))
        },
        Err(_) => None,
    }
}

/// Why no keypair was produced.
#[derive(Clone, Copy, Debug, PartialEq, Eq, Structural)]
pub enum KeyGenError {
    /// The word count is not one of 12, 15, 18, 21 and 24.
    UnsupportedWordCount,
    /// The phrase is not a valid English mnemonic.
    InvalidPhrase,
}

/// A keypair with the address of its public key.
pub struct DerivedKey {
    pub keypair: Keypair,
    pub address: Address,
}

/// A freshly generated keypair with the phrase that recovers it.
pub struct GeneratedKey {
    pub phrase: String,
    pub keypair: Keypair,
    pub address: Address,
}

fn passphrase_str(passphrase: &Option<String>) -> (r: &str)
    ensures
        r@ == passphrase_text(*passphrase),
{
    match passphrase {
        Some(p) => p.as_str(),
        None => {
            proof {
                reveal_strlit("");
            }
            ""
        },
    }
}

/// Derives the keypair of `phrase` and `passphrase` (an absent passphrase is
/// the empty string).
pub fn derive_keypair(phrase: &str, passphrase: &Option<String>) -> (r: Result<DerivedKey, KeyGenError>)
    ensures
        r is Ok <==> derived_address(phrase@, passphrase_text(*passphrase)) is Some,
        r matches Ok(d) ==> derived_address(phrase@, passphrase_text(*passphrase)) == Some(d.address@),
        r matches Err(e) ==> e == KeyGenError::InvalidPhrase,
{
    let pass = passphrase_str(passphrase);
    match seed_from_phrase(phrase, pass) {
        Some(seed) => match keypair_from_seed_bytes(&seed) {
            Some((keypair, address)) => Ok(DerivedKey { keypair, address }),
            None => Err(KeyGenError::InvalidPhrase),
        },
        None => Err(KeyGenError::InvalidPhrase),
    }
}

/// What a successful generation with `word_count` words and `passphrase`
/// holds: a phrase of that many words, and the address derived from it.
pub open spec fn is_generated(word_count: nat, passphrase: Seq<char>, phrase: Seq<char>, address: Seq<u8>) -> bool {
    is_phrase_of(phrase, word_count) && derived_address(phrase, passphrase) == Some(address)
}

/// Generates a new mnemonic phrase of `word_count` words and the keypair
/// derived from it with `passphrase`. An unsupported word count is an error
/// found before any entropy is drawn.
pub fn generate_keypair(word_count: usize, passphrase: &Option<String>) -> (r: Result<GeneratedKey, KeyGenError>)
    ensures
        r is Ok <==> is_supported_word_count(word_count as nat),
        r matches Err(e) ==> e == KeyGenError::UnsupportedWordCount,
        r matches Ok(g) ==> is_generated(word_count as nat, passphrase_text(*passphrase), g.phrase@, g.address@),
{
    let t = match mnemonic_type_for(word_count) {
        Some(t) => t,
        None => return Err(KeyGenError::UnsupportedWordCount),
    };
    let phrase = new_phrase(t);
    let pass = passphrase_str(passphrase);
    assert(bip39_seed_of(phrase@, pass@) is Some);
    // A generated phrase always parses, and its seed is 64 bytes long: the
    // two failures below cannot happen.
    let seed = match seed_from_phrase(phrase.as_str(), pass) {
        Some(seed) => seed,
        None => return Err(KeyGenError::InvalidPhrase),
    };
    match keypair_from_seed_bytes(&seed) {
        Some((keypair, address)) => Ok(GeneratedKey { phrase, keypair, address }),
        None => Err(KeyGenError::InvalidPhrase),
    }
}

/// A generated phrase, derived again with the same passphrase, gives back the
/// generated address.
pub proof fn lemma_generated_phrase_reproduces_key(
    word_count: nat,
    passphrase: Seq<char>,
    phrase: Seq<char>,
    address: Seq<u8>,
)
    requires
        is_generated(word_count, passphrase, phrase, address),
    ensures
        bip39_seed_of(phrase, passphrase) matches Some(seed) && seed.len() >= 32
            && ed25519_public_of(seed) == address,
        derived_address(phrase, passphrase) == Some(address),
{
}

} // verus!
