//! Account addresses and how a balance query finds the address it asks for.

use vstd::prelude::*;
use solana_sdk::pubkey::{ParsePubkeyError, Pubkey};
use std::str::FromStr;

verus! {

/// An account address: the 32 bytes of an ed25519 public key.
#[derive(Clone, Copy, Debug)]
pub struct Address {
    pub bytes: [u8; 32],
}

impl View for Address {
    type V = Seq<u8>;

    open spec fn view(&self) -> Seq<u8> {
        self.bytes@
    }
}

/// Why a text is not an address.
#[derive(Clone, Copy, Debug, PartialEq, Eq, Structural)]
pub enum AddressError {
    /// The text is too long, or does not decode to 32 bytes.
    WrongSize,
    /// The text holds a character outside the base58 alphabet.
    Invalid,
}

/// The most characters a base58 address can have.
pub const MAX_ADDRESS_CHARS: usize = 44;

/// The base58 alphabet: digits and letters without `0`, `O`, `I` and `l`.
pub open spec fn base58_alphabet() -> Seq<char> {
    "123456789ABCDEFGHJKLMNPQRSTUVWXYZabcdefghijkmnopqrstuvwxyz"@
}

pub open spec fn is_base58_char(c: char) -> bool {
    base58_alphabet().contains(c)
}

/// Some character of `s` is outside the base58 alphabet.
pub open spec fn has_non_base58_char(s: Seq<char>) -> bool {
    exists|i: int| 0 <= i < s.len() && !is_base58_char(#[trigger] s[i])
}

/// An ASCII text short enough for an address, with a character outside the
/// base58 alphabet.
pub open spec fn is_bad_address_text(s: &str) -> bool {
    vstd::string::is_ascii(s) && s@.len() <= MAX_ADDRESS_CHARS && has_non_base58_char(s@)
}

/// What parsing `s` as an address gives: the decoded bytes or the error.
pub uninterp spec fn pubkey_from_str_of(s: Seq<char>) -> Result<Seq<u8>, AddressError>;

pub open spec fn address_result_view(r: Result<Address, AddressError>) -> Result<Seq<u8>, AddressError> {
    match r {
        Ok(a) => Ok(a@),
        Err(e) => Err(e),
    }
}

/// Parsing `text` as an address gives the bytes `b`.
pub open spec fn decodes_to(text: Seq<char>, b: Seq<u8>) -> bool {
    pubkey_from_str_of(text) == Ok::<Seq<u8>, AddressError>(b)
}

/// The base58 text of the address with the bytes `b`.
pub uninterp spec fn pubkey_text_of(b: Seq<u8>) -> Seq<char>;

/// Relies on `<Pubkey as FromStr>::from_str`: a text longer than 44 bytes is
/// `WrongSize`; otherwise base58 decoding fails with `Invalid` on a character
/// outside the alphabet, and a decoding that is not 32 bytes long is
/// `WrongSize`.
#[verifier::external_body]
fn parse_pubkey(s: &str) -> (r: Result<Address, AddressError>)
    ensures
        address_result_view(r) == pubkey_from_str_of(s@),
        s@.len() > MAX_ADDRESS_CHARS ==> r matches Err(AddressError::WrongSize),
        r matches Ok(_) ==> s@.len() <= MAX_ADDRESS_CHARS && !has_non_base58_char(s@),
        r matches Err(AddressError::Invalid) <== is_bad_address_text(s),
{
    match Pubkey::from_str(s) {
        Ok(p) => Ok(Address { bytes: p.to_bytes() }),
        Err(ParsePubkeyError::WrongSize) => Err(AddressError::WrongSize),
        Err(ParsePubkeyError::Invalid) => Err(AddressError::Invalid),
    }
}

/// Relies on `<Pubkey as Display>`: the base58 encoding of the 32 bytes,
/// written in the base58 alphabet in at most 44 characters, which
/// `Pubkey::from_str` decodes back to the same 32 bytes.
#[verifier::external_body]
fn pubkey_text(a: &Address) -> (r: String)
    ensures
        r@ == pubkey_text_of(a@),
        !has_non_base58_char(r@),
        decodes_to(r@, a@),
{
    Pubkey::new_from_array(a.bytes).to_string()
}

impl Address {
    /// Parses a base58 address.
    pub fn parse(s: &str) -> (r: Result<Address, AddressError>)
        ensures
            address_result_view(r) == pubkey_from_str_of(s@),
            s@.len() > MAX_ADDRESS_CHARS ==> r matches Err(AddressError::WrongSize),
            r matches Ok(_) ==> s@.len() <= MAX_ADDRESS_CHARS && !has_non_base58_char(s@),
            vstd::string::is_ascii(s) && s@.len() <= MAX_ADDRESS_CHARS && has_non_base58_char(s@)
                ==> r matches Err(AddressError::Invalid),
    {
        parse_pubkey(s)
    }

    /// The base58 text of the address.
    pub fn to_base58(&self) -> (r: String)
        ensures
            r@ == pubkey_text_of(self@),
            !has_non_base58_char(r@),
            decodes_to(r@, self@),
    {
        pubkey_text(self)
    }
}

/// Where a balance query takes its address from.
pub enum BalanceSource {
    /// An address given as text.
    Text(String),
    /// The public key read from a wallet file.
    WalletKey(Address),
}

/// A resolved balance query: the address text to show and the address to ask for.
pub struct BalanceQuery {
    pub shown: String,
    pub address: Address,
}

/// The text that a balance query resolves: the given text, or the base58 text
/// of the wallet's public key.
pub open spec fn source_text(source: BalanceSource) -> Seq<char> {
    match source {
        BalanceSource::Text(s) => s@,
        BalanceSource::WalletKey(a) => pubkey_text_of(a@),
    }
}

/// The outcome of resolving the address text `text`: the text shown and the
/// address bytes, or the parse error.
pub open spec fn query_outcome(text: Seq<char>) -> Result<(Seq<char>, Seq<u8>), AddressError> {
    match pubkey_from_str_of(text) {
        Ok(b) => Ok((text, b)),
        Err(e) => Err(e),
    }
}

pub open spec fn query_view(r: Result<BalanceQuery, AddressError>) -> Result<(Seq<char>, Seq<u8>), AddressError> {
    match r {
        Ok(q) => Ok((q.shown@, q.address@)),
        Err(e) => Err(e),
    }
}

/// Resolves the address of a balance query. A wallet key goes through its
/// base58 text, as if that text had been given; an address text that does not
/// parse is an error, returned before anything is asked of the cluster.
pub fn resolve_balance_query(source: &BalanceSource) -> (r: Result<BalanceQuery, AddressError>)
    ensures
        query_view(r) == query_outcome(source_text(*source)),
        source matches BalanceSource::Text(s) && vstd::string::string_is_ascii(&s)
            && s@.len() <= MAX_ADDRESS_CHARS && has_non_base58_char(s@)
            ==> r is Err && r->Err_0 == AddressError::Invalid,
        match *source {
            BalanceSource::Text(s) => r is Ok ==> s@.len() <= MAX_ADDRESS_CHARS && !has_non_base58_char(s@),
            BalanceSource::WalletKey(a) => r matches Ok(q) && q.address@ == a@ && q.shown@ == pubkey_text_of(a@),
        },
{
    let shown = match source {
        BalanceSource::Text(s) => s.clone(),
        BalanceSource::WalletKey(a) => a.to_base58(),
    };
    match Address::parse(shown.as_str()) {
        Ok(address) => Ok(BalanceQuery { shown, address }),
        Err(e) => Err(e),
    }
}

/// A wallet's public key resolves to what its base58 text resolves to when
/// given directly.
pub proof fn lemma_wallet_key_resolves_as_its_text(key: Address, text: String)
    requires
        text@ == pubkey_text_of(key@),
    ensures
        query_outcome(source_text(BalanceSource::WalletKey(key))) == query_outcome(
            source_text(BalanceSource::Text(text)),
        ),
{
}

} // verus!
