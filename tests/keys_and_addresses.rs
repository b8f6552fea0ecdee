use solcli::address::{resolve_balance_query, Address, AddressError, BalanceSource};
use solcli::keygen::{derive_keypair, generate_keypair, KeyGenError};

const ABANDON_PHRASE: &str = "abandon abandon abandon abandon abandon abandon abandon abandon abandon abandon abandon about";

#[test]
fn supported_word_counts_generate_phrases_that_reproduce_the_key() {
    for n in [12usize, 15, 18, 21, 24] {
        let pass = Some("secret".to_string());
        let g = generate_keypair(n, &pass).unwrap();
        assert_eq!(g.phrase.split(' ').count(), n);
        let d = derive_keypair(&g.phrase, &pass).unwrap();
        assert_eq!(d.address.bytes, g.address.bytes);
        let again = derive_keypair(&g.phrase, &pass).unwrap();
        assert_eq!(again.address.bytes, g.address.bytes);
    }
}

#[test]
fn unsupported_word_count_is_rejected() {
    assert_eq!(
        generate_keypair(13, &None).err(),
        Some(KeyGenError::UnsupportedWordCount)
    );
    assert_eq!(
        generate_keypair(0, &None).err(),
        Some(KeyGenError::UnsupportedWordCount)
    );
}

#[test]
fn passphrase_changes_the_key() {
    let plain = derive_keypair(ABANDON_PHRASE, &None).unwrap();
    let empty = derive_keypair(ABANDON_PHRASE, &Some(String::new())).unwrap();
    let with_p = derive_keypair(ABANDON_PHRASE, &Some("p".to_string())).unwrap();
    assert_eq!(plain.address.bytes, empty.address.bytes);
    assert_ne!(plain.address.bytes, with_p.address.bytes);
}

#[test]
fn invalid_phrase_is_rejected() {
    assert_eq!(
        derive_keypair("abandon abandon abandon", &None).err(),
        Some(KeyGenError::InvalidPhrase)
    );
    assert_eq!(
        derive_keypair("not a mnemonic at all", &None).err(),
        Some(KeyGenError::InvalidPhrase)
    );
}

#[test]
fn address_text_of_zero_key() {
    let a = Address { bytes: [0u8; 32] };
    assert_eq!(a.to_base58(), "11111111111111111111111111111111");
}

#[test]
fn parse_address_round_trip() {
    let a = Address { bytes: [7u8; 32] };
    let text = a.to_base58();
    assert_ne!(text.as_bytes(), &a.bytes[..]);
    let b = Address::parse(&text).unwrap();
    assert_eq!(b.bytes, a.bytes);
}

#[test]
fn parse_address_errors() {
    assert_eq!(Address::parse("0OIl").err(), Some(AddressError::Invalid));
    assert_eq!(Address::parse("abc!").err(), Some(AddressError::Invalid));
    assert_eq!(Address::parse("abc").err(), Some(AddressError::WrongSize));
    assert!(Address::parse("ab\u{e9}cd").is_err());
    assert_eq!(
        Address::parse(&"1".repeat(45)).err(),
        Some(AddressError::WrongSize)
    );
}

#[test]
fn balance_query_with_invalid_characters() {
    let r = resolve_balance_query(&BalanceSource::Text("not-an-address!".to_string()));
    assert_eq!(r.err(), Some(AddressError::Invalid));
}

#[test]
fn balance_query_of_wallet_key_matches_its_text() {
    let key = Address { bytes: [9u8; 32] };
    let from_wallet = resolve_balance_query(&BalanceSource::WalletKey(key)).unwrap();
    let from_text = resolve_balance_query(&BalanceSource::Text(key.to_base58())).unwrap();
    assert_eq!(from_wallet.shown, from_text.shown);
    assert_eq!(from_wallet.address.bytes, from_text.address.bytes);
    assert_eq!(from_wallet.address.bytes, key.bytes);
    assert_eq!(from_wallet.shown, key.to_base58());
}

#[test]
fn generated_key_address_matches_keypair() {
    let g = generate_keypair(12, &None).unwrap();
    let d = derive_keypair(&g.phrase, &Some(String::new())).unwrap();
    assert_eq!(d.address.bytes, g.address.bytes);
}
