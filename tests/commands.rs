use solcli::command::{balance_input, banner, BalanceInput, Command};

#[test]
fn banners_of_each_command() {
    assert_eq!(banner(&Command::ClusterInfo).unwrap(), "Get cluster info");
    assert_eq!(banner(&Command::Supply).unwrap(), "Get supply info");
    let kg = Command::KeyGen {
        output: "key.json".to_string(),
        mnemonic_word_count: 12,
        passphrase: None,
    };
    assert_eq!(banner(&kg).unwrap(), "Generate keys, output to: key.json");
}

#[test]
fn balance_banners() {
    let by_text = Command::Balance {
        address: Some("abc".to_string()),
        wallet_file: None,
    };
    assert_eq!(banner(&by_text).unwrap(), "Get balance for address: abc");
    let by_file = Command::Balance {
        address: None,
        wallet_file: Some("w.json".to_string()),
    };
    assert_eq!(banner(&by_file).unwrap(), "Get balance for Wallet file: w.json");
    let neither = Command::Balance {
        address: None,
        wallet_file: None,
    };
    assert!(banner(&neither).is_none());
}

#[test]
fn balance_input_prefers_the_address() {
    match balance_input(&Some("abc".to_string()), &Some("w.json".to_string())) {
        Some(BalanceInput::Text(t)) => assert_eq!(t, "abc"),
        _ => panic!("expected the address"),
    }
    match balance_input(&None, &Some("w.json".to_string())) {
        Some(BalanceInput::WalletFile(w)) => assert_eq!(w, "w.json"),
        _ => panic!("expected the wallet file"),
    }
    assert!(balance_input(&None, &None).is_none());
}
