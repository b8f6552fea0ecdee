//! The client's commands and the line announced before each one runs.

use vstd::prelude::*;
use vstd::string::StringExecFns;

verus! {

/// A command of the client.
pub enum Command {
    /// Show the node's version, the slot and the cluster's clock.
    ClusterInfo,
    /// Show the total, circulating and non-circulating supply.
    Supply,
    /// Generate a keypair from a fresh mnemonic and write it to `output`.
    KeyGen { output: String, mnemonic_word_count: u32, passphrase: Option<String> },
    /// Show the balance of an address, given as text or by a wallet file.
    Balance { address: Option<String>, wallet_file: Option<String> },
}

/// Where a balance command takes its address from: the text if one was
/// given, else the wallet file.
pub enum BalanceInput {
    Text(String),
    WalletFile(String),
}

pub open spec fn balance_input_spec(address: Option<String>, wallet_file: Option<String>) -> Option<BalanceInput> {
    match address {
        Some(a) => Some(BalanceInput::Text(a)),
        None => match wallet_file {
            Some(w) => Some(BalanceInput::WalletFile(w)),
            None => None,
        },
    }
}

pub open spec fn balance_input_view(i: Option<BalanceInput>) -> Option<(bool, Seq<char>)> {
    match i {
        Some(BalanceInput::Text(a)) => Some((true, a@)),
        Some(BalanceInput::WalletFile(w)) => Some((false, w@)),
        None => None,
    }
}

/// Picks the input of a balance command; `None` when neither was given.
pub fn balance_input(address: &Option<String>, wallet_file: &Option<String>) -> (r: Option<BalanceInput>)
    ensures
        balance_input_view(r) == balance_input_view(balance_input_spec(*address, *wallet_file)),
{
    match address {
        Some(a) => Some(BalanceInput::Text(a.clone())),
        None => match wallet_file {
            Some(w) => Some(BalanceInput::WalletFile(w.clone())),
            None => None,
        },
    }
}

/// The line announced before a command runs; none for a balance command
/// without input.
pub open spec fn banner_text(c: Command) -> Option<Seq<char>> {
    match c {
        Command::ClusterInfo => Some("Get cluster info"@),
        Command::Supply => Some("Get supply info"@),
        Command::KeyGen { output, .. } => Some("Generate keys, output to: "@ + output@),
        Command::Balance { address, wallet_file } => match balance_input_spec(address, wallet_file) {
            Some(BalanceInput::Text(a)) => Some("Get balance for address: "@ + a@),
            Some(BalanceInput::WalletFile(w)) => Some("Get balance for Wallet file: "@ + w@),
            None => None,
        },
    }
}

pub open spec fn string_option_view(s: Option<String>) -> Option<Seq<char>> {
    match s {
        Some(s) => Some(s@),
        None => None,
    }
}

fn prefixed(prefix: &str, rest: &str) -> (r: String)
    ensures
        r@ == prefix@ + rest@,
{
    let mut s = String::new();
    s.append(prefix);
    s.append(rest);
    assert(s@ =~= prefix@ + rest@);
    s
}

/// Renders the line announced before `c` runs.
pub fn banner(c: &Command) -> (r: Option<String>)
    ensures
        string_option_view(r) == banner_text(*c),
{
    match c {
        Command::ClusterInfo => Some(String::from_str("Get cluster info")),
        Command::Supply => Some(String::from_str("Get supply info")),
        Command::KeyGen { output, .. } => Some(prefixed("Generate keys, output to: ", output.as_str())),
        Command::Balance { address, wallet_file } => match balance_input(address, wallet_file) {
            Some(BalanceInput::Text(a)) => Some(prefixed("Get balance for address: ", a.as_str())),
            Some(BalanceInput::WalletFile(w)) => Some(
                prefixed("Get balance for Wallet file: ", w.as_str()),
            ),
            None => None,
        },
    }
}

} // verus!
