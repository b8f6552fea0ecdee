//! The text of the supply, balance and cluster reports.

use vstd::prelude::*;
use vstd::string::StringExecFns;
use crate::amount::{decimal_text, lamports_to_sol_text, push_decimal, sol_text};
use chrono::DateTime;
use crate::clock::{clock_timestamp_of, clock_unix_timestamp};

verus! {

/// The supply report of `total`, `circulating` and `non_circulating` lamports.
pub open spec fn supply_text(total: nat, circulating: nat, non_circulating: nat) -> Seq<char> {
    "Total supply: "@ + sol_text(total) + " SOL\nCirculating: "@ + sol_text(circulating)
        + " SOL\nNon-Circulating: "@ + sol_text(non_circulating) + " SOL"@
}

/// Renders the supply figures, each in SOL.
pub fn supply_report(total: u64, circulating: u64, non_circulating: u64) -> (r: String)
    ensures
        r@ == supply_text(total as nat, circulating as nat, non_circulating as nat),
{
    let mut s = String::new();
    s.append("Total supply: ");
    s.append(lamports_to_sol_text(total).as_str());
    s.append(" SOL\nCirculating: ");
    s.append(lamports_to_sol_text(circulating).as_str());
    s.append(" SOL\nNon-Circulating: ");
    s.append(lamports_to_sol_text(non_circulating).as_str());
    s.append(" SOL");
    assert(s@ =~= supply_text(total as nat, circulating as nat, non_circulating as nat));
    s
}

/// The balance report of `lamports` held at the address shown as `shown`.
pub open spec fn balance_text(shown: Seq<char>, lamports: nat) -> Seq<char> {
    "Balance for "@ + shown + ": "@ + sol_text(lamports)
}

/// Renders a balance in SOL, after the address it belongs to.
pub fn balance_report(shown: &str, lamports: u64) -> (r: String)
    ensures
        r@ == balance_text(shown@, lamports as nat),
{
    let mut s = String::new();
    s.append("Balance for ");
    s.append(shown);
    s.append(": ");
    s.append(lamports_to_sol_text(lamports).as_str());
    assert(s@ =~= balance_text(shown@, lamports as nat));
    s
}

/// The UTC civil time of `unix_timestamp` seconds, as `YYYY-MM-DD HH:MM:SS`,
/// or `None` when it lies outside the representable dates.
pub uninterp spec fn utc_text_of(unix_timestamp: int) -> Option<Seq<char>>;

/// Timestamps this far from the epoch, in seconds, are within the
/// representable dates (about 253,000 years).
pub const TIMESTAMP_RANGE: i64 = 8_000_000_000_000;

/// Relies on `DateTime::<Utc>::from_timestamp` and `format` with
/// `%Y-%m-%d %H:%M:%S`: `None` only for a date beyond about 262,000 years
/// from the common era.
#[verifier::external_body]
fn utc_text(unix_timestamp: i64) -> (r: Option<String>)
    ensures
        r is Some <==> utc_text_of(unix_timestamp as int) is Some,
        r matches Some(s) ==> utc_text_of(unix_timestamp as int) == Some(s@),
        -TIMESTAMP_RANGE <= unix_timestamp <= TIMESTAMP_RANGE ==> r is Some,
{
    match DateTime::from_timestamp(unix_timestamp, 0) {
        Some(d) => Some(d.format("%Y-%m-%d %H:%M:%S").to_string()),
        None => None,
    }
}

/// Why no cluster report was produced.
#[derive(Clone, Copy, Debug, PartialEq, Eq, Structural)]
pub enum ClusterInfoError {
    /// The cluster has no clock account.
    ClockAccountMissing,
    /// The clock account's data is not a clock.
    ClockUndecodable,
    /// The clock's timestamp lies outside the representable dates.
    TimestampOutOfRange,
}

/// The cluster report: the node's version, then the slot and the time.
pub open spec fn cluster_text(version: Seq<char>, slot: nat, time: Seq<char>) -> Seq<char> {
    "Cluster version: "@ + version + "\nBlock: "@ + decimal_text(slot) + ", Time: "@ + time
}

/// Renders the cluster report from the time already written out.
pub fn cluster_report_text(version: &str, slot: u64, time: &str) -> (r: String)
    ensures
        r@ == cluster_text(version@, slot as nat, time@),
{
    let mut s = String::new();
    s.append("Cluster version: ");
    s.append(version);
    s.append("\nBlock: ");
    push_decimal(&mut s, slot);
    s.append(", Time: ");
    s.append(time);
    assert(s@ =~= cluster_text(version@, slot as nat, time@));
    s
}

/// Renders the cluster report of the clock's Unix timestamp.
pub fn cluster_report(version: &str, slot: u64, unix_timestamp: i64) -> (r: Result<String, ClusterInfoError>)
    ensures
        match utc_text_of(unix_timestamp as int) {
            Some(t) => r matches Ok(s) && s@ == cluster_text(version@, slot as nat, t),
            None => r == Err::<String, ClusterInfoError>(ClusterInfoError::TimestampOutOfRange),
        },
        -TIMESTAMP_RANGE <= unix_timestamp <= TIMESTAMP_RANGE ==> r is Ok,
{
    match utc_text(unix_timestamp) {
        Some(t) => Ok(cluster_report_text(version, slot, t.as_str())),
        None => Err(ClusterInfoError::TimestampOutOfRange),
    }
}

/// Renders the cluster report from the node's version, the slot at which the
/// clock account was read and the account's data. Any failure is an error and
/// leaves no partial report.
pub fn cluster_info(version: &str, slot: u64, clock_data: Option<&Vec<u8>>) -> (r: Result<String, ClusterInfoError>)
    ensures
        clock_data is None ==> r == Err::<String, ClusterInfoError>(ClusterInfoError::ClockAccountMissing),
        clock_data matches Some(d) ==> match clock_timestamp_of(d@) {
            None => r == Err::<String, ClusterInfoError>(ClusterInfoError::ClockUndecodable),
            Some(ts) => match utc_text_of(ts) {
                Some(t) => r matches Ok(s) && s@ == cluster_text(version@, slot as nat, t),
                None => r == Err::<String, ClusterInfoError>(ClusterInfoError::TimestampOutOfRange),
            },
        },
{
    let data = match clock_data {
        Some(d) => d,
        None => return Err(ClusterInfoError::ClockAccountMissing),
    };
    match clock_unix_timestamp(data) {
        Some(ts) => cluster_report(version, slot, ts),
        None => Err(ClusterInfoError::ClockUndecodable),
    }
}

} // verus!
