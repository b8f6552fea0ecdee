use solcli::amount::{lamports_to_sol_text, LAMPORTS_PER_SOL};
use solcli::clock::clock_unix_timestamp;
use solcli::report::{
    balance_report, cluster_info, cluster_report, cluster_report_text, supply_report,
    ClusterInfoError,
};

#[test]
fn one_and_a_half_sol() {
    assert_eq!(lamports_to_sol_text(1_500_000_000), "1.5");
}

#[test]
fn whole_and_zero_amounts() {
    assert_eq!(lamports_to_sol_text(0), "0");
    assert_eq!(lamports_to_sol_text(LAMPORTS_PER_SOL), "1");
    assert_eq!(lamports_to_sol_text(42 * LAMPORTS_PER_SOL), "42");
}

#[test]
fn fractional_amounts() {
    assert_eq!(lamports_to_sol_text(1), "0.000000001");
    assert_eq!(lamports_to_sol_text(123_450_000), "0.12345");
    assert_eq!(lamports_to_sol_text(10_000_000_010), "10.00000001");
}

#[test]
fn largest_amount() {
    assert_eq!(lamports_to_sol_text(u64::MAX), "18446744073.709551615");
}

#[test]
fn supply_report_lines() {
    let r = supply_report(1_500_000_000, 1_000_000_000, 500_000_000);
    assert_eq!(
        r,
        "Total supply: 1.5 SOL\nCirculating: 1 SOL\nNon-Circulating: 0.5 SOL"
    );
}

#[test]
fn balance_report_line() {
    assert_eq!(
        balance_report("11111111111111111111111111111111", 2_000_000_001),
        "Balance for 11111111111111111111111111111111: 2.000000001"
    );
}

#[test]
fn cluster_report_from_text() {
    assert_eq!(
        cluster_report_text("1.18.26", 1234, "2024-01-01 00:00:00"),
        "Cluster version: 1.18.26\nBlock: 1234, Time: 2024-01-01 00:00:00"
    );
}

#[test]
fn cluster_report_formats_utc_time() {
    assert_eq!(
        cluster_report("1.18.26", 7, 0).unwrap(),
        "Cluster version: 1.18.26\nBlock: 7, Time: 1970-01-01 00:00:00"
    );
    assert_eq!(
        cluster_report("2.0.0", 300_000_000, 1_700_000_000).unwrap(),
        "Cluster version: 2.0.0\nBlock: 300000000, Time: 2023-11-14 22:13:20"
    );
}

#[test]
fn cluster_report_before_epoch() {
    assert_eq!(
        cluster_report("1.0.0", 0, -1).unwrap(),
        "Cluster version: 1.0.0\nBlock: 0, Time: 1969-12-31 23:59:59"
    );
}

#[test]
fn cluster_report_out_of_range_timestamp() {
    assert_eq!(
        cluster_report("1.0.0", 0, i64::MAX),
        Err(ClusterInfoError::TimestampOutOfRange)
    );
}

#[test]
fn cluster_info_without_clock_account_fails() {
    assert_eq!(
        cluster_info("1.18.26", 99, None),
        Err(ClusterInfoError::ClockAccountMissing)
    );
}

fn clock_data(slot: u64, unix_timestamp: i64) -> Vec<u8> {
    let mut data: Vec<u8> = Vec::new();
    data.extend_from_slice(&slot.to_le_bytes());
    data.extend_from_slice(&0i64.to_le_bytes());
    data.extend_from_slice(&3u64.to_le_bytes());
    data.extend_from_slice(&4u64.to_le_bytes());
    data.extend_from_slice(&unix_timestamp.to_le_bytes());
    data
}

#[test]
fn cluster_info_reads_clock_account() {
    let data = clock_data(5, 86_400);
    assert_eq!(
        cluster_info("1.18.26", 77, Some(&data)).unwrap(),
        "Cluster version: 1.18.26\nBlock: 77, Time: 1970-01-02 00:00:00"
    );
}

#[test]
fn cluster_info_with_short_clock_data() {
    let data = vec![0u8; 8];
    assert_eq!(
        cluster_info("1.18.26", 77, Some(&data)),
        Err(ClusterInfoError::ClockUndecodable)
    );
}

#[test]
fn cluster_info_with_out_of_range_clock() {
    let data = clock_data(1, i64::MIN);
    assert_eq!(
        cluster_info("1.18.26", 1, Some(&data)),
        Err(ClusterInfoError::TimestampOutOfRange)
    );
}

#[test]
fn clock_timestamp_decoding() {
    assert_eq!(clock_unix_timestamp(&clock_data(9, 1_700_000_000)), Some(1_700_000_000));
    assert_eq!(clock_unix_timestamp(&clock_data(9, -1)), Some(-1));
    assert_eq!(clock_unix_timestamp(&clock_data(9, i64::MIN)), Some(i64::MIN));
    assert_eq!(clock_unix_timestamp(&clock_data(9, i64::MAX)), Some(i64::MAX));
    let mut longer = clock_data(9, 42);
    longer.push(7);
    assert_eq!(clock_unix_timestamp(&longer), Some(42));
    let mut shorter = clock_data(9, 42);
    shorter.pop();
    assert_eq!(clock_unix_timestamp(&shorter), None);
}
