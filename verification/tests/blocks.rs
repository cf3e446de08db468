use contower::blocks::{block_report, decimal_string};
use contower::execution_payload::{ExecutionPayload, PayloadLimits, Withdrawal};

#[test]
fn decimal_text() {
    assert_eq!(decimal_string(0), "0");
    assert_eq!(decimal_string(7), "7");
    assert_eq!(decimal_string(10), "10");
    assert_eq!(decimal_string(18_446_744_073_709_551_615), "18446744073709551615");
}

#[test]
fn block_report_text() {
    let report = block_report(17_000_000, 1_700_000_000, 1_700_000_012, 345_000_000).unwrap();
    assert!(report.starts_with("block number: 17000000, block timestamp: 1700000000, time difference: "));
    assert!(report.contains("12"), "{}", report);
}

#[test]
fn block_report_out_of_range() {
    assert_eq!(block_report(1, 0, i64::MAX, 0), None);
}

fn payload(bloom: usize, txs: Vec<Vec<u8>>, withdrawals: usize) -> ExecutionPayload {
    ExecutionPayload {
        parent_hash: [0; 32],
        fee_recipient: [0; 20],
        state_root: [0; 32],
        receipts_root: [0; 32],
        logs_bloom: vec![0; bloom],
        prev_randao: [0; 32],
        block_number: 1,
        gas_limit: 30_000_000,
        gas_used: 0,
        timestamp: 0,
        extra_data: vec![],
        base_fee_per_gas: [7, 0, 0, 0],
        block_hash: [0; 32],
        transactions: txs,
        withdrawals: (0..withdrawals)
            .map(|i| Withdrawal { index: i as u64, validator_index: 0, address: [0; 20], amount: 1 })
            .collect(),
    }
}

fn limits() -> PayloadLimits {
    PayloadLimits {
        bytes_per_logs_bloom: 256,
        max_extra_data_bytes: 32,
        max_transactions_per_payload: 2,
        max_bytes_per_transaction: 4,
        max_withdrawals_per_payload: 16,
    }
}

#[test]
fn payload_limits() {
    assert!(payload(256, vec![vec![1, 2]], 16).fits_limits(&limits()));
    assert!(!payload(255, vec![], 0).fits_limits(&limits()));
    assert!(!payload(256, vec![vec![1, 2, 3, 4, 5]], 0).fits_limits(&limits()));
    assert!(!payload(256, vec![vec![], vec![], vec![]], 0).fits_limits(&limits()));
    assert!(!payload(256, vec![], 17).fits_limits(&limits()));
}
