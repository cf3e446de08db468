use vstd::prelude::*;

verus! {

/// A withdrawal from the beacon chain to an execution address.
#[derive(Debug)]
pub struct Withdrawal {
    pub index: u64,
    pub validator_index: u64,
    pub address: [u8; 20],
    /// Amount in Gwei.
    pub amount: u64,
}

/// The size limits that a chain specification sets on a payload.
#[derive(Debug)]
pub struct PayloadLimits {
    pub bytes_per_logs_bloom: usize,
    pub max_extra_data_bytes: usize,
    pub max_transactions_per_payload: usize,
    pub max_bytes_per_transaction: usize,
    pub max_withdrawals_per_payload: usize,
}

/// The limits of the Ethereum main network.
pub open spec fn mainnet_limits() -> PayloadLimits {
    PayloadLimits {
        bytes_per_logs_bloom: 256,
        max_extra_data_bytes: 32,
        max_transactions_per_payload: 1048576,
        max_bytes_per_transaction: 1073741824,
        max_withdrawals_per_payload: 16,
    }
}

/// An execution payload of a beacon block. Hashes are 32 bytes, the fee
/// recipient 20; the base fee is a 256-bit number as four 64-bit limbs,
/// least significant first.
#[derive(Debug)]
pub struct ExecutionPayload {
    pub parent_hash: [u8; 32],
    pub fee_recipient: [u8; 20],
    pub state_root: [u8; 32],
    pub receipts_root: [u8; 32],
    pub logs_bloom: Vec<u8>,
    pub prev_randao: [u8; 32],
    pub block_number: u64,
    pub gas_limit: u64,
    pub gas_used: u64,
    pub timestamp: u64,
    pub extra_data: Vec<u8>,
    pub base_fee_per_gas: [u64; 4],
    pub block_hash: [u8; 32],
    pub transactions: Vec<Vec<u8>>,
    pub withdrawals: Vec<Withdrawal>,
}

/// A payload keeps to the limits exactly when its logs bloom has the set
/// size and its extra data, transaction list, every transaction and
/// withdrawal list are each no longer than their own bound.
pub proof fn lemma_within_limits_fields(p: ExecutionPayload, limits: PayloadLimits)
    ensures
        p.within_limits(limits) <==> {
            &&& p.logs_bloom@.len() == limits.bytes_per_logs_bloom
            &&& p.extra_data@.len() <= limits.max_extra_data_bytes
            &&& p.transactions@.len() <= limits.max_transactions_per_payload
            &&& forall|i: int|
                0 <= i < p.transactions@.len() ==> #[trigger] p.transactions@[i]@.len()
                    <= limits.max_bytes_per_transaction
            &&& p.withdrawals@.len() <= limits.max_withdrawals_per_payload
        },
{
}

/// The main network allows a 256-byte logs bloom, 32 bytes of extra data,
/// 2^20 transactions of up to 2^30 bytes, and 16 withdrawals.
pub proof fn lemma_mainnet_limits()
    ensures
        mainnet_limits().bytes_per_logs_bloom == 256,
        mainnet_limits().max_extra_data_bytes == 32,
        mainnet_limits().max_transactions_per_payload == 1048576,
        mainnet_limits().max_bytes_per_transaction == 1073741824,
        mainnet_limits().max_withdrawals_per_payload == 16,
{
}

impl ExecutionPayload {
    /// The payload keeps to `limits`: a logs bloom of exactly the set size,
    /// and extra data, transactions, each transaction and withdrawals no
    /// longer than their bounds.
    pub open spec fn within_limits(&self, limits: PayloadLimits) -> bool {
        &&& self.logs_bloom@.len() == limits.bytes_per_logs_bloom
        &&& self.extra_data@.len() <= limits.max_extra_data_bytes
        &&& self.transactions@.len() <= limits.max_transactions_per_payload
        &&& forall|i: int|
            0 <= i < self.transactions@.len() ==> #[trigger] self.transactions@[i]@.len()
                <= limits.max_bytes_per_transaction
        &&& self.withdrawals@.len() <= limits.max_withdrawals_per_payload
    }

    /// Whether the payload keeps to `limits`, as the fixed-length and
    /// bounded lists of the payload require.
    pub fn fits_limits(&self, limits: &PayloadLimits) -> (fits: bool)
        ensures
            fits == self.within_limits(*limits),
            fits == (self.logs_bloom@.len() == limits.bytes_per_logs_bloom
                && self.extra_data@.len() <= limits.max_extra_data_bytes
                && self.transactions@.len() <= limits.max_transactions_per_payload
                && (forall|i: int|
                0 <= i < self.transactions@.len() ==> #[trigger] self.transactions@[i]@.len()
                    <= limits.max_bytes_per_transaction)
                && self.withdrawals@.len() <= limits.max_withdrawals_per_payload),
    {
        if self.logs_bloom.len() != limits.bytes_per_logs_bloom || self.extra_data.len()
            > limits.max_extra_data_bytes || self.transactions.len()
            > limits.max_transactions_per_payload || self.withdrawals.len()
            > limits.max_withdrawals_per_payload {
            return false;
        }
        let mut i: usize = 0;
        while i < self.transactions.len()
            invariant
                i <= self.transactions@.len(),
                forall|k: int|
                    0 <= k < i ==> #[trigger] self.transactions@[k]@.len()
                        <= limits.max_bytes_per_transaction,
            decreases self.transactions@.len() - i,
        {
            if self.transactions[i].len() > limits.max_bytes_per_transaction {
                return false;
            }
            i = i + 1;
        }
        true
    }
}

} // verus!
