//! Transaction kinds, fee kinds and the fee breakdown.

use num::rational::Ratio;
use num::BigUint;
use vstd::prelude::*;

verus! {

/// The kind of transaction a fee is asked for.
#[derive(Clone, Copy, Debug, PartialEq, Eq, Structural, Hash)]
pub enum TxFeeTypes {
    Withdraw,
    FastWithdraw,
    Transfer,
    ChangePubKey { onchain_pubkey_auth: bool },
}

/// The kind of fee that is charged; the key of the gas cost table.
#[derive(Clone, Copy, Debug, PartialEq, Eq, Structural, Hash)]
pub enum OutputFeeType {
    TransferToNew,
    Withdraw,
    FastWithdraw,
    ChangePubKey { onchain_pubkey_auth: bool },
}

/// What a request can fail with.
#[derive(Clone, Copy, Debug, PartialEq, Eq, Structural, Hash)]
pub enum TickerError {
    /// The token reference resolves to no known token.
    TokenNotFound,
    /// An upstream source failed, timed out, or quoted a price of zero.
    UpstreamUnavailable,
    /// The gas cost table has no entry for a fee kind.
    ConfigurationMissing,
}

/// A 160-bit ledger address: its upper 32 bits and its lower 128 bits.
#[derive(Clone, Copy, Debug, PartialEq, Eq, Structural, Hash)]
pub struct Address {
    pub upper: u32,
    pub lower: u128,
}

/// A resolved token.
#[derive(Clone, Copy, Debug, PartialEq, Eq, Structural, Hash)]
pub struct Token {
    pub id: u16,
    pub address: Address,
    pub decimals: u8,
}

/// The number of chunks that an operation of each kind occupies in a block.
#[derive(Clone, Copy, Debug, PartialEq, Eq, Structural)]
pub struct OpChunks {
    pub withdraw: u64,
    pub transfer_to_new: u64,
    pub change_pubkey: u64,
}

/// A fee, split into the part that pays for proving and the part that pays
/// for gas. Both parts are exact rationals, priced in the fee token.
#[derive(Debug)]
pub struct Fee {
    pub fee_type: OutputFeeType,
    pub zkp_fee: Ratio<BigUint>,
    pub gas_fee: Ratio<BigUint>,
    pub gas_tx_amount: BigUint,
    pub gas_price_wei: BigUint,
}

impl Fee {
    /// Puts the parts of a fee together.
    pub fn new(
        fee_type: OutputFeeType,
        zkp_fee: Ratio<BigUint>,
        gas_fee: Ratio<BigUint>,
        gas_tx_amount: BigUint,
        gas_price_wei: BigUint,
    ) -> (fee: Fee)
        ensures
            fee.fee_type == fee_type,
            fee.zkp_fee == zkp_fee,
            fee.gas_fee == gas_fee,
            fee.gas_tx_amount == gas_tx_amount,
            fee.gas_price_wei == gas_price_wei,
    {
        Fee { fee_type, zkp_fee, gas_fee, gas_tx_amount, gas_price_wei }
    }
}

/// The fee kind that a transaction kind is charged as.
pub open spec fn fee_type_of(tx_type: TxFeeTypes) -> OutputFeeType {
    match tx_type {
        TxFeeTypes::Withdraw => OutputFeeType::Withdraw,
        TxFeeTypes::FastWithdraw => OutputFeeType::FastWithdraw,
        TxFeeTypes::Transfer => OutputFeeType::TransferToNew,
        TxFeeTypes::ChangePubKey { onchain_pubkey_auth } => OutputFeeType::ChangePubKey {
            onchain_pubkey_auth,
        },
    }
}

/// The number of chunks that a transaction kind is charged for.
pub open spec fn chunks_of(chunks: OpChunks, tx_type: TxFeeTypes) -> u64 {
    match tx_type {
        TxFeeTypes::Withdraw => chunks.withdraw,
        TxFeeTypes::FastWithdraw => chunks.withdraw,
        TxFeeTypes::Transfer => chunks.transfer_to_new,
        TxFeeTypes::ChangePubKey { .. } => chunks.change_pubkey,
    }
}

/// Maps a transaction kind to the fee kind it is charged as and the number
/// of chunks it is charged for.
pub fn fee_type_and_chunks(chunks: &OpChunks, tx_type: TxFeeTypes) -> (r: (OutputFeeType, u64))
    ensures
        r.0 == fee_type_of(tx_type),
        r.1 == chunks_of(*chunks, tx_type),
{
    match tx_type {
        TxFeeTypes::Withdraw => (OutputFeeType::Withdraw, chunks.withdraw),
        TxFeeTypes::FastWithdraw => (OutputFeeType::FastWithdraw, chunks.withdraw),
        TxFeeTypes::Transfer => (OutputFeeType::TransferToNew, chunks.transfer_to_new),
        TxFeeTypes::ChangePubKey { onchain_pubkey_auth } => (
            OutputFeeType::ChangePubKey { onchain_pubkey_auth },
            chunks.change_pubkey,
        ),
    }
}

} // verus!
