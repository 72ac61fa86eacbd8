//! The ticker's configuration: the gas cost table, the risk factors and the
//! tokens that pay the full price.

use crate::fee::{Address, OpChunks, OutputFeeType, Token};
use crate::rational::{rat_of, ratio_denom, Rat};
use num::rational::Ratio;
use num::BigUint;
use std::collections::HashMap;
use vstd::prelude::*;

verus! {

broadcast use vstd::std_specs::hash::group_hash_axioms;

/// The gas cost of each fee kind: one entry for each of the five keys.
#[derive(Clone, Copy, Debug, PartialEq, Eq, Structural)]
pub struct GasCosts {
    pub transfer_to_new: u64,
    pub withdraw: u64,
    pub fast_withdraw: u64,
    pub change_pubkey_offchain: u64,
    pub change_pubkey_onchain: u64,
}

impl GasCosts {
    /// The entry under a fee kind.
    pub open spec fn cost_of(self, fee_type: OutputFeeType) -> u64 {
        match fee_type {
            OutputFeeType::TransferToNew => self.transfer_to_new,
            OutputFeeType::Withdraw => self.withdraw,
            OutputFeeType::FastWithdraw => self.fast_withdraw,
            OutputFeeType::ChangePubKey { onchain_pubkey_auth } => if onchain_pubkey_auth {
                self.change_pubkey_onchain
            } else {
                self.change_pubkey_offchain
            },
        }
    }

    /// Looks a fee kind up. Every key has an entry, so the lookup cannot miss.
    pub fn get(&self, fee_type: OutputFeeType) -> (cost: u64)
        ensures
            cost == self.cost_of(fee_type),
    {
        match fee_type {
            OutputFeeType::TransferToNew => self.transfer_to_new,
            OutputFeeType::Withdraw => self.withdraw,
            OutputFeeType::FastWithdraw => self.fast_withdraw,
            OutputFeeType::ChangePubKey { onchain_pubkey_auth } => {
                if onchain_pubkey_auth {
                    self.change_pubkey_onchain
                } else {
                    self.change_pubkey_offchain
                }
            },
        }
    }
}

/// The measured gas costs that the table is built from.
#[derive(Clone, Copy, Debug, PartialEq, Eq, Structural)]
pub struct CostConstants {
    pub base_transfer_to_new: u64,
    pub base_withdraw: u64,
    pub base_change_pubkey_offchain: u64,
    pub base_change_pubkey_onchain: u64,
    pub subsidy_transfer_to_new: u64,
    pub subsidy_withdraw: u64,
    pub subsidy_change_pubkey_offchain: u64,
}

/// The gas cost of each operation, at the standard and at the subsidized
/// rate.
#[derive(Clone, Copy, Debug, PartialEq, Eq, Structural)]
pub struct GasOperationsCost {
    pub standard_cost: GasCosts,
    pub subsidize_cost: GasCosts,
}

impl GasOperationsCost {
    /// Builds both tables. A fast withdrawal forces a smaller block, so its
    /// two costs are given apart from the constants, already scaled. An
    /// on-chain key change costs the same at both rates.
    pub fn from_constants(
        constants: &CostConstants,
        standard_fast_withdrawal_cost: u32,
        subsidy_fast_withdrawal_cost: u32,
    ) -> (table: GasOperationsCost)
        ensures
            table.standard_cost == (GasCosts {
                transfer_to_new: constants.base_transfer_to_new,
                withdraw: constants.base_withdraw,
                fast_withdraw: standard_fast_withdrawal_cost as u64,
                change_pubkey_offchain: constants.base_change_pubkey_offchain,
                change_pubkey_onchain: constants.base_change_pubkey_onchain,
            }),
            table.subsidize_cost == (GasCosts {
                transfer_to_new: constants.subsidy_transfer_to_new,
                withdraw: constants.subsidy_withdraw,
                fast_withdraw: subsidy_fast_withdrawal_cost as u64,
                change_pubkey_offchain: constants.subsidy_change_pubkey_offchain,
                change_pubkey_onchain: constants.base_change_pubkey_onchain,
            }),
    {
        let standard_cost = GasCosts {
            transfer_to_new: constants.base_transfer_to_new,
            withdraw: constants.base_withdraw,
            fast_withdraw: standard_fast_withdrawal_cost as u64,
            change_pubkey_offchain: constants.base_change_pubkey_offchain,
            change_pubkey_onchain: constants.base_change_pubkey_onchain,
        };
        let subsidize_cost = GasCosts {
            transfer_to_new: constants.subsidy_transfer_to_new,
            withdraw: constants.subsidy_withdraw,
            fast_withdraw: subsidy_fast_withdrawal_cost as u64,
            change_pubkey_offchain: constants.subsidy_change_pubkey_offchain,
            change_pubkey_onchain: constants.base_change_pubkey_onchain,
        };
        GasOperationsCost { standard_cost, subsidize_cost }
    }

    /// The gas cost of a fee kind at the chosen rate.
    pub open spec fn units(self, fee_type: OutputFeeType, subsidized: bool) -> u64 {
        if subsidized {
            self.subsidize_cost.cost_of(fee_type)
        } else {
            self.standard_cost.cost_of(fee_type)
        }
    }
}

/// What the fee algorithm is configured with. Built once, then only read.
#[derive(Debug)]
pub struct TickerConfig {
    pub zkp_cost_chunk_usd: Ratio<BigUint>,
    pub gas_cost_tx: GasOperationsCost,
    pub op_chunks: OpChunks,
    pub tokens_risk_factors: HashMap<u16, Ratio<BigUint>>,
    pub not_subsidized_tokens: Vec<Address>,
    pub subsidies_enabled: bool,
}

impl TickerConfig {
    /// Every rational of the configuration has a positive denominator.
    pub open spec fn wf(self) -> bool {
        &&& ratio_denom(self.zkp_cost_chunk_usd) > 0
        &&& forall|id: u16| #[trigger]
            self.tokens_risk_factors@.contains_key(id) ==> ratio_denom(
                self.tokens_risk_factors@[id],
            ) > 0
    }

    /// A configuration in which every token has the risk factor one.
    pub fn new(
        zkp_cost_chunk_usd: Ratio<BigUint>,
        gas_cost_tx: GasOperationsCost,
        op_chunks: OpChunks,
        not_subsidized_tokens: Vec<Address>,
        subsidies_enabled: bool,
    ) -> (config: TickerConfig)
        requires
            ratio_denom(zkp_cost_chunk_usd) > 0,
        ensures
            config.wf(),
            config.zkp_cost_chunk_usd == zkp_cost_chunk_usd,
            config.gas_cost_tx == gas_cost_tx,
            config.op_chunks == op_chunks,
            config.tokens_risk_factors@ == Map::<u16, Ratio<BigUint>>::empty(),
            config.not_subsidized_tokens == not_subsidized_tokens,
            config.subsidies_enabled == subsidies_enabled,
    {
        TickerConfig {
            zkp_cost_chunk_usd,
            gas_cost_tx,
            op_chunks,
            tokens_risk_factors: HashMap::new(),
            not_subsidized_tokens,
            subsidies_enabled,
        }
    }

    /// Gives a token a risk factor, in place of the one it had.
    pub fn set_risk_factor(&mut self, id: u16, factor: Ratio<BigUint>)
        requires
            old(self).wf(),
            ratio_denom(factor) > 0,
        ensures
            final(self).wf(),
            final(self).tokens_risk_factors@ == old(self).tokens_risk_factors@.insert(id, factor),
            final(self).risk_of(id) == rat_of(factor),
            final(self).zkp_cost_chunk_usd == old(self).zkp_cost_chunk_usd,
            final(self).gas_cost_tx == old(self).gas_cost_tx,
            final(self).op_chunks == old(self).op_chunks,
            final(self).not_subsidized_tokens == old(self).not_subsidized_tokens,
            final(self).subsidies_enabled == old(self).subsidies_enabled,
    {
        self.tokens_risk_factors.insert(id, factor);
    }

    /// The risk factor of a token: the configured one, or one.
    pub open spec fn risk_of(self, id: u16) -> Rat {
        if self.tokens_risk_factors@.contains_key(id) {
            rat_of(self.tokens_risk_factors@[id])
        } else {
            Rat::whole(1)
        }
    }

    /// Whether an address is among the tokens that pay the full price.
    pub open spec fn excluded(self, address: Address) -> bool {
        self.not_subsidized_tokens@.contains(address)
    }

    /// Whether the subsidized rate applies to a token: the toggle is on and
    /// the token is not excluded.
    pub open spec fn subsidized(self, token: Token) -> bool {
        self.subsidies_enabled && !self.excluded(token.address)
    }

    /// Looks an address up among the tokens that pay the full price.
    pub fn is_excluded(&self, address: Address) -> (found: bool)
        ensures
            found == self.excluded(address),
    {
        let mut i: usize = 0;
        while i < self.not_subsidized_tokens.len()
            invariant
                i <= self.not_subsidized_tokens.len(),
                forall|j: int| 0 <= j < i ==> self.not_subsidized_tokens@[j] != address,
            decreases self.not_subsidized_tokens.len() - i,
        {
            if self.not_subsidized_tokens[i] == address {
                return true;
            }
            i += 1;
        }
        false
    }
}

} // verus!
