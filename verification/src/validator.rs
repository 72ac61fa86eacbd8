//! Token eligibility: a cache of observed liquidity, read on the request
//! path and written only by the market updater.

use crate::fee::{Address, Token};
use crate::rational::{rat_of, ratio_denom, ratio_ge};
use num::rational::Ratio;
use num::BigUint;
use std::collections::HashMap;
use vstd::prelude::*;

verus! {

broadcast use vstd::std_specs::hash::group_hash_axioms;

/// The traded volume of a token, as it was last observed.
#[derive(Debug)]
pub struct LiquidityEntry {
    pub token: Token,
    pub volume: Ratio<BigUint>,
    /// When the volume was observed, in seconds.
    pub observed_at: u64,
}

/// Decides from cached data alone whether a token may pay fees.
#[derive(Debug)]
pub struct FeeTokenValidator {
    /// The last observation of each token, by token id.
    pub tokens: HashMap<u16, LiquidityEntry>,
    /// The age, in seconds, beyond which an observation no longer counts.
    pub available_time: u64,
    /// The least volume that makes a token eligible.
    pub liquidity_volume: Ratio<BigUint>,
    /// Tokens that are eligible whatever their liquidity.
    pub unconditionally_valid: Vec<Address>,
}

/// Whether an observation is older than the given age allows.
pub open spec fn stale(observed_at: u64, now: u64, available_time: u64) -> bool {
    now - observed_at > available_time
}

impl FeeTokenValidator {
    /// Every rational of the validator has a positive denominator.
    pub open spec fn wf(self) -> bool {
        &&& ratio_denom(self.liquidity_volume) > 0
        &&& forall|id: u16| #[trigger]
            self.tokens@.contains_key(id) ==> ratio_denom(self.tokens@[id].volume) > 0
    }

    /// Whether a token is eligible whatever its liquidity.
    pub open spec fn listed(self, address: Address) -> bool {
        self.unconditionally_valid@.contains(address)
    }

    /// The eligibility rule: a listed token is allowed; any other needs an
    /// observation that is not stale and whose volume reaches the threshold.
    pub open spec fn allowed(self, token: Token, now: u64) -> bool {
        if self.listed(token.address) {
            true
        } else if !self.tokens@.contains_key(token.id) {
            false
        } else if stale(self.tokens@[token.id].observed_at, now, self.available_time) {
            false
        } else {
            rat_of(self.tokens@[token.id].volume).at_least(rat_of(self.liquidity_volume))
        }
    }

    /// A validator with an empty cache.
    pub fn new(
        available_time: u64,
        liquidity_volume: Ratio<BigUint>,
        unconditionally_valid: Vec<Address>,
    ) -> (validator: FeeTokenValidator)
        requires
            ratio_denom(liquidity_volume) > 0,
        ensures
            validator.wf(),
            validator.tokens@ == Map::<u16, LiquidityEntry>::empty(),
            validator.available_time == available_time,
            validator.liquidity_volume == liquidity_volume,
            validator.unconditionally_valid == unconditionally_valid,
    {
        FeeTokenValidator {
            tokens: HashMap::new(),
            available_time,
            liquidity_volume,
            unconditionally_valid,
        }
    }

    /// Looks an address up in the list of tokens that are always eligible.
    pub fn is_listed(&self, address: Address) -> (found: bool)
        ensures
            found == self.listed(address),
    {
        let mut i: usize = 0;
        while i < self.unconditionally_valid.len()
            invariant
                i <= self.unconditionally_valid.len(),
                forall|j: int| 0 <= j < i ==> self.unconditionally_valid@[j] != address,
            decreases self.unconditionally_valid.len() - i,
        {
            if self.unconditionally_valid[i] == address {
                return true;
            }
            i += 1;
        }
        false
    }

    /// Whether the token may pay fees at the time `now`, in seconds. Reads
    /// the cache only: a missing or stale observation means "not allowed".
    pub fn token_allowed(&self, token: &Token, now: u64) -> (allowed: bool)
        requires
            self.wf(),
        ensures
            allowed == self.allowed(*token, now),
    {
        if self.is_listed(token.address) {
            return true;
        }
        match self.tokens.get(&token.id) {
            None => false,
            Some(entry) => {
                if now > entry.observed_at && now - entry.observed_at > self.available_time {
                    false
                } else {
                    ratio_ge(&entry.volume, &self.liquidity_volume)
                }
            },
        }
    }

    /// Overwrites a token's observation with a fresh one.
    pub fn update_token(&mut self, token: Token, volume: Ratio<BigUint>, now: u64)
        requires
            old(self).wf(),
            ratio_denom(volume) > 0,
        ensures
            final(self).wf(),
            final(self).tokens@ == old(self).tokens@.insert(
                token.id,
                (LiquidityEntry { token, volume, observed_at: now }),
            ),
            final(self).available_time == old(self).available_time,
            final(self).liquidity_volume == old(self).liquidity_volume,
            final(self).unconditionally_valid == old(self).unconditionally_valid,
    {
        self.tokens.insert(token.id, LiquidityEntry { token, volume, observed_at: now });
    }

    /// One step of a refresh cycle: what the watcher gave for a token is
    /// recorded; a failed query leaves the cache as it was.
    pub fn apply_observation(
        &mut self,
        token: Token,
        observed: Option<Ratio<BigUint>>,
        now: u64,
    ) -> (updated: bool)
        requires
            old(self).wf(),
            observed is Some ==> ratio_denom(observed->Some_0) > 0,
        ensures
            final(self).wf(),
            updated == (observed is Some),
            final(self).tokens@ == match observed {
                Some(volume) => old(self).tokens@.insert(
                    token.id,
                    (LiquidityEntry { token, volume, observed_at: now }),
                ),
                None => old(self).tokens@,
            },
            final(self).available_time == old(self).available_time,
            final(self).liquidity_volume == old(self).liquidity_volume,
            final(self).unconditionally_valid == old(self).unconditionally_valid,
    {
        match observed {
            Some(volume) => {
                self.update_token(token, volume, now);
                true
            },
            None => false,
        }
    }
}

/// A listed token is allowed whatever the cache holds for it: nothing, or a
/// volume of zero, or a stale observation.
pub proof fn lemma_listed_token_allowed(validator: FeeTokenValidator, token: Token, now: u64)
    requires
        validator.listed(token.address),
    ensures
        validator.allowed(token, now),
{
}

/// A token that is not listed is refused once its observation is older than
/// the validator allows, however large the observed volume.
pub proof fn lemma_stale_token_refused(validator: FeeTokenValidator, token: Token, now: u64)
    requires
        !validator.listed(token.address),
        validator.tokens@.contains_key(token.id),
        stale(validator.tokens@[token.id].observed_at, now, validator.available_time),
    ensures
        !validator.allowed(token, now),
{
}

/// A token that is not listed and was never observed is refused.
pub proof fn lemma_unknown_token_refused(validator: FeeTokenValidator, token: Token, now: u64)
    requires
        !validator.listed(token.address),
        !validator.tokens@.contains_key(token.id),
    ensures
        !validator.allowed(token, now),
{
}

/// A token whose volume was just observed is allowed exactly if it is
/// listed or the volume reaches the threshold: a fresh observation is never
/// stale.
pub proof fn lemma_fresh_observation_decides(
    before: FeeTokenValidator,
    after: FeeTokenValidator,
    token: Token,
    volume: Ratio<BigUint>,
    now: u64,
)
    requires
        after.tokens@ == before.tokens@.insert(
            token.id,
            (LiquidityEntry { token, volume, observed_at: now }),
        ),
        after.available_time == before.available_time,
        after.liquidity_volume == before.liquidity_volume,
        after.unconditionally_valid == before.unconditionally_valid,
    ensures
        after.allowed(token, now) == (before.listed(token.address) || rat_of(volume).at_least(
            rat_of(before.liquidity_volume),
        )),
{
}

/// An observation of one token changes nothing for a token with another id.
pub proof fn lemma_observation_keeps_other_tokens(
    before: FeeTokenValidator,
    after: FeeTokenValidator,
    entry: LiquidityEntry,
    id: u16,
    other: Token,
    now: u64,
)
    requires
        after.tokens@ == before.tokens@.insert(id, entry),
        after.available_time == before.available_time,
        after.liquidity_volume == before.liquidity_volume,
        after.unconditionally_valid == before.unconditionally_valid,
        other.id != id,
    ensures
        after.allowed(other, now) == before.allowed(other, now),
{
}

} // verus!
