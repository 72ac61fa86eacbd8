//! The fee algorithm of a worker: fees, prices and the subsidy rule.

use crate::config::TickerConfig;
use crate::fee::{
    chunks_of, fee_type_and_chunks, fee_type_of, Address, Fee, TickerError, Token, TxFeeTypes,
};
use crate::rational::{
    big_clone, big_from_u64, big_pow, big_value, has_positive_denominator,
    lemma_over_respects_same, lemma_same_transitive, lemma_times_respects_same, rat_of,
    ratio_clone, ratio_denom, ratio_div, ratio_from_integer, ratio_is_zero, ratio_mul,
    ratio_numer, Rat,
};
use crate::validator::FeeTokenValidator;
use num::rational::Ratio;
use num::BigUint;
use vstd::arithmetic::power::{lemma_pow_positive, pow};
use vstd::prelude::*;

verus! {

broadcast use vstd::std_specs::hash::group_hash_axioms;

/// The unit that a price is asked in.
#[derive(Clone, Copy, Debug, PartialEq, Eq, Structural)]
pub enum TokenPriceRequestType {
    /// The price of the smallest unit of the token.
    USDForOneWei,
    /// The price of one whole token.
    USDForOneToken,
}

/// The number of decimals of the native currency.
pub const NATIVE_DECIMALS: u32 = 18;

/// A quote for a whole token, brought down to its smallest unit.
pub open spec fn unit_price(quote: Rat, decimals: nat) -> Rat {
    quote.over(Rat::whole(pow(10, decimals) as nat))
}

/// The price that a request type asks for.
pub open spec fn price_spec(quote: Rat, decimals: nat, request_type: TokenPriceRequestType) -> Rat {
    match request_type {
        TokenPriceRequestType::USDForOneWei => unit_price(quote, decimals),
        TokenPriceRequestType::USDForOneToken => quote,
    }
}

/// The proving part of a fee: cost per chunk, times chunks, times risk
/// factor, over the token's price.
pub open spec fn zkp_fee_spec(cost_per_chunk: Rat, chunks: nat, risk: Rat, token_price: Rat) -> Rat {
    cost_per_chunk.times(Rat::whole(chunks)).times(risk).over(token_price)
}

/// The gas part of a fee: the native currency's price, times gas units,
/// times gas price, times risk factor, over the token's price.
pub open spec fn gas_fee_spec(
    native_price: Rat,
    gas_units: nat,
    gas_price: nat,
    risk: Rat,
    token_price: Rat,
) -> Rat {
    native_price.times(Rat::whole(gas_units)).times(Rat::whole(gas_price)).times(risk).over(
        token_price,
    )
}

/// A product that stands for `a * b` also stands for `a2 * b2` when the
/// factors are equal as rationals.
proof fn lemma_times_step(r: Rat, a: Rat, a2: Rat, b: Rat, b2: Rat)
    requires
        r.same(a.times(b)),
        a.same(a2),
        b.same(b2),
        a.den > 0,
        b.den > 0,
    ensures
        r.same(a2.times(b2)),
{
    lemma_times_respects_same(a, a2, b, b2);
    assert(a.times(b).den > 0) by (nonlinear_arith)
        requires
            a.times(b).den == a.den * b.den,
            a.den > 0,
            b.den > 0,
    ;
    lemma_same_transitive(r, a.times(b), a2.times(b2));
}

/// A quotient that stands for `a / b` also stands for `a2 / b2` when the
/// operands are equal as rationals.
proof fn lemma_over_step(r: Rat, a: Rat, a2: Rat, b: Rat, b2: Rat)
    requires
        r.same(a.over(b)),
        a.same(a2),
        b.same(b2),
        a.den > 0,
        b.num > 0,
    ensures
        r.same(a2.over(b2)),
{
    lemma_over_respects_same(a, a2, b, b2);
    assert(a.over(b).den > 0) by (nonlinear_arith)
        requires
            a.over(b).den == a.den * b.num,
            a.den > 0,
            b.num > 0,
    ;
    lemma_same_transitive(r, a.over(b), a2.over(b2));
}

/// Two equal fractions with positive denominators are zero together.
proof fn lemma_same_zero(a: Rat, b: Rat)
    requires
        a.same(b),
        a.den > 0,
        b.den > 0,
    ensures
        a.num == 0 <==> b.num == 0,
{
    assert(a.num == 0 <==> b.num == 0) by (nonlinear_arith)
        requires
            a.num * b.den == b.num * a.den,
            a.den > 0,
            b.den > 0,
    ;
}

/// Multiplies a ratio by a machine integer.
fn times_u64(a: &Ratio<BigUint>, n: u64) -> (r: Ratio<BigUint>)
    requires
        ratio_denom(*a) > 0,
    ensures
        rat_of(r).same(rat_of(*a).times(Rat::whole(n as nat))),
        rat_of(r).lowest_terms(),
{
    let factor = ratio_from_integer(big_from_u64(n));
    ratio_mul(a, &factor)
}

/// Divides a quote for a whole token by ten to the power of its decimals.
pub fn per_atomic_unit(quote: &Ratio<BigUint>, decimals: u32) -> (r: Ratio<BigUint>)
    requires
        ratio_denom(*quote) > 0,
    ensures
        rat_of(r).same(unit_price(rat_of(*quote), decimals as nat)),
        rat_of(r).lowest_terms(),
        ratio_numer(r) == 0 <==> ratio_numer(*quote) == 0,
{
    let ten = big_from_u64(10);
    let scale = ratio_from_integer(big_pow(&ten, decimals));
    proof {
        lemma_pow_positive(10, decimals as nat);
    }
    let r = ratio_div(quote, &scale);
    proof {
        let q = rat_of(*quote);
        let target = unit_price(q, decimals as nat);
        assert(target.den > 0) by (nonlinear_arith)
            requires
                target.den == q.den * (pow(10, decimals as nat) as nat),
                q.den > 0,
                pow(10, decimals as nat) > 0,
        ;
        assert(target.num == q.num) by (nonlinear_arith)
            requires
                target.num == q.num * 1,
        ;
        lemma_same_zero(rat_of(r), target);
    }
    r
}

/// With a risk factor of one, a chunk cost of a thousandth of a dollar and a
/// token price of two dollars, the proving part of the fee is `chunks / 2000`
/// and the gas part is the native price times gas units times gas price,
/// halved: both as exact rationals.
pub proof fn lemma_fee_at_unit_risk(
    cost_per_chunk: Rat,
    risk: Rat,
    token_price: Rat,
    native_price: Rat,
    chunks: nat,
    gas_units: nat,
    gas_price: nat,
)
    requires
        cost_per_chunk.same(Rat { num: 1, den: 1000 }),
        risk.same(Rat::whole(1)),
        token_price.same(Rat::whole(2)),
    ensures
        zkp_fee_spec(cost_per_chunk, chunks, risk, token_price).same(
            Rat { num: chunks, den: 2000 },
        ),
        gas_fee_spec(native_price, gas_units, gas_price, risk, token_price).same(
            Rat { num: native_price.num * gas_units * gas_price, den: native_price.den * 2 },
        ),
{
    let k = Rat::whole(chunks);
    let one = Rat::whole(1);
    let two = Rat::whole(2);
    let c0 = Rat { num: 1, den: 1000 };
    lemma_times_respects_same(cost_per_chunk, c0, k, k);
    lemma_times_respects_same(cost_per_chunk.times(k), c0.times(k), risk, one);
    lemma_over_respects_same(
        cost_per_chunk.times(k).times(risk),
        c0.times(k).times(one),
        token_price,
        two,
    );
    let z = c0.times(k).times(one).over(two);
    assert(z.num == chunks && z.den == 2000) by (nonlinear_arith)
        requires
            z.num == ((1 * chunks) * 1) * 1,
            z.den == ((1000 * 1) * 1) * 2,
    ;
    let u = Rat::whole(gas_units);
    let p = Rat::whole(gas_price);
    let n = native_price;
    lemma_times_respects_same(n.times(u).times(p), n.times(u).times(p), risk, one);
    lemma_over_respects_same(
        n.times(u).times(p).times(risk),
        n.times(u).times(p).times(one),
        token_price,
        two,
    );
    let g = n.times(u).times(p).times(one).over(two);
    assert(g.num == n.num * gas_units * gas_price && g.den == n.den * 2) by (nonlinear_arith)
        requires
            g.num == (((n.num * gas_units) * gas_price) * 1) * 1,
            g.den == (((n.den * 1) * 1) * 1) * 2,
    ;
}

/// The price of the smallest unit is the price of the whole token divided by
/// ten to the power of the token's decimals, exactly.
pub proof fn lemma_unit_price_is_scaled_token_price(
    per_unit: Rat,
    per_token: Rat,
    quote: Rat,
    decimals: nat,
)
    requires
        quote.den > 0,
        per_unit.same(price_spec(quote, decimals, TokenPriceRequestType::USDForOneWei)),
        per_token.same(price_spec(quote, decimals, TokenPriceRequestType::USDForOneToken)),
    ensures
        per_unit.same(per_token.over(Rat::whole(pow(10, decimals) as nat))),
{
    let scale = Rat::whole(pow(10, decimals) as nat);
    lemma_pow_positive(10, decimals);
    assert(quote.same(per_token));
    lemma_over_step(per_unit, quote, per_token, scale, scale);
}

/// What a fee for a transaction must be, given the configuration and what
/// the price source gave.
pub open spec fn fee_spec(
    config: TickerConfig,
    fee: Fee,
    tx_type: TxFeeTypes,
    token: Token,
    gas_price: nat,
    native_quote: Rat,
    token_quote: Rat,
) -> bool {
    let units = config.gas_cost_tx.units(fee_type_of(tx_type), config.subsidized(token));
    let risk = config.risk_of(token.id);
    let token_price = unit_price(token_quote, token.decimals as nat);
    let native_price = unit_price(native_quote, NATIVE_DECIMALS as nat);
    &&& fee.fee_type == fee_type_of(tx_type)
    &&& big_value(fee.gas_tx_amount) == units
    &&& big_value(fee.gas_price_wei) == gas_price
    &&& rat_of(fee.zkp_fee).same(
        zkp_fee_spec(
            rat_of(config.zkp_cost_chunk_usd),
            chunks_of(config.op_chunks, tx_type) as nat,
            risk,
            token_price,
        ),
    )
    &&& rat_of(fee.zkp_fee).lowest_terms()
    &&& rat_of(fee.gas_fee).same(
        gas_fee_spec(native_price, units as nat, gas_price, risk, token_price),
    )
    &&& rat_of(fee.gas_fee).lowest_terms()
}

/// A reference to a token, before it is resolved.
#[derive(Clone, Debug)]
pub enum TokenLike {
    Id(u16),
    Address(Address),
    Symbol(String),
}

/// What a caller can ask of a worker. The caller's reply slot travels beside
/// the request, not in it.
#[derive(Clone, Debug)]
pub enum TickerRequest {
    GetTxFee { tx_type: TxFeeTypes, token: TokenLike },
    GetTokenPrice { token: TokenLike, req_type: TokenPriceRequestType },
    IsTokenAllowed { token: TokenLike },
}

/// Which upstream answers a request needs before it can be served.
#[derive(Clone, Copy, Debug, PartialEq, Eq, Structural)]
pub struct UpstreamNeeds {
    pub token: bool,
    pub gas_price: bool,
    pub native_quote: bool,
    pub token_quote: bool,
}

/// What the upstream sources gave for one request. `None` stands for a
/// token that the registry does not know, or for a source that failed or
/// timed out.
#[derive(Debug)]
pub struct Upstream {
    pub token: Option<Token>,
    pub gas_price_wei: Option<BigUint>,
    pub native_quote: Option<Ratio<BigUint>>,
    pub token_quote: Option<Ratio<BigUint>>,
}

/// The reply to a request: one variant for each kind of request.
#[derive(Debug)]
pub enum TickerResponse {
    TxFee(Result<Fee, TickerError>),
    TokenPrice(Result<Ratio<BigUint>, TickerError>),
    TokenAllowed(Result<bool, TickerError>),
}

/// Why a fee request fails, if it does: an unknown token first, then a
/// missing upstream answer, then a token quoted at zero.
pub open spec fn fee_failure(upstream: Upstream) -> Option<TickerError> {
    if upstream.token is None {
        Some(TickerError::TokenNotFound)
    } else if upstream.gas_price_wei is None || upstream.native_quote is None
        || upstream.token_quote is None {
        Some(TickerError::UpstreamUnavailable)
    } else if ratio_numer(upstream.token_quote->Some_0) == 0 {
        Some(TickerError::UpstreamUnavailable)
    } else {
        None
    }
}

/// Why a price request fails, if it does. Only a price per smallest unit
/// needs the token to be resolved.
pub open spec fn price_failure(
    upstream: Upstream,
    request_type: TokenPriceRequestType,
) -> Option<TickerError> {
    if request_type == TokenPriceRequestType::USDForOneWei && upstream.token is None {
        Some(TickerError::TokenNotFound)
    } else if upstream.token_quote is None {
        Some(TickerError::UpstreamUnavailable)
    } else {
        None
    }
}

/// The decimals of the token that the registry gave, or none where it gave
/// no token.
pub open spec fn price_decimals(upstream: Upstream) -> nat {
    match upstream.token {
        Some(token) => token.decimals as nat,
        None => 0,
    }
}

/// The upstream answers that a request of each kind needs.
pub open spec fn needs_spec(request: TickerRequest) -> UpstreamNeeds {
    match request {
        TickerRequest::GetTxFee { .. } => UpstreamNeeds {
            token: true,
            gas_price: true,
            native_quote: true,
            token_quote: true,
        },
        TickerRequest::GetTokenPrice { req_type, .. } => UpstreamNeeds {
            token: req_type == TokenPriceRequestType::USDForOneWei,
            gas_price: false,
            native_quote: false,
            token_quote: true,
        },
        TickerRequest::IsTokenAllowed { .. } => UpstreamNeeds {
            token: true,
            gas_price: false,
            native_quote: false,
            token_quote: false,
        },
    }
}

/// Says which upstream answers to fetch before a request is served.
pub fn upstream_needs(request: &TickerRequest) -> (needs: UpstreamNeeds)
    ensures
        needs == needs_spec(*request),
{
    match request {
        TickerRequest::GetTxFee { .. } => UpstreamNeeds {
            token: true,
            gas_price: true,
            native_quote: true,
            token_quote: true,
        },
        TickerRequest::GetTokenPrice { req_type, .. } => {
            let per_unit = match req_type {
                TokenPriceRequestType::USDForOneWei => true,
                TokenPriceRequestType::USDForOneToken => false,
            };
            UpstreamNeeds { token: per_unit, gas_price: false, native_quote: false, token_quote: true }
        },
        TickerRequest::IsTokenAllowed { .. } => UpstreamNeeds {
            token: true,
            gas_price: false,
            native_quote: false,
            token_quote: false,
        },
    }
}

/// One worker's fee algorithm, with the configuration it was built with.
/// The validator is shared between the workers and handed in with a request.
#[derive(Debug)]
pub struct FeeTicker {
    pub config: TickerConfig,
}

impl FeeTicker {
    /// A worker over a configuration.
    pub fn new(config: TickerConfig) -> (ticker: FeeTicker)
        ensures
            ticker.config == config,
    {
        FeeTicker { config }
    }

    /// The worker's rationals all have positive denominators.
    pub open spec fn wf(self) -> bool {
        self.config.wf()
    }

    /// The rationals that the upstream sources gave have positive
    /// denominators.
    pub open spec fn usable(upstream: Upstream) -> bool {
        &&& upstream.native_quote is Some ==> ratio_denom(upstream.native_quote->Some_0) > 0
        &&& upstream.token_quote is Some ==> ratio_denom(upstream.token_quote->Some_0) > 0
    }

    /// What the reply to a fee request must be.
    pub open spec fn fee_answer(
        self,
        answer: Result<Fee, TickerError>,
        tx_type: TxFeeTypes,
        upstream: Upstream,
    ) -> bool {
        match answer {
            Err(e) => fee_failure(upstream) == Some(e),
            Ok(fee) => fee_failure(upstream) is None && fee_spec(
                self.config,
                fee,
                tx_type,
                upstream.token->Some_0,
                big_value(upstream.gas_price_wei->Some_0),
                rat_of(upstream.native_quote->Some_0),
                rat_of(upstream.token_quote->Some_0),
            ),
        }
    }

    /// What the reply to a price request must be.
    pub open spec fn price_answer(
        self,
        answer: Result<Ratio<BigUint>, TickerError>,
        request_type: TokenPriceRequestType,
        upstream: Upstream,
    ) -> bool {
        match answer {
            Err(e) => price_failure(upstream, request_type) == Some(e),
            Ok(price) => {
                &&& price_failure(upstream, request_type) is None
                &&& rat_of(price).same(
                    price_spec(
                        rat_of(upstream.token_quote->Some_0),
                        price_decimals(upstream),
                        request_type,
                    ),
                )
                &&& rat_of(price).lowest_terms()
            },
        }
    }

    /// What the reply to an eligibility request must be.
    pub open spec fn allowed_answer(
        validator: FeeTokenValidator,
        answer: Result<bool, TickerError>,
        token: Option<Token>,
        now: u64,
    ) -> bool {
        match token {
            Some(token) => answer == Ok::<bool, TickerError>(validator.allowed(token, now)),
            None => answer == Err::<bool, TickerError>(TickerError::TokenNotFound),
        }
    }

    /// Serves a fee request from what the upstream sources gave.
    pub fn answer_fee(
        &self,
        tx_type: TxFeeTypes,
        upstream: Upstream,
    ) -> (answer: Result<Fee, TickerError>)
        requires
            self.config.wf(),
            Self::usable(upstream),
        ensures
            self.fee_answer(answer, tx_type, upstream),
    {
        let Upstream { token, gas_price_wei, native_quote, token_quote } = upstream;
        match token {
            None => Err(TickerError::TokenNotFound),
            Some(token) => match (gas_price_wei, native_quote, token_quote) {
                (Some(gas_price_wei), Some(native_quote), Some(token_quote)) => {
                    self.get_fee_from_ticker_in_wei(
                        tx_type,
                        &token,
                        gas_price_wei,
                        &native_quote,
                        &token_quote,
                    )
                },
                _ => Err(TickerError::UpstreamUnavailable),
            },
        }
    }

    /// Serves a price request from what the upstream sources gave.
    pub fn answer_price(
        &self,
        request_type: TokenPriceRequestType,
        upstream: Upstream,
    ) -> (answer: Result<Ratio<BigUint>, TickerError>)
        requires
            Self::usable(upstream),
        ensures
            self.price_answer(answer, request_type, upstream),
    {
        let Upstream { token, gas_price_wei: _, native_quote: _, token_quote } = upstream;
        let decimals: u8 = match token {
            Some(token) => token.decimals,
            None => {
                match request_type {
                    TokenPriceRequestType::USDForOneWei => {
                        return Err(TickerError::TokenNotFound);
                    },
                    TokenPriceRequestType::USDForOneToken => 0,
                }
            },
        };
        match token_quote {
            None => Err(TickerError::UpstreamUnavailable),
            Some(quote) => Ok(self.get_token_price(&quote, decimals, request_type)),
        }
    }

    /// Serves an eligibility request. Only the cache is read: no upstream
    /// source is asked.
    pub fn answer_allowed(
        &self,
        validator: &FeeTokenValidator,
        token: Option<Token>,
        now: u64,
    ) -> (answer: Result<bool, TickerError>)
        requires
            validator.wf(),
        ensures
            Self::allowed_answer(*validator, answer, token, now),
    {
        match token {
            None => Err(TickerError::TokenNotFound),
            Some(token) => Ok(validator.token_allowed(&token, now)),
        }
    }

    /// What the reply to a request must be.
    pub open spec fn response_spec(
        self,
        validator: FeeTokenValidator,
        response: TickerResponse,
        request: TickerRequest,
        upstream: Upstream,
        now: u64,
    ) -> bool {
        match request {
            TickerRequest::GetTxFee { tx_type, .. } => response is TxFee && self.fee_answer(
                response->TxFee_0,
                tx_type,
                upstream,
            ),
            TickerRequest::GetTokenPrice { req_type, .. } => response is TokenPrice
                && self.price_answer(response->TokenPrice_0, req_type, upstream),
            TickerRequest::IsTokenAllowed { .. } => response is TokenAllowed
                && Self::allowed_answer(validator, response->TokenAllowed_0, upstream.token, now),
        }
    }

    /// Serves one request: the reply is of the request's kind, and a failure
    /// is a value in it, so serving never stops the worker.
    pub fn serve(
        &self,
        validator: &FeeTokenValidator,
        request: &TickerRequest,
        upstream: Upstream,
        now: u64,
    ) -> (response: TickerResponse)
        requires
            self.wf(),
            validator.wf(),
            Self::usable(upstream),
        ensures
            self.response_spec(*validator, response, *request, upstream, now),
    {
        match request {
            TickerRequest::GetTxFee { tx_type, .. } => TickerResponse::TxFee(
                self.answer_fee(*tx_type, upstream),
            ),
            TickerRequest::GetTokenPrice { req_type, .. } => TickerResponse::TokenPrice(
                self.answer_price(*req_type, upstream),
            ),
            TickerRequest::IsTokenAllowed { .. } => TickerResponse::TokenAllowed(
                self.answer_allowed(validator, upstream.token, now),
            ),
        }
    }

    /// Tests whether the rationals that the upstream sources gave can be
    /// computed with.
    pub fn upstream_usable(upstream: &Upstream) -> (ok: bool)
        ensures
            ok == Self::usable(*upstream),
    {
        let native_ok = match &upstream.native_quote {
            Some(quote) => has_positive_denominator(quote),
            None => true,
        };
        let token_ok = match &upstream.token_quote {
            Some(quote) => has_positive_denominator(quote),
            None => true,
        };
        native_ok && token_ok
    }

    /// Serves one request if the upstream answers can be computed with, and
    /// says so with `None` if they cannot.
    pub fn try_serve(
        &self,
        validator: &FeeTokenValidator,
        request: &TickerRequest,
        upstream: Upstream,
        now: u64,
    ) -> (response: Option<TickerResponse>)
        requires
            self.wf(),
            validator.wf(),
        ensures
            response is Some <==> Self::usable(upstream),
            response is Some ==> self.response_spec(
                *validator,
                response->Some_0,
                *request,
                upstream,
                now,
            ),
    {
        if Self::upstream_usable(&upstream) {
            Some(self.serve(validator, request, upstream, now))
        } else {
            None
        }
    }

    /// The price of a token in the unit asked for, from the quote for one
    /// whole token. The decimals count only for a price per smallest unit.
    pub fn get_token_price(
        &self,
        quote: &Ratio<BigUint>,
        decimals: u8,
        request_type: TokenPriceRequestType,
    ) -> (price: Ratio<BigUint>)
        requires
            ratio_denom(*quote) > 0,
        ensures
            rat_of(price).same(price_spec(rat_of(*quote), decimals as nat, request_type)),
            rat_of(price).lowest_terms(),
    {
        match request_type {
            TokenPriceRequestType::USDForOneWei => per_atomic_unit(quote, decimals as u32),
            TokenPriceRequestType::USDForOneToken => {
                let factor = ratio_from_integer(big_from_u64(1));
                let price = ratio_div(quote, &factor);
                proof {
                    let q = rat_of(*quote);
                    let p = rat_of(price);
                    assert(p.same(q)) by (nonlinear_arith)
                        requires
                            p.num * (q.den * 1) == (q.num * 1) * p.den,
                    ;
                }
                price
            },
        }
    }

    /// Returns `true` if the token is charged at the subsidized rate.
    pub fn is_token_subsidized(&self, token: &Token) -> (subsidized: bool)
        ensures
            subsidized == self.config.subsidized(*token),
    {
        if !self.config.subsidies_enabled {
            return false;
        }
        !self.config.is_excluded(token.address)
    }

    /// The risk factor of a token: the configured one, or one.
    pub fn risk_factor(&self, token: &Token) -> (risk: Ratio<BigUint>)
        requires
            self.config.wf(),
        ensures
            rat_of(risk) == self.config.risk_of(token.id),
            ratio_denom(risk) > 0,
    {
        match self.config.tokens_risk_factors.get(&token.id) {
            Some(factor) => ratio_clone(factor),
            None => ratio_from_integer(big_from_u64(1)),
        }
    }

    /// The fee for a transaction of the given kind, paid in the given token.
    /// A token quoted at zero cannot be divided by: that is answered as an
    /// unavailable upstream, and it is the only failure.
    pub fn get_fee_from_ticker_in_wei(
        &self,
        tx_type: TxFeeTypes,
        token: &Token,
        gas_price_wei: BigUint,
        native_quote: &Ratio<BigUint>,
        token_quote: &Ratio<BigUint>,
    ) -> (r: Result<Fee, TickerError>)
        requires
            self.config.wf(),
            ratio_denom(*native_quote) > 0,
            ratio_denom(*token_quote) > 0,
        ensures
            r is Err <==> ratio_numer(*token_quote) == 0,
            match r {
                Ok(fee) => fee_spec(
                    self.config,
                    fee,
                    tx_type,
                    *token,
                    big_value(gas_price_wei),
                    rat_of(*native_quote),
                    rat_of(*token_quote),
                ),
                Err(e) => e == TickerError::UpstreamUnavailable,
            },
    {
        let token_risk_factor = self.risk_factor(token);
        let (fee_type, op_chunks) = fee_type_and_chunks(&self.config.op_chunks, tx_type);
        let gas_tx_amount = if self.is_token_subsidized(token) {
            self.config.gas_cost_tx.subsidize_cost.get(fee_type)
        } else {
            self.config.gas_cost_tx.standard_cost.get(fee_type)
        };
        if ratio_is_zero(token_quote) {
            return Err(TickerError::UpstreamUnavailable);
        }
        let wei_price_usd = per_atomic_unit(native_quote, NATIVE_DECIMALS);
        let token_price_usd = per_atomic_unit(token_quote, token.decimals as u32);

        let ghost risk = rat_of(token_risk_factor);
        let ghost token_price = unit_price(rat_of(*token_quote), token.decimals as nat);
        let ghost native_price = unit_price(rat_of(*native_quote), NATIVE_DECIMALS as nat);
        let ghost chunks = Rat::whole(op_chunks as nat);
        let ghost units = Rat::whole(gas_tx_amount as nat);
        let ghost gas_price = Rat::whole(big_value(gas_price_wei));

        let per_op = times_u64(&self.config.zkp_cost_chunk_usd, op_chunks);
        let at_risk = ratio_mul(&per_op, &token_risk_factor);
        let zkp_fee = ratio_div(&at_risk, &token_price_usd);
        proof {
            let cost = rat_of(self.config.zkp_cost_chunk_usd);
            lemma_times_step(rat_of(at_risk), rat_of(per_op), cost.times(chunks), risk, risk);
            lemma_over_step(
                rat_of(zkp_fee),
                rat_of(at_risk),
                cost.times(chunks).times(risk),
                rat_of(token_price_usd),
                token_price,
            );
        }

        let gas_price_ratio = ratio_from_integer(big_clone(&gas_price_wei));
        let gas_native = times_u64(&wei_price_usd, gas_tx_amount);
        let gas_usd = ratio_mul(&gas_native, &gas_price_ratio);
        let gas_at_risk = ratio_mul(&gas_usd, &token_risk_factor);
        let gas_fee = ratio_div(&gas_at_risk, &token_price_usd);
        proof {
            lemma_times_step(
                rat_of(gas_native),
                rat_of(wei_price_usd),
                native_price,
                units,
                units,
            );
            lemma_times_step(
                rat_of(gas_usd),
                rat_of(gas_native),
                native_price.times(units),
                gas_price,
                gas_price,
            );
            lemma_times_step(
                rat_of(gas_at_risk),
                rat_of(gas_usd),
                native_price.times(units).times(gas_price),
                risk,
                risk,
            );
            lemma_over_step(
                rat_of(gas_fee),
                rat_of(gas_at_risk),
                native_price.times(units).times(gas_price).times(risk),
                rat_of(token_price_usd),
                token_price,
            );
        }
        Ok(Fee::new(fee_type, zkp_fee, gas_fee, big_from_u64(gas_tx_amount), gas_price_wei))
    }
}

} // verus!
