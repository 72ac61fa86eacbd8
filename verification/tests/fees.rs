use fee_ticker::fee::fee_type_and_chunks;
use fee_ticker::rational::{checked_ratio, has_positive_denominator};
use fee_ticker::ticker::{per_atomic_unit, upstream_needs};
use fee_ticker::{
    Address, CostConstants, FeeTicker, FeeTokenValidator, GasOperationsCost, OpChunks,
    OutputFeeType, TickerConfig, TickerError, TickerRequest, TickerResponse, Token, TokenLike,
    TokenPriceRequestType, TxFeeTypes, Upstream,
};
use num::rational::Ratio;
use num::BigUint;

fn big(n: u64) -> BigUint {
    BigUint::from(n)
}

fn ratio(n: u64, d: u64) -> Ratio<BigUint> {
    Ratio::new(big(n), big(d))
}

fn constants() -> CostConstants {
    CostConstants {
        base_transfer_to_new: 5_000,
        base_withdraw: 45_000,
        base_change_pubkey_offchain: 11_000,
        base_change_pubkey_onchain: 5_500,
        subsidy_transfer_to_new: 1_650,
        subsidy_withdraw: 3_500,
        subsidy_change_pubkey_offchain: 10_000,
    }
}

fn chunks() -> OpChunks {
    OpChunks { withdraw: 6, transfer_to_new: 5, change_pubkey: 4 }
}

fn excluded_address() -> Address {
    Address { upper: 0xdead_beef, lower: 42 }
}

fn config(subsidies_enabled: bool) -> TickerConfig {
    TickerConfig::new(
        ratio(1, 1000),
        GasOperationsCost::from_constants(&constants(), 67_500, 5_250),
        chunks(),
        vec![excluded_address()],
        subsidies_enabled,
    )
}

fn validator() -> FeeTokenValidator {
    FeeTokenValidator::new(100, ratio(500, 1), vec![])
}

fn ticker(subsidies_enabled: bool) -> FeeTicker {
    FeeTicker::new(config(subsidies_enabled))
}

fn plain_token() -> Token {
    Token { id: 7, address: Address { upper: 1, lower: 2 }, decimals: 0 }
}

fn dai() -> Token {
    Token { id: 1, address: Address { upper: 0x6b17, lower: 0x5474 }, decimals: 18 }
}

#[test]
fn fast_withdraw_uses_withdraw_chunks() {
    let (kind, count) = fee_type_and_chunks(&chunks(), TxFeeTypes::FastWithdraw);
    assert_eq!(kind, OutputFeeType::FastWithdraw);
    assert_eq!(count, 6);
}

#[test]
fn every_tx_kind_maps_by_the_table() {
    let c = chunks();
    assert_eq!(fee_type_and_chunks(&c, TxFeeTypes::Withdraw), (OutputFeeType::Withdraw, 6));
    assert_eq!(
        fee_type_and_chunks(&c, TxFeeTypes::Transfer),
        (OutputFeeType::TransferToNew, 5)
    );
    assert_eq!(
        fee_type_and_chunks(&c, TxFeeTypes::ChangePubKey { onchain_pubkey_auth: true }),
        (OutputFeeType::ChangePubKey { onchain_pubkey_auth: true }, 4)
    );
    assert_eq!(
        fee_type_and_chunks(&c, TxFeeTypes::ChangePubKey { onchain_pubkey_auth: false }),
        (OutputFeeType::ChangePubKey { onchain_pubkey_auth: false }, 4)
    );
}

#[test]
fn gas_table_has_all_five_keys_at_both_rates() {
    let table = GasOperationsCost::from_constants(&constants(), 67_500, 5_250);
    assert_eq!(table.standard_cost.get(OutputFeeType::TransferToNew), 5_000);
    assert_eq!(table.standard_cost.get(OutputFeeType::Withdraw), 45_000);
    assert_eq!(table.standard_cost.get(OutputFeeType::FastWithdraw), 67_500);
    assert_eq!(
        table.standard_cost.get(OutputFeeType::ChangePubKey { onchain_pubkey_auth: false }),
        11_000
    );
    assert_eq!(
        table.standard_cost.get(OutputFeeType::ChangePubKey { onchain_pubkey_auth: true }),
        5_500
    );
    assert_eq!(table.subsidize_cost.get(OutputFeeType::TransferToNew), 1_650);
    assert_eq!(table.subsidize_cost.get(OutputFeeType::Withdraw), 3_500);
    assert_eq!(table.subsidize_cost.get(OutputFeeType::FastWithdraw), 5_250);
    assert_eq!(
        table.subsidize_cost.get(OutputFeeType::ChangePubKey { onchain_pubkey_auth: false }),
        10_000
    );
    assert_eq!(
        table.subsidize_cost.get(OutputFeeType::ChangePubKey { onchain_pubkey_auth: true }),
        5_500
    );
}

#[test]
fn fee_at_unit_risk_is_exact() {
    // Token price 2 USD, native price 3000 USD per 10^18 units, gas price 10^9.
    let t = ticker(false);
    let fee = t
        .get_fee_from_ticker_in_wei(
            TxFeeTypes::Withdraw,
            &plain_token(),
            big(1_000_000_000),
            &ratio(3000, 1),
            &ratio(2, 1),
        )
        .unwrap();
    assert_eq!(fee.fee_type, OutputFeeType::Withdraw);
    assert_eq!(fee.gas_tx_amount, big(45_000));
    assert_eq!(fee.gas_price_wei, big(1_000_000_000));
    // 0.001 * 6 / 2
    assert_eq!(fee.zkp_fee, ratio(6, 2000));
    assert_eq!(fee.zkp_fee, ratio(3, 1000));
    // (3000 / 10^18) * 45000 * 10^9 / 2
    assert_eq!(fee.gas_fee, ratio(27, 400));
}

#[test]
fn fee_with_risk_factor_and_decimals() {
    let mut cfg = config(false);
    cfg.set_risk_factor(dai().id, ratio(3, 2));
    let t = FeeTicker::new(cfg);
    let fee = t
        .get_fee_from_ticker_in_wei(
            TxFeeTypes::FastWithdraw,
            &dai(),
            big(1_000_000_000),
            &ratio(3000, 1),
            &ratio(1, 1),
        )
        .unwrap();
    assert_eq!(fee.fee_type, OutputFeeType::FastWithdraw);
    assert_eq!(fee.gas_tx_amount, big(67_500));
    // 0.001 * 6 * 1.5 * 10^18
    assert_eq!(fee.zkp_fee, ratio(9_000_000_000_000_000, 1));
    // 3000 * 67500 * 10^9 * 1.5
    assert_eq!(fee.gas_fee, ratio(303_750_000_000_000_000, 1));
}

#[test]
fn risk_factor_defaults_to_one() {
    let t = ticker(false);
    assert_eq!(t.risk_factor(&dai()), ratio(1, 1));
    let mut cfg = config(false);
    cfg.set_risk_factor(1, ratio(7, 3));
    let t = FeeTicker::new(cfg);
    assert_eq!(t.risk_factor(&dai()), ratio(7, 3));
    assert_eq!(t.risk_factor(&plain_token()), ratio(1, 1));
}

#[test]
fn subsidy_needs_the_toggle_and_a_token_that_is_not_excluded() {
    let excluded = Token { id: 9, address: excluded_address(), decimals: 0 };
    assert!(!ticker(false).is_token_subsidized(&plain_token()));
    assert!(!ticker(false).is_token_subsidized(&excluded));
    assert!(ticker(true).is_token_subsidized(&plain_token()));
    assert!(!ticker(true).is_token_subsidized(&excluded));
}

#[test]
fn subsidized_fee_uses_the_subsidized_gas_cost() {
    let t = ticker(true);
    let fee = t
        .get_fee_from_ticker_in_wei(
            TxFeeTypes::Withdraw,
            &plain_token(),
            big(1_000_000_000),
            &ratio(3000, 1),
            &ratio(2, 1),
        )
        .unwrap();
    assert_eq!(fee.gas_tx_amount, big(3_500));
    // (3000 / 10^18) * 3500 * 10^9 / 2
    assert_eq!(fee.gas_fee, ratio(21, 4000));
    let excluded = Token { id: 9, address: excluded_address(), decimals: 0 };
    let fee = t
        .get_fee_from_ticker_in_wei(
            TxFeeTypes::Withdraw,
            &excluded,
            big(1_000_000_000),
            &ratio(3000, 1),
            &ratio(2, 1),
        )
        .unwrap();
    assert_eq!(fee.gas_tx_amount, big(45_000));
}

#[test]
fn zero_token_price_is_an_error_not_a_crash() {
    let t = ticker(false);
    let r = t.get_fee_from_ticker_in_wei(
        TxFeeTypes::Transfer,
        &plain_token(),
        big(1),
        &ratio(3000, 1),
        &ratio(0, 1),
    );
    assert_eq!(r.err(), Some(TickerError::UpstreamUnavailable));
}

#[test]
fn price_per_unit_is_price_per_token_over_ten_to_the_decimals() {
    let t = ticker(false);
    let quote = ratio(12345, 100);
    let per_token = t.get_token_price(&quote, 18, TokenPriceRequestType::USDForOneToken);
    let per_unit = t.get_token_price(&quote, 18, TokenPriceRequestType::USDForOneWei);
    assert_eq!(per_token, ratio(12345, 100));
    let scale = Ratio::from_integer(big(10).pow(18));
    assert_eq!(per_unit, per_token / scale);
    assert_eq!(per_unit, Ratio::new(big(2469), big(20) * big(10).pow(18)));
    assert_eq!(per_atomic_unit(&ratio(5, 1), 1), ratio(1, 2));
    assert_eq!(per_atomic_unit(&ratio(5, 1), 0), ratio(5, 1));
}

#[test]
fn checked_ratio_refuses_a_zero_denominator() {
    assert_eq!(checked_ratio(big(6), big(4)), Some(ratio(3, 2)));
    assert_eq!(checked_ratio(big(6), big(0)), None);
    assert!(has_positive_denominator(&ratio(1, 3)));
    assert!(!has_positive_denominator(&Ratio::new_raw(big(1), big(0))));
}

fn upstream(token: Option<Token>) -> Upstream {
    Upstream {
        token,
        gas_price_wei: Some(big(1_000_000_000)),
        native_quote: Some(ratio(3000, 1)),
        token_quote: Some(ratio(2, 1)),
    }
}

#[test]
fn serve_fee_request() {
    let t = ticker(false);
    let request =
        TickerRequest::GetTxFee { tx_type: TxFeeTypes::Withdraw, token: TokenLike::Id(7) };
    match t.serve(&validator(), &request, upstream(Some(plain_token())), 0) {
        TickerResponse::TxFee(Ok(fee)) => {
            assert_eq!(fee.zkp_fee, ratio(3, 1000));
            assert_eq!(fee.gas_fee, ratio(27, 400));
        }
        other => panic!("unexpected reply: {:?}", other),
    }
}

#[test]
fn unknown_token_is_token_not_found() {
    let t = ticker(false);
    let request = TickerRequest::GetTxFee {
        tx_type: TxFeeTypes::Withdraw,
        token: TokenLike::Symbol(String::from("NOPE")),
    };
    match t.serve(&validator(), &request, upstream(None), 0) {
        TickerResponse::TxFee(Err(e)) => assert_eq!(e, TickerError::TokenNotFound),
        other => panic!("unexpected reply: {:?}", other),
    }
    assert_eq!(t.answer_allowed(&validator(), None, 0), Err(TickerError::TokenNotFound));
    assert_eq!(
        t.answer_price(TokenPriceRequestType::USDForOneWei, upstream(None)),
        Err(TickerError::TokenNotFound)
    );
    assert_eq!(
        t.answer_price(TokenPriceRequestType::USDForOneToken, upstream(None)),
        Ok(ratio(2, 1))
    );
}

#[test]
fn missing_upstream_answer_is_upstream_unavailable() {
    let t = ticker(false);
    let mut u = upstream(Some(plain_token()));
    u.gas_price_wei = None;
    assert_eq!(
        t.answer_fee(TxFeeTypes::Withdraw, u).err(),
        Some(TickerError::UpstreamUnavailable)
    );
    let mut u = upstream(Some(plain_token()));
    u.native_quote = None;
    assert_eq!(
        t.answer_fee(TxFeeTypes::Withdraw, u).err(),
        Some(TickerError::UpstreamUnavailable)
    );
    let mut u = upstream(Some(plain_token()));
    u.token_quote = None;
    assert_eq!(
        t.answer_price(TokenPriceRequestType::USDForOneWei, u),
        Err(TickerError::UpstreamUnavailable)
    );
}

#[test]
fn try_serve_refuses_a_quote_without_denominator() {
    let t = ticker(false);
    let request = TickerRequest::GetTokenPrice {
        token: TokenLike::Address(Address { upper: 1, lower: 2 }),
        req_type: TokenPriceRequestType::USDForOneToken,
    };
    let mut u = upstream(Some(plain_token()));
    u.token_quote = Some(Ratio::new_raw(big(1), big(0)));
    assert!(t.try_serve(&validator(), &request, u, 0).is_none());
    match t.try_serve(&validator(), &request, upstream(Some(plain_token())), 0) {
        Some(TickerResponse::TokenPrice(Ok(price))) => assert_eq!(price, ratio(2, 1)),
        other => panic!("unexpected reply: {:?}", other),
    }
}

fn no_upstream() -> Upstream {
    Upstream { token: Some(plain_token()), gas_price_wei: None, native_quote: None, token_quote: None }
}

#[test]
fn serve_eligibility_request_reads_the_cache() {
    let t = ticker(false);
    let mut v = validator();
    let request = TickerRequest::IsTokenAllowed { token: TokenLike::Id(7) };
    match t.serve(&v, &request, no_upstream(), 50) {
        TickerResponse::TokenAllowed(r) => assert_eq!(r, Ok(false)),
        other => panic!("unexpected reply: {:?}", other),
    }
    v.update_token(plain_token(), ratio(500, 1), 40);
    match t.serve(&v, &request, no_upstream(), 50) {
        TickerResponse::TokenAllowed(r) => assert_eq!(r, Ok(true)),
        other => panic!("unexpected reply: {:?}", other),
    }
}

#[test]
fn needs_follow_the_request_kind() {
    let fee = TickerRequest::GetTxFee { tx_type: TxFeeTypes::Transfer, token: TokenLike::Id(0) };
    let n = upstream_needs(&fee);
    assert!(n.token && n.gas_price && n.native_quote && n.token_quote);
    let per_token = TickerRequest::GetTokenPrice {
        token: TokenLike::Id(0),
        req_type: TokenPriceRequestType::USDForOneToken,
    };
    let n = upstream_needs(&per_token);
    assert!(!n.token && !n.gas_price && !n.native_quote && n.token_quote);
    let per_unit = TickerRequest::GetTokenPrice {
        token: TokenLike::Id(0),
        req_type: TokenPriceRequestType::USDForOneWei,
    };
    let n = upstream_needs(&per_unit);
    assert!(n.token && !n.gas_price && !n.native_quote && n.token_quote);
    let allowed = TickerRequest::IsTokenAllowed { token: TokenLike::Id(0) };
    let n = upstream_needs(&allowed);
    assert!(n.token && !n.gas_price && !n.native_quote && !n.token_quote);
}
