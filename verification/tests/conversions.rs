use std::collections::HashMap;

use cdk_ffi::amount::{total_amount, FFIAmount};
use cdk_ffi::currency::{unit_text, FFICurrencyUnit};
use cdk_ffi::engine;
use cdk_ffi::error::FFIError;
use cdk_ffi::quotes::{FFIMeltQuote, FFIMelted, FFIMintQuote, FFIMintQuoteBolt11Response};
use cdk_ffi::send::{FFIPreparedSend, FFISendKind, FFISendMemo, FFISendOptions, FFISplitTarget};
use cdk_ffi::state::FFIMintQuoteState;
use cdk_ffi::store::resolve_db_path;
use cdk_ffi::token::FFIToken;

#[test]
fn amount_round_trips_exactly() {
    for v in [0u64, 1, 1000, u64::MAX - 1, u64::MAX] {
        let record = FFIAmount::from_engine(v);
        assert_eq!(record.value, v);
        assert_eq!(record.to_engine(), v);
    }
}

#[test]
fn currency_unit_parses_case_insensitively() {
    assert_eq!(FFICurrencyUnit::parse("SAT").unwrap(), FFICurrencyUnit::Sat);
    assert_eq!(FFICurrencyUnit::parse("sat").unwrap(), FFICurrencyUnit::Sat);
    assert_eq!(FFICurrencyUnit::parse("Sat").unwrap(), FFICurrencyUnit::Sat);
    assert_eq!(FFICurrencyUnit::parse("msat").unwrap(), FFICurrencyUnit::Msat);
    assert_eq!(FFICurrencyUnit::parse("MsAt").unwrap(), FFICurrencyUnit::Msat);
    assert_eq!(FFICurrencyUnit::parse("usd").unwrap(), FFICurrencyUnit::Usd);
    assert_eq!(FFICurrencyUnit::parse("USD").unwrap(), FFICurrencyUnit::Usd);
    assert_eq!(FFICurrencyUnit::parse("eur").unwrap(), FFICurrencyUnit::Eur);
    assert_eq!(FFICurrencyUnit::parse("EuR").unwrap(), FFICurrencyUnit::Eur);
}

#[test]
fn currency_unit_rejects_unknown_text() {
    for bad in ["", "satoshi", "btc", "sats", "msats", "eur ", " eur", "s a t", "usd1"] {
        let err = FFICurrencyUnit::parse(bad).unwrap_err();
        assert!(err.is_invalid_input());
        assert_eq!(err.message(), format!("Unknown currency unit: {}", bad));
    }
}

#[test]
fn currency_unit_survives_canonical_text_round_trip() {
    for unit in [
        FFICurrencyUnit::Sat,
        FFICurrencyUnit::Msat,
        FFICurrencyUnit::Usd,
        FFICurrencyUnit::Eur,
    ] {
        let engine_unit = unit.to_engine();
        let text = unit_text(engine_unit);
        assert_eq!(FFICurrencyUnit::parse(&text).unwrap(), unit);
    }
}

#[test]
fn state_mapping_is_total_and_defaults_to_unpaid() {
    assert_eq!(
        FFIMintQuoteState::from_engine(engine::MintQuoteState::Unpaid),
        FFIMintQuoteState::Unpaid
    );
    assert_eq!(
        FFIMintQuoteState::from_engine(engine::MintQuoteState::Paid),
        FFIMintQuoteState::Paid
    );
    assert_eq!(
        FFIMintQuoteState::from_engine(engine::MintQuoteState::Issued),
        FFIMintQuoteState::Issued
    );
    // A state outside the recognized enumeration resolves to Unpaid
    // instead of panicking: the documented lossy default.
    assert_eq!(
        FFIMintQuoteState::from_engine(engine::MintQuoteState::Unrecognized),
        FFIMintQuoteState::Unpaid
    );
}

#[test]
fn mint_quote_converts_field_for_field() {
    let quote = engine::MintQuote {
        id: "q-1".to_string(),
        mint_url: "https://mint.example.com".to_string(),
        amount: 1000,
        unit: "sat".to_string(),
        request: "lnbc1000n1...".to_string(),
        state: engine::MintQuoteState::Unpaid,
        expiry: 1_700_000_000,
    };
    let record = FFIMintQuote::from_engine(quote);
    assert_eq!(record.id, "q-1");
    assert_eq!(record.mint_url, "https://mint.example.com");
    assert_eq!(record.amount.value, 1000);
    assert_eq!(record.unit, "sat");
    assert_eq!(record.request, "lnbc1000n1...");
    assert_eq!(record.state, FFIMintQuoteState::Unpaid);
    assert_eq!(record.expiry, 1_700_000_000);
}

#[test]
fn mint_quote_status_keeps_optional_expiry_absent() {
    let with = engine::MintQuoteStatus {
        quote: "q-2".to_string(),
        request: "lnbc...".to_string(),
        state: engine::MintQuoteState::Paid,
        expiry: Some(42),
    };
    let r = FFIMintQuoteBolt11Response::from_engine(with);
    assert_eq!(r.quote, "q-2");
    assert_eq!(r.state, FFIMintQuoteState::Paid);
    assert_eq!(r.expiry, Some(42));

    let without = engine::MintQuoteStatus {
        quote: "q-3".to_string(),
        request: "lnbc...".to_string(),
        state: engine::MintQuoteState::Issued,
        expiry: None,
    };
    let r = FFIMintQuoteBolt11Response::from_engine(without);
    assert_eq!(r.expiry, None);
}

#[test]
fn melt_quote_converts_field_for_field() {
    let quote = engine::MeltQuote {
        id: "m-1".to_string(),
        unit: "sat".to_string(),
        amount: 2500,
        request: "lnbc2500n1...".to_string(),
        fee_reserve: 25,
        expiry: 123_456,
        payment_preimage: Some("deadbeef".to_string()),
    };
    let record = FFIMeltQuote::from_engine(quote);
    assert_eq!(record.id, "m-1");
    assert_eq!(record.unit, "sat");
    assert_eq!(record.amount.value, 2500);
    assert_eq!(record.fee_reserve.value, 25);
    assert_eq!(record.expiry, 123_456);
    assert_eq!(record.payment_preimage.as_deref(), Some("deadbeef"));

    let none = engine::MeltQuote {
        id: "m-2".to_string(),
        unit: "sat".to_string(),
        amount: 1,
        request: "lnbc...".to_string(),
        fee_reserve: 0,
        expiry: 0,
        payment_preimage: None,
    };
    assert_eq!(FFIMeltQuote::from_engine(none).payment_preimage, None);
}

#[test]
fn melted_converts_field_for_field() {
    let melted = engine::Melted {
        state: "PAID".to_string(),
        preimage: None,
        amount: 2500,
        fee_paid: 12,
    };
    let record = FFIMelted::from_engine(melted);
    assert_eq!(record.state, "PAID");
    assert_eq!(record.preimage, None);
    assert_eq!(record.amount.value, 2500);
    assert_eq!(record.fee_paid.value, 12);
}

#[test]
fn token_conversion_reports_resolution_failure_as_wallet_error() {
    let good = engine::Token {
        encoded: "cashuAeyJ0b2tlbiI6...".to_string(),
        mint_url: Ok("https://mint.example.com".to_string()),
        memo: Some("thanks".to_string()),
        unit: Some("sat".to_string()),
    };
    let record = FFIToken::from_engine(good).unwrap();
    assert_eq!(record.token_string, "cashuAeyJ0b2tlbiI6...");
    assert_eq!(record.mint, "https://mint.example.com");
    assert_eq!(record.memo.as_deref(), Some("thanks"));
    assert_eq!(record.unit, "sat");

    let bad = engine::Token {
        encoded: "cashuA...".to_string(),
        mint_url: Err("no mint url in token".to_string()),
        memo: None,
        unit: None,
    };
    let err = FFIToken::from_engine(bad).unwrap_err();
    assert!(matches!(err, FFIError::WalletError { .. }));
    assert_eq!(err.message(), "no mint url in token");
}

#[test]
fn token_without_unit_gets_empty_unit_text() {
    let token = engine::Token {
        encoded: "cashuA...".to_string(),
        mint_url: Ok("https://mint.example.com".to_string()),
        memo: None,
        unit: None,
    };
    let record = FFIToken::from_engine(token).unwrap();
    assert_eq!(record.unit, "");
    assert_eq!(record.memo, None);
}

#[test]
fn send_kind_round_trips_through_engine() {
    let kinds = [
        FFISendKind::OnlineExact,
        FFISendKind::OnlineTolerance { tolerance: FFIAmount { value: 7 } },
        FFISendKind::OfflineExact,
        FFISendKind::OfflineTolerance { tolerance: FFIAmount { value: u64::MAX } },
    ];
    let expected = [
        engine::SendKind::OnlineExact,
        engine::SendKind::OnlineTolerance(7),
        engine::SendKind::OfflineExact,
        engine::SendKind::OfflineTolerance(u64::MAX),
    ];
    for (kind, want) in kinds.iter().zip(expected.iter()) {
        assert_eq!(kind.to_engine(), *want);
    }
}

#[test]
fn split_target_both_policies_land_on_no_split() {
    assert!(matches!(
        FFISplitTarget::NoSplit.to_engine(),
        engine::SplitTarget::NoSplit
    ));
    assert!(matches!(
        FFISplitTarget::DefaultPolicy.to_engine(),
        engine::SplitTarget::NoSplit
    ));
}

#[test]
fn send_options_carry_over_exactly() {
    let mut metadata = HashMap::new();
    metadata.insert("origin".to_string(), "test".to_string());
    metadata.insert("note".to_string(), "n-1".to_string());
    let options = FFISendOptions {
        memo: Some(FFISendMemo { memo: "hi".to_string(), include_memo: true }),
        amount_split_target: FFISplitTarget::NoSplit,
        send_kind: FFISendKind::OnlineTolerance { tolerance: FFIAmount { value: 3 } },
        include_fee: true,
        metadata: metadata.clone(),
        max_proofs: Some(11),
    };
    let engine_options = options.to_engine();
    let memo = engine_options.memo.expect("memo kept");
    assert_eq!(memo.memo, "hi");
    assert!(memo.include_memo);
    assert!(matches!(engine_options.amount_split_target, engine::SplitTarget::NoSplit));
    assert_eq!(engine_options.send_kind, engine::SendKind::OnlineTolerance(3));
    assert!(engine_options.include_fee);
    assert_eq!(engine_options.metadata, metadata);
    assert_eq!(engine_options.max_proofs, Some(11usize));
}

#[test]
fn send_options_propagate_absence() {
    let options = FFISendOptions {
        memo: None,
        amount_split_target: FFISplitTarget::DefaultPolicy,
        send_kind: FFISendKind::OfflineExact,
        include_fee: false,
        metadata: HashMap::new(),
        max_proofs: None,
    };
    let engine_options = options.to_engine();
    assert!(engine_options.memo.is_none());
    assert!(engine_options.max_proofs.is_none());
    assert!(engine_options.metadata.is_empty());
    assert!(!engine_options.include_fee);
}

#[test]
fn prepared_send_converts_every_fee_field() {
    let prepared = engine::PreparedSend { amount: 90, swap_fee: 4, send_fee: 6, total_fee: 10 };
    let record = FFIPreparedSend::from_engine(prepared);
    assert_eq!(record.amount.value, 90);
    assert_eq!(record.swap_fee.value, 4);
    assert_eq!(record.send_fee.value, 6);
    assert_eq!(record.total_fee.value, 10);
}

#[test]
fn prepare_twice_converts_to_the_same_breakdown() {
    // Preparation does not commit anything: converting the same
    // engine breakdown twice yields two equal, independent records.
    let prepared = engine::PreparedSend { amount: 90, swap_fee: 4, send_fee: 6, total_fee: 10 };
    let first = FFIPreparedSend::from_engine(prepared);
    let second = FFIPreparedSend::from_engine(prepared);
    assert_eq!(first, second);
}

#[test]
fn total_amount_sums_exactly() {
    assert_eq!(total_amount(&vec![]).unwrap(), 0);
    assert_eq!(total_amount(&vec![1000]).unwrap(), 1000);
    assert_eq!(total_amount(&vec![1, 2, 4, 8, 16]).unwrap(), 31);
    assert_eq!(total_amount(&vec![u64::MAX, 0]).unwrap(), u64::MAX);
}

#[test]
fn total_amount_reports_overflow_as_wallet_error() {
    let err = total_amount(&vec![u64::MAX, 1]).unwrap_err();
    assert!(matches!(err, FFIError::WalletError { .. }));
    assert_eq!(err.message(), "Amount Overflow");
}

#[test]
fn resolve_db_path_prefers_the_explicit_path() {
    assert_eq!(
        resolve_db_path(Some("/data/wallet.db".to_string()), "/tmp/fallback.db".to_string()),
        "/data/wallet.db"
    );
    assert_eq!(
        resolve_db_path(None, "/tmp/fallback.db".to_string()),
        "/tmp/fallback.db"
    );
}

#[test]
fn error_kinds_keep_their_message() {
    let w = FFIError::wallet_error("engine said no".to_string());
    assert!(matches!(w, FFIError::WalletError { .. }));
    assert_eq!(w.message(), "engine said no");
    assert!(!w.is_invalid_input());

    let i = FFIError::invalid_input("bad text".to_string());
    assert!(i.is_invalid_input());
    assert_eq!(i.message(), "bad text");

    let n = FFIError::internal_error("entropy failed".to_string());
    assert!(matches!(n, FFIError::InternalError { .. }));
    assert_eq!(n.message(), "entropy failed");
}
