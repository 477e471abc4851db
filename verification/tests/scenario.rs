//! A wallet constructed against a real store at an explicit path,
//! keyed from a generated mnemonic, holds nothing before any
//! activity. The mint-facing half of the flow (quote creation,
//! minting) needs a live mint and is exercised by the shell, not
//! here.

use std::sync::Arc;

use cdk_common::database::WalletDatabase;

use cdk_ffi::currency::{unit_text, FFICurrencyUnit};
use cdk_ffi::mnemonic::{generate_mnemonic, mnemonic_to_seed};
use cdk_ffi::store::resolve_db_path;

#[test]
fn fresh_wallet_at_explicit_path_has_zero_balance() {
    let rt = tokio::runtime::Runtime::new().unwrap();
    let db_path = resolve_db_path(
        Some(format!("/tmp/wallet_scenario_{}.db", uuid::Uuid::new_v4())),
        "/tmp/unused_fallback.db".to_string(),
    );
    let store = rt
        .block_on(cdk_sqlite::WalletSqliteDatabase::new(db_path.as_str()))
        .expect("store opens at the explicit path");
    let localstore: Arc<dyn WalletDatabase<cdk_common::database::Error> + Send + Sync> =
        Arc::new(store);

    let phrase = generate_mnemonic().expect("generation succeeds");
    let seed_vec = mnemonic_to_seed(&phrase).expect("a generated phrase is valid");
    let mut seed = [0u8; 64];
    seed.copy_from_slice(&seed_vec);

    let wallet = cdk::wallet::Wallet::new(
        "https://mint.example.com",
        cdk::nuts::CurrencyUnit::Sat,
        localstore,
        seed,
        None,
    )
    .expect("wallet construction needs no network");

    let balance = rt.block_on(wallet.total_balance()).expect("empty store reads fine");
    assert_eq!(u64::from(balance), 0);
}

#[test]
fn engine_unit_rendering_matches_the_canonical_text() {
    // The engine renders its units to the same canonical lowercase
    // text the library's contracts speak of, and that text parses
    // back to the unit it came from.
    let pairs = [
        (cdk::nuts::CurrencyUnit::Sat, FFICurrencyUnit::Sat),
        (cdk::nuts::CurrencyUnit::Msat, FFICurrencyUnit::Msat),
        (cdk::nuts::CurrencyUnit::Usd, FFICurrencyUnit::Usd),
        (cdk::nuts::CurrencyUnit::Eur, FFICurrencyUnit::Eur),
    ];
    for (engine_unit, unit) in pairs {
        let rendered = engine_unit.to_string();
        assert_eq!(rendered, unit_text(unit.to_engine()));
        assert_eq!(FFICurrencyUnit::parse(&rendered).unwrap(), unit);
    }
}

#[test]
fn concurrent_operations_on_one_wallet_all_complete() {
    // Several operations issued concurrently against one wallet's
    // store serialize without corrupting it: every call completes,
    // and each sees a state consistent with no activity having
    // happened.
    let rt = tokio::runtime::Runtime::new().unwrap();
    let db_path = format!("/tmp/wallet_concurrent_{}.db", uuid::Uuid::new_v4());
    let store = rt
        .block_on(cdk_sqlite::WalletSqliteDatabase::new(db_path.as_str()))
        .expect("store opens");
    let localstore: Arc<dyn WalletDatabase<cdk_common::database::Error> + Send + Sync> =
        Arc::new(store);

    let phrase = generate_mnemonic().unwrap();
    let seed_vec = mnemonic_to_seed(&phrase).unwrap();
    let mut seed = [0u8; 64];
    seed.copy_from_slice(&seed_vec);

    let wallet = Arc::new(
        cdk::wallet::Wallet::new(
            "https://mint.example.com",
            cdk::nuts::CurrencyUnit::Sat,
            localstore,
            seed,
            None,
        )
        .unwrap(),
    );

    let mut handles = Vec::new();
    for _ in 0..8 {
        let w = wallet.clone();
        handles.push(rt.spawn(async move { w.total_balance().await }));
    }
    for handle in handles {
        let balance = rt.block_on(handle).unwrap().expect("every call completes");
        assert_eq!(u64::from(balance), 0);
    }
}
