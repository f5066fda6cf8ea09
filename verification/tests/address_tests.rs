use ledger_race::address::{derive_address, validate_private_seed_format, validate_seed_phrase};
use ledger_race::claiming_engine::ClaimingEngine;
use ledger_race::errors::BotError;
use ledger_race::race::ActionKind;
use ledger_race::transfer_engine::TransferEngine;
use ledger_race::types::TransferRequest;

const VALID_PHRASE: &str =
    "abandon abandon abandon abandon abandon abandon abandon abandon abandon abandon abandon about";

#[test]
fn valid_phrase_derives_address() {
    assert!(validate_seed_phrase(VALID_PHRASE));
    let address = derive_address(VALID_PHRASE).unwrap();
    assert_eq!(address, "G2ePX4qRmwNcESbPg56YQpcBDaWSqJgiSzvV");
}

#[test]
fn derivation_is_deterministic() {
    let first = derive_address(VALID_PHRASE).unwrap();
    let second = derive_address(VALID_PHRASE).unwrap();
    assert_eq!(first, second);
}

#[test]
fn malformed_phrase_is_rejected() {
    assert!(!validate_seed_phrase("not a mnemonic"));
    assert_eq!(derive_address("not a mnemonic"), Err(BotError::ValidationFailure));
    // Right words, wrong checksum.
    let bad_checksum =
        "abandon abandon abandon abandon abandon abandon abandon abandon abandon abandon abandon abandon";
    assert_eq!(derive_address(bad_checksum), Err(BotError::ValidationFailure));
    assert_eq!(derive_address(""), Err(BotError::ValidationFailure));
}

#[test]
fn claim_race_validates_both_seeds() {
    let engine = ClaimingEngine::new();
    let race = engine
        .start_claiming_with_sponsor(VALID_PHRASE, VALID_PHRASE, 1_000_000, 0)
        .unwrap();
    assert_eq!(race.kind, ActionKind::Claim);
    assert_eq!(race.workers.len(), 50);
    assert_eq!(race.fee, 1_000_000);
    assert!(race.active);
    assert!(matches!(
        engine.start_claiming_with_sponsor(VALID_PHRASE, "bad", 1_000_000, 0),
        Err(BotError::ValidationFailure)
    ));
    assert!(matches!(
        engine.start_claiming_with_sponsor("bad", VALID_PHRASE, 1_000_000, 0),
        Err(BotError::ValidationFailure)
    ));
}

#[test]
fn transfer_race_prices_the_request() {
    let engine = TransferEngine::new();
    let request = TransferRequest {
        to_address: "GDESTINATION".to_string(),
        amount: 42,
        fee: 1,
        memo: Some("memo".to_string()),
    };
    let Ok((race, priced)) = engine.start_instant_transfer(VALID_PHRASE, &request, 3) else {
        panic!("expected a race");
    };
    assert_eq!(race.kind, ActionKind::Transfer);
    assert_eq!(race.workers.len(), 25);
    // 3,200,000 * 1.5 + 1,000,000.
    assert_eq!(race.fee, 5_800_000);
    assert_eq!(priced.fee, 5_800_000);
    assert_eq!(priced.to_address, "GDESTINATION");
    assert_eq!(priced.amount, 42);
    assert_eq!(priced.memo.as_deref(), Some("memo"));
    assert_eq!(engine.calculate_optimal_fee(&request), 5_800_000);
}

#[test]
fn transfer_race_rejects_bad_seed() {
    let engine = TransferEngine::new();
    let request = TransferRequest {
        to_address: "GDESTINATION".to_string(),
        amount: 42,
        fee: 1,
        memo: None,
    };
    assert!(matches!(
        engine.start_instant_transfer("bad seed", &request, 0),
        Err(BotError::ValidationFailure)
    ));
}

#[test]
fn errors_describe_themselves() {
    assert_eq!(BotError::NetworkFailure.describe(), "network failure");
    assert_eq!(BotError::ApiFailure.describe(), "api failure");
    assert_eq!(BotError::RateLimited.describe(), "rate limited");
    assert_eq!(BotError::InsufficientBalance.describe(), "insufficient balance");
    assert_eq!(BotError::ValidationFailure.describe(), "validation failure");
    assert_eq!(BotError::ResourceExhausted.describe(), "resource exhausted");
}

#[test]
fn private_seed_format_checked() {
    let good = "SABCDEFGHIJKLMNOPQRSTUVWXYZ0123456789ABCDEFGHIJKLMNOPQRS";
    assert_eq!(good.len(), 56);
    assert!(validate_private_seed_format(good));
    // Wrong marker, wrong length, lower case.
    assert!(!validate_private_seed_format(&good.replace('S', "T")));
    assert!(!validate_private_seed_format(&good[..55]));
    assert!(!validate_private_seed_format(&good.to_lowercase()));
    assert!(!validate_private_seed_format(""));
}
