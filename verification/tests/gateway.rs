use donation_ledger::errors::LedgerError;
use donation_ledger::fungibletoken::{parse_memo, TransferOutcome};
use donation_ledger::Contract;

fn contract_with_campaign() -> Contract {
    let mut c = Contract::new();
    c.create_campaign(
        "water-2024".to_string(),
        "Clean water".to_string(),
        "water".to_string(),
        "Wells".to_string(),
        1_000_000,
        "usdc.token".to_string(),
        "a".to_string(),
        "2024,5,1".to_string(),
        "b".to_string(),
        "2024,6,1".to_string(),
        "img.png".to_string(),
        "founder".to_string(),
        7,
    )
    .unwrap();
    c
}

#[test]
fn memo_missing_field_rejected_before_any_mutation() {
    let mut c = contract_with_campaign();
    let r = c.deposit_tokens(
        "ledger.app".to_string(),
        "ledger.app".to_string(),
        "alice".to_string(),
        "usdc.token".to_string(),
        500,
        "don1:campaign:water-2024:9.98".to_string(),
        99,
    );
    assert_eq!(r, Err(LedgerError::InvalidInput));
    assert_eq!(c.get_donations_stats().donations, 0);
    let page = c
        .get_campaign_donations("water-2024".to_string(), 1, 100)
        .unwrap();
    assert_eq!(page.count, 0);
    assert!(page.results.is_empty());
}

#[test]
fn memo_grammar_variants() {
    assert!(parse_memo("don1:campaign:water-2024:null:9.98").is_ok());
    assert!(parse_memo("don1:general:null:null:0").is_ok());
    // wrong field count
    assert!(parse_memo("don1:campaign:water-2024:null").is_err());
    assert!(parse_memo("don1:campaign:water-2024:null:9.98:extra").is_err());
    assert!(parse_memo("").is_err());
    // unknown target kind word
    assert!(parse_memo("don1:charity:water-2024:null:9.98").is_err());
    // non-numeric reference amount
    assert!(parse_memo("don1:campaign:water-2024:null:9.9.8").is_err());
    assert!(parse_memo("don1:campaign:water-2024:null:abc").is_err());
    assert!(parse_memo("don1:campaign:water-2024:null:9.").is_err());
    assert!(parse_memo("don1:campaign:water-2024:null:.5").is_err());
    assert!(parse_memo("don1:campaign:water-2024:null:").is_err());
}

#[test]
fn memo_decodes_exactly() {
    let intent = parse_memo("don1:campaign:water-2024:null:9.98").unwrap();
    assert_eq!(intent.donation_id, "don1");
    assert_eq!(intent.campaign.as_deref(), Some("water-2024"));
    assert!(intent.event.is_none());
    assert_eq!(intent.amount_usd.mantissa, 998);
    assert_eq!(intent.amount_usd.scale, 2);
    let intent = parse_memo("d:event:null:gala-1:120").unwrap();
    assert_eq!(intent.event.as_deref(), Some("gala-1"));
    assert!(intent.campaign.is_none());
    assert_eq!(intent.amount_usd.mantissa, 120);
    assert_eq!(intent.amount_usd.scale, 0);
}

#[test]
fn memo_with_inconsistent_ids_rejected_by_recorder() {
    let mut c = contract_with_campaign();
    // target says campaign, but the campaign field holds the null sentinel
    let r = c.deposit_tokens(
        "ledger.app".to_string(),
        "ledger.app".to_string(),
        "alice".to_string(),
        "usdc.token".to_string(),
        500,
        "don1:campaign:null:null:9.98".to_string(),
        99,
    );
    assert_eq!(r, Err(LedgerError::InvalidInput));
    assert_eq!(c.get_donations_stats().donations, 0);
}

#[test]
fn deposit_requires_system_caller() {
    let mut c = contract_with_campaign();
    let r = c.deposit_tokens(
        "mallory".to_string(),
        "ledger.app".to_string(),
        "alice".to_string(),
        "usdc.token".to_string(),
        500,
        "don1:campaign:water-2024:null:9.98".to_string(),
        99,
    );
    assert_eq!(r, Err(LedgerError::Unauthorized));
    assert_eq!(c.get_donations_stats().donations, 0);
}

#[test]
fn outbound_transfer_confirmation_cycle() {
    let mut c = Contract::new();
    let out = c
        .send_tokens(
            "ledger.app".to_string(),
            "ledger.app".to_string(),
            "alice".to_string(),
            "bob".to_string(),
            "usdc.token".to_string(),
            400,
            "op-1".to_string(),
        )
        .unwrap();
    assert_eq!(out.receiver, "bob");
    assert_eq!(out.token, "usdc.token");
    assert_eq!(out.amount, 400);
    assert_eq!(out.correlation_id, "op-1");

    // a second issue under the same correlation id is refused
    let dup = c.send_tokens(
        "ledger.app".to_string(),
        "ledger.app".to_string(),
        "alice".to_string(),
        "bob".to_string(),
        "usdc.token".to_string(),
        400,
        "op-1".to_string(),
    );
    assert!(dup.is_err());

    // only the system itself may confirm
    let r = c.withdraw_tokens(
        "mallory".to_string(),
        "ledger.app".to_string(),
        "op-1".to_string(),
        TransferOutcome::Successful,
    );
    assert_eq!(r, Err(LedgerError::Unauthorized));

    // confirmation resolves the pending operation...
    let r = c.withdraw_tokens(
        "ledger.app".to_string(),
        "ledger.app".to_string(),
        "op-1".to_string(),
        TransferOutcome::Successful,
    );
    assert_eq!(r, Ok(()));

    // ...and is delivered at most once
    let again = c.withdraw_tokens(
        "ledger.app".to_string(),
        "ledger.app".to_string(),
        "op-1".to_string(),
        TransferOutcome::Successful,
    );
    assert_eq!(again, Err(LedgerError::NotFound));
}

#[test]
fn failed_transfer_leaves_state_as_if_never_started() {
    let mut c = Contract::new();
    let before = c.get_donations_stats();
    c.withdraw_named_asset(
        "ledger.app".to_string(),
        "ledger.app".to_string(),
        "usdc.token".to_string(),
        123,
        "wd-1".to_string(),
    )
    .unwrap();
    let r = c.withdraw_tokens(
        "ledger.app".to_string(),
        "ledger.app".to_string(),
        "wd-1".to_string(),
        TransferOutcome::Failed,
    );
    assert_eq!(r, Ok(()));
    let after = c.get_donations_stats();
    assert_eq!(before, after);
    // failure is terminal for that correlation id
    let again = c.withdraw_tokens(
        "ledger.app".to_string(),
        "ledger.app".to_string(),
        "wd-1".to_string(),
        TransferOutcome::Failed,
    );
    assert_eq!(again, Err(LedgerError::NotFound));
}

#[test]
fn send_tokens_requires_system_caller() {
    let mut c = Contract::new();
    let r = c.send_tokens(
        "mallory".to_string(),
        "ledger.app".to_string(),
        "alice".to_string(),
        "bob".to_string(),
        "usdc.token".to_string(),
        400,
        "op-1".to_string(),
    );
    assert!(r.is_err());
}

#[test]
fn token_registry_round_trip() {
    let mut c = Contract::new();
    let meta = donation_ledger::TokenMetadata {
        address: "usdc.token".to_string(),
        name: "USD Coin".to_string(),
        symbol: "USDC".to_string(),
        icon: "usdc.svg".to_string(),
        decimals: 6,
    };
    c.add_token("usdc.token".to_string(), meta);
    assert_eq!(c.get_tokens().len(), 1);
    let m = c.get_token("usdc.token".to_string()).unwrap();
    assert_eq!(m.symbol, "USDC");
    assert_eq!(m.decimals, 6);
    assert!(c.get_token("other.token".to_string()).is_none());
    // re-registration replaces the metadata, not the count
    let meta2 = donation_ledger::TokenMetadata {
        address: "usdc.token".to_string(),
        name: "USD Coin v2".to_string(),
        symbol: "USDC2".to_string(),
        icon: "usdc2.svg".to_string(),
        decimals: 6,
    };
    c.add_token("usdc.token".to_string(), meta2);
    assert_eq!(c.get_tokens().len(), 1);
    assert_eq!(c.get_token("usdc.token".to_string()).unwrap().symbol, "USDC2");
}

#[test]
fn donation_details_carry_token_metadata() {
    let mut c = contract_with_campaign();
    let meta = donation_ledger::TokenMetadata {
        address: "usdc.token".to_string(),
        name: "USD Coin".to_string(),
        symbol: "USDC".to_string(),
        icon: "usdc.svg".to_string(),
        decimals: 6,
    };
    c.add_token("usdc.token".to_string(), meta);
    c.deposit_tokens(
        "ledger.app".to_string(),
        "ledger.app".to_string(),
        "alice".to_string(),
        "usdc.token".to_string(),
        500,
        "don1:campaign:water-2024:null:9.98".to_string(),
        99,
    )
    .unwrap();
    let page = c
        .get_campaign_donations("water-2024".to_string(), 1, 10)
        .unwrap();
    let details = &page.results[0];
    assert_eq!(details.tokenmetadata.as_ref().unwrap().symbol, "USDC");
}
