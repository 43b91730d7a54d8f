use donation_ledger::donations::TargetKind;
use donation_ledger::errors::LedgerError;
use donation_ledger::Contract;

fn contract_with_campaign() -> Contract {
    let mut c = Contract::new();
    c.create_campaign(
        "water-2024".to_string(),
        "Clean water".to_string(),
        "water".to_string(),
        "Wells for the valley".to_string(),
        1_000_000,
        "usdc.token".to_string(),
        "May 1st".to_string(),
        "2024,5,1".to_string(),
        "June 1st".to_string(),
        "2024,6,1".to_string(),
        "img.png".to_string(),
        "founder".to_string(),
        7,
    )
    .unwrap();
    c
}

#[test]
fn test_test() {
    assert!(true);
}

#[test]
fn test_func_sample() {
    let mut contract = Contract::new();
    contract.token_donation();
}

#[test]
fn campaign_scenario_full_vote_cycle() {
    let mut c = contract_with_campaign();
    let r = c.add_campaign_partner("water-2024".to_string(), "RedCross".to_string());
    assert_eq!(r, "done");
    let stored = c.get_campaign("water-2024".to_string()).unwrap();
    assert_eq!(stored.partners.len(), 1);
    assert_eq!(stored.partners[0].name, "RedCross");
    assert_eq!(stored.partners[0].votes, 0);

    // alice's transfer lands; the system notifies itself
    let r = c.deposit_tokens(
        "ledger.app".to_string(),
        "ledger.app".to_string(),
        "alice".to_string(),
        "usdc.token".to_string(),
        500,
        "don1:campaign:water-2024:null:9.98".to_string(),
        99,
    );
    assert!(r.is_ok());
    let stats = c.get_donations_stats();
    assert_eq!(stats.donations, 1);
    let page = c
        .get_campaign_donations("water-2024".to_string(), 1, 10)
        .unwrap();
    assert_eq!(page.count, 1);
    assert_eq!(page.results.len(), 1);
    let d = &page.results[0].donation;
    assert_eq!(d.id, "don1");
    assert_eq!(d.donor, "alice");
    assert_eq!(d.campaign.as_deref(), Some("water-2024"));
    assert!(d.event.is_none());
    assert!(matches!(d.target, TargetKind::Campaign));
    assert_eq!(d.amount, 500);
    assert_eq!(d.amount_usd.mantissa, 998);
    assert_eq!(d.amount_usd.scale, 2);

    // alice now holds exactly one credit on the campaign
    let stored = c.get_campaign("water-2024".to_string()).unwrap();
    assert_eq!(stored.voters, vec!["alice".to_string()]);

    let r = c.campaign_vote(
        "water-2024".to_string(),
        "alice".to_string(),
        "RedCross".to_string(),
    );
    assert_eq!(r, "done");
    let stored = c.get_campaign("water-2024".to_string()).unwrap();
    assert_eq!(stored.partners[0].votes, 1);
    assert!(stored.voters.is_empty());
}

#[test]
fn vote_twice_consumes_single_credit() {
    let mut c = contract_with_campaign();
    c.add_campaign_partner("water-2024".to_string(), "RedCross".to_string());
    c.deposit_tokens(
        "ledger.app".to_string(),
        "ledger.app".to_string(),
        "alice".to_string(),
        "usdc.token".to_string(),
        500,
        "don1:campaign:water-2024:null:9.98".to_string(),
        99,
    )
    .unwrap();
    let first = c.campaign_vote(
        "water-2024".to_string(),
        "alice".to_string(),
        "RedCross".to_string(),
    );
    let second = c.campaign_vote(
        "water-2024".to_string(),
        "alice".to_string(),
        "RedCross".to_string(),
    );
    assert_eq!(first, "done");
    assert_eq!(second, "voter not found");
    let stored = c.get_campaign("water-2024".to_string()).unwrap();
    assert_eq!(stored.partners[0].votes, 1);
}

#[test]
fn vote_for_unregistered_partner_is_checked() {
    let mut c = contract_with_campaign();
    c.deposit_tokens(
        "ledger.app".to_string(),
        "ledger.app".to_string(),
        "alice".to_string(),
        "usdc.token".to_string(),
        500,
        "don1:campaign:water-2024:null:9.98".to_string(),
        99,
    )
    .unwrap();
    let r = c.campaign_vote(
        "water-2024".to_string(),
        "alice".to_string(),
        "NobodyKnows".to_string(),
    );
    assert_eq!(r, "unknown partner");
    // the credit is untouched
    let stored = c.get_campaign("water-2024".to_string()).unwrap();
    assert_eq!(stored.voters, vec!["alice".to_string()]);
}

#[test]
fn vote_on_missing_campaign_is_not_found() {
    let mut c = Contract::new();
    let r = c.campaign_vote(
        "nowhere".to_string(),
        "alice".to_string(),
        "RedCross".to_string(),
    );
    assert_eq!(r, "not found");
}

#[test]
fn second_donation_grants_no_second_credit() {
    let mut c = contract_with_campaign();
    for (i, memo) in [
        "don1:campaign:water-2024:null:1.5",
        "don2:campaign:water-2024:null:2.5",
    ]
    .iter()
    .enumerate()
    {
        c.deposit_tokens(
            "ledger.app".to_string(),
            "ledger.app".to_string(),
            "alice".to_string(),
            "usdc.token".to_string(),
            100 + i as u128,
            memo.to_string(),
            99,
        )
        .unwrap();
    }
    let stored = c.get_campaign("water-2024".to_string()).unwrap();
    assert_eq!(stored.voters, vec!["alice".to_string()]);
}

#[test]
fn duplicate_donation_id_is_rejected() {
    let mut c = contract_with_campaign();
    let memo = "don1:campaign:water-2024:null:1.5".to_string();
    c.deposit_tokens(
        "ledger.app".to_string(),
        "ledger.app".to_string(),
        "alice".to_string(),
        "usdc.token".to_string(),
        100,
        memo.clone(),
        99,
    )
    .unwrap();
    let replay = c.deposit_tokens(
        "ledger.app".to_string(),
        "ledger.app".to_string(),
        "alice".to_string(),
        "usdc.token".to_string(),
        100,
        memo,
        100,
    );
    assert_eq!(replay, Err(LedgerError::InvalidInput));
    assert_eq!(c.get_donations_stats().donations, 1);
}

#[test]
fn donation_to_missing_target_is_not_found() {
    let mut c = Contract::new();
    let r = c.create_donation(
        "don1".to_string(),
        "alice".to_string(),
        "usdc.token".to_string(),
        100,
        donation_ledger::amount::DecimalAmount::zero(),
        "campaign".to_string(),
        "null".to_string(),
        "missing".to_string(),
        5,
    );
    assert_eq!(r, Err(LedgerError::NotFound));
    assert_eq!(c.get_donations_stats().donations, 0);
}

#[test]
fn unknown_target_word_is_invalid() {
    let mut c = Contract::new();
    let r = c.create_donation(
        "don1".to_string(),
        "alice".to_string(),
        "usdc.token".to_string(),
        100,
        donation_ledger::amount::DecimalAmount::zero(),
        "charity".to_string(),
        "null".to_string(),
        "null".to_string(),
        5,
    );
    assert_eq!(r, Err(LedgerError::InvalidInput));
}

#[test]
fn general_donation_attributes_nowhere() {
    let mut c = contract_with_campaign();
    c.near_donation(
        "bob".to_string(),
        "don9".to_string(),
        "near".to_string(),
        77,
        donation_ledger::amount::DecimalAmount::zero(),
        "general".to_string(),
        "null".to_string(),
        "null".to_string(),
        5,
    )
    .unwrap();
    assert_eq!(c.get_donations_stats().donations, 1);
    let stored = c.get_campaign("water-2024".to_string()).unwrap();
    assert!(stored.voters.is_empty());
}

#[test]
fn event_donation_and_vote() {
    let mut c = Contract::new();
    c.create_event(
        "gala-1".to_string(),
        "Charity gala".to_string(),
        "May 5th".to_string(),
        "water".to_string(),
        "Gala night".to_string(),
        5000,
        "near".to_string(),
        "Town hall".to_string(),
        "physical".to_string(),
        "youtube".to_string(),
        "https://example.org/live".to_string(),
        "2024,5,5".to_string(),
        "gala.png".to_string(),
        "founder".to_string(),
        3,
    )
    .unwrap();
    assert_eq!(
        c.add_event_partner("gala-1".to_string(), "WaterAid".to_string()),
        "done"
    );
    c.deposit_tokens(
        "ledger.app".to_string(),
        "ledger.app".to_string(),
        "carol".to_string(),
        "usdc.token".to_string(),
        250,
        "don5:event:null:gala-1:0.25".to_string(),
        44,
    )
    .unwrap();
    let ev = c.get_event("gala-1".to_string()).unwrap();
    assert_eq!(ev.voters, vec!["carol".to_string()]);
    let page = c.get_event_donations("gala-1".to_string(), 1, 10).unwrap();
    assert_eq!(page.count, 1);
    assert_eq!(page.results[0].donation.id, "don5");
    assert_eq!(
        c.event_vote(
            "gala-1".to_string(),
            "carol".to_string(),
            "WaterAid".to_string()
        ),
        "done"
    );
    let ev = c.get_event("gala-1".to_string()).unwrap();
    assert_eq!(ev.partners[0].votes, 1);
    assert!(ev.voters.is_empty());
}

#[test]
fn duplicate_campaign_id_is_rejected() {
    let mut c = contract_with_campaign();
    let r = c.create_campaign(
        "water-2024".to_string(),
        "Another".to_string(),
        "water".to_string(),
        "Other".to_string(),
        5,
        "near".to_string(),
        "a".to_string(),
        "2025,1,1".to_string(),
        "b".to_string(),
        "2025,2,1".to_string(),
        "i.png".to_string(),
        "x".to_string(),
        1,
    );
    assert_eq!(r, Err(LedgerError::InvalidInput));
    assert_eq!(c.get_donations_stats().campaigns, 1);
}

#[test]
fn malformed_dates_reject_campaign() {
    let mut c = Contract::new();
    let r = c.create_campaign(
        "c1".to_string(),
        "T".to_string(),
        "w".to_string(),
        "D".to_string(),
        5,
        "near".to_string(),
        "a".to_string(),
        "2025-01-01".to_string(),
        "b".to_string(),
        "2025,2,1".to_string(),
        "i.png".to_string(),
        "x".to_string(),
        1,
    );
    assert_eq!(r, Err(LedgerError::InvalidInput));
    assert_eq!(c.get_donations_stats().campaigns, 0);
}

#[test]
fn campaign_dates_parse_with_blanks() {
    let mut c = Contract::new();
    c.create_campaign(
        "c1".to_string(),
        "T".to_string(),
        "w".to_string(),
        "D".to_string(),
        5,
        "near".to_string(),
        "a".to_string(),
        " 2024 , 5 , 1 ".to_string(),
        "b".to_string(),
        "2024,12,31".to_string(),
        "i.png".to_string(),
        "x".to_string(),
        1,
    )
    .unwrap();
    let stored = c.get_campaign("c1".to_string()).unwrap();
    assert_eq!(
        (stored.start_year, stored.start_month, stored.start_day),
        (2024, 5, 1)
    );
    assert_eq!(
        (stored.end_year, stored.end_month, stored.end_day),
        (2024, 12, 31)
    );
}

#[test]
fn register_partner_first_come_first_served() {
    let mut c = Contract::new();
    let first = c.register_as_partner(
        "redcross.org".to_string(),
        "redcross".to_string(),
        "Red Cross".to_string(),
        "Relief".to_string(),
        "https://redcross.example".to_string(),
        "logo.png".to_string(),
        "banner.png".to_string(),
    );
    let second = c.register_as_partner(
        "imposter.org".to_string(),
        "redcross".to_string(),
        "Fake".to_string(),
        "Fake".to_string(),
        "f".to_string(),
        "f".to_string(),
        "f".to_string(),
    );
    assert_eq!(first, "success");
    assert_eq!(second, "failed");
    let p = c.get_partner("redcross".to_string()).unwrap();
    assert_eq!(p.created_by, "redcross.org");
    assert_eq!(c.get_account_partners("redcross.org".to_string()).len(), 1);
    assert!(c.get_account_partners("imposter.org".to_string()).is_empty());
}

#[test]
fn causes_and_courses_are_sets() {
    let mut c = Contract::new();
    c.create_cause("water".to_string());
    c.create_cause("water".to_string());
    c.create_cause("food".to_string());
    let causes = c.get_causes();
    assert_eq!(causes.len(), 2);
    assert_eq!(causes[0].title, "water");
    assert_eq!(causes[1].title, "food");
    assert_eq!(c.get_donations_stats().causes, 2);
    c.create_course("irrigation".to_string());
    c.create_course("irrigation".to_string());
}

#[test]
fn filters_select_by_date() {
    let mut c = contract_with_campaign();
    c.create_campaign(
        "food-2025".to_string(),
        "Food".to_string(),
        "food".to_string(),
        "Food drive".to_string(),
        10,
        "near".to_string(),
        "a".to_string(),
        "2025,1,1".to_string(),
        "b".to_string(),
        "2025,3,1".to_string(),
        "i.png".to_string(),
        "x".to_string(),
        2,
    )
    .unwrap();
    let hits = c.filter_campaigns("start".to_string(), 2024, 5);
    assert_eq!(hits.len(), 1);
    assert_eq!(hits[0].id, "water-2024");
    let hits = c.filter_campaigns("end".to_string(), 2025, 3);
    assert_eq!(hits.len(), 1);
    assert_eq!(hits[0].id, "food-2025");
    assert!(c.filter_events(2024, 5).is_empty());
}

#[test]
fn default_state_is_empty() {
    let c: Contract = Default::default();
    let stats = c.get_donations_stats();
    assert_eq!(stats.donations, 0);
    assert_eq!(stats.campaigns, 0);
    assert_eq!(stats.partners, 0);
}

#[test]
fn signed_date_components_parse() {
    let mut c = Contract::new();
    c.create_event(
        "bc-era".to_string(),
        "T".to_string(),
        "d".to_string(),
        "w".to_string(),
        "D".to_string(),
        5,
        "near".to_string(),
        "v".to_string(),
        "physical".to_string(),
        "ch".to_string(),
        "url".to_string(),
        "-44,+3,15".to_string(),
        "i.png".to_string(),
        "x".to_string(),
        1,
    )
    .unwrap();
    let e = c.get_event("bc-era".to_string()).unwrap();
    assert_eq!((e.year, e.month, e.day), (-44, 3, 15));
}

#[test]
fn missing_credit_outranks_unknown_partner() {
    // bob never donated: whatever partner he names, the answer is about
    // his missing credit, and nothing changes
    let mut c = contract_with_campaign();
    let r = c.campaign_vote(
        "water-2024".to_string(),
        "bob".to_string(),
        "NobodyKnows".to_string(),
    );
    assert_eq!(r, "voter not found");
    let stored = c.get_campaign("water-2024".to_string()).unwrap();
    assert!(stored.voters.is_empty());
    assert!(stored.partners.is_empty());
}

#[test]
fn date_components_past_the_third_are_ignored() {
    let mut c = Contract::new();
    c.create_campaign(
        "c1".to_string(),
        "T".to_string(),
        "w".to_string(),
        "D".to_string(),
        5,
        "near".to_string(),
        "a".to_string(),
        "2024,5,1,extra,bits".to_string(),
        "b".to_string(),
        "2024,6,1".to_string(),
        "i.png".to_string(),
        "x".to_string(),
        1,
    )
    .unwrap();
    let stored = c.get_campaign("c1".to_string()).unwrap();
    assert_eq!(
        (stored.start_year, stored.start_month, stored.start_day),
        (2024, 5, 1)
    );
}
