use donation_ledger::amount::DecimalAmount;
use donation_ledger::Contract;

fn contract_with_donations(n: usize) -> Contract {
    let mut c = Contract::new();
    c.create_campaign(
        "water-2024".to_string(),
        "Clean water".to_string(),
        "water".to_string(),
        "Wells".to_string(),
        1_000_000,
        "usdc.token".to_string(),
        "a".to_string(),
        "2024,5,1".to_string(),
        "b".to_string(),
        "2024,6,1".to_string(),
        "img.png".to_string(),
        "founder".to_string(),
        7,
    )
    .unwrap();
    c.create_campaign(
        "food-2025".to_string(),
        "Food".to_string(),
        "food".to_string(),
        "Food drive".to_string(),
        10,
        "near".to_string(),
        "a".to_string(),
        "2025,1,1".to_string(),
        "b".to_string(),
        "2025,3,1".to_string(),
        "i.png".to_string(),
        "x".to_string(),
        2,
    )
    .unwrap();
    for i in 0..n {
        c.create_donation(
            format!("don{}", i),
            format!("donor{}", i),
            "usdc.token".to_string(),
            i as u128,
            DecimalAmount::zero(),
            "campaign".to_string(),
            "null".to_string(),
            "water-2024".to_string(),
            i as u64,
        )
        .unwrap();
        // interleave donations to the other campaign, to be filtered out
        c.create_donation(
            format!("other{}", i),
            format!("donor{}", i),
            "usdc.token".to_string(),
            i as u128,
            DecimalAmount::zero(),
            "campaign".to_string(),
            "null".to_string(),
            "food-2025".to_string(),
            i as u64,
        )
        .unwrap();
    }
    c
}

#[test]
fn pages_concatenate_to_the_full_filtered_ledger() {
    let total: usize = 7;
    let c = contract_with_donations(total);
    for limit in [1usize, 2, 3, 5, 7, 9] {
        let mut seen: Vec<String> = Vec::new();
        let mut page: usize = 1;
        loop {
            let resp = c
                .get_campaign_donations("water-2024".to_string(), page, limit)
                .unwrap();
            assert_eq!(resp.count as usize, total);
            if resp.results.is_empty() {
                break;
            }
            for d in &resp.results {
                seen.push(d.donation.id.clone());
            }
            page += 1;
        }
        let expected: Vec<String> = (0..total).map(|i| format!("don{}", i)).collect();
        assert_eq!(seen, expected, "limit {}", limit);
    }
}

#[test]
fn count_only_query_returns_true_total() {
    let c = contract_with_donations(5);
    let resp = c
        .get_campaign_donations("water-2024".to_string(), 1, 0)
        .unwrap();
    assert_eq!(resp.count, 5);
    assert!(resp.results.is_empty());
}

#[test]
fn page_zero_is_rejected() {
    let c = contract_with_donations(2);
    assert!(c
        .get_campaign_donations("water-2024".to_string(), 0, 10)
        .is_err());
    assert!(c.get_event_donations("x".to_string(), 0, 10).is_err());
    assert!(c.get_campaigns(0, 10).is_err());
    assert!(c.get_events(0, 10).is_err());
    assert!(c.get_partners(0, 10).is_err());
}

#[test]
fn page_past_the_end_is_empty() {
    let c = contract_with_donations(3);
    let resp = c
        .get_campaign_donations("water-2024".to_string(), 5, 2)
        .unwrap();
    assert!(resp.results.is_empty());
    assert_eq!(resp.count, 3);
}

#[test]
fn campaign_listing_pages() {
    let c = contract_with_donations(1);
    let resp = c.get_campaigns(1, 1).unwrap();
    assert_eq!(resp.count, 2);
    assert_eq!(resp.results.len(), 1);
    assert_eq!(resp.results[0].id, "water-2024");
    let resp = c.get_campaigns(2, 1).unwrap();
    assert_eq!(resp.results.len(), 1);
    assert_eq!(resp.results[0].id, "food-2025");
    let resp = c.get_campaigns(3, 1).unwrap();
    assert!(resp.results.is_empty());
}

#[test]
fn partner_listing_pages() {
    let mut c = Contract::new();
    for i in 0..4 {
        c.register_as_partner(
            format!("acct{}", i),
            format!("partner{}", i),
            format!("Partner {}", i),
            "d".to_string(),
            "w".to_string(),
            "l".to_string(),
            "b".to_string(),
        );
    }
    let resp = c.get_partners(2, 3).unwrap();
    assert_eq!(resp.count, 4);
    assert_eq!(resp.results.len(), 1);
    assert_eq!(resp.results[0].id, "partner3");
}
