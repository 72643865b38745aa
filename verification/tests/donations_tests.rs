use kermesse_ledger::amount::Amount;
use kermesse_ledger::ledger::Ledger;
use kermesse_ledger::model::{CreateKermesseRequest, EventDate, LedgerError};

fn kermesse_request(name: &str) -> CreateKermesseRequest {
    CreateKermesseRequest {
        name: name.to_string(),
        description: "a fundraiser".to_string(),
        event_date: EventDate { year: 2026, month: 9, day: 20 },
        beneficiary_name: "The Kitchen".to_string(),
        beneficiary_reason: "meals".to_string(),
        beneficiary_image_url: None,
        start_time: None,
        end_time: None,
    }
}

/// A ledger with one organizer (user 1), one donor (user 2), one kermesse
/// (id 1), and one ingredient (id 1) needing 10.00 kg.
fn setup() -> Ledger {
    let mut l = Ledger::new();
    l.register_user(
        "orga".to_string(),
        "orga@example.com".to_string(),
        "Olga Organizer".to_string(),
        "555-0001".to_string(),
    )
    .unwrap();
    l.register_user(
        "donor".to_string(),
        "donor@example.com".to_string(),
        "Dana Donor".to_string(),
        "555-0002".to_string(),
    )
    .unwrap();
    l.create_kermesse(&kermesse_request("Harvest Fair"), 1);
    l.add_ingredient(1, "flour".to_string(), Amount::new(1000).unwrap(), "kg".to_string())
        .unwrap();
    l
}

#[test]
fn scenario_two_donations_fold_to_eighty_percent() {
    let mut l = setup();
    l.record_donation(1, 2, Amount::new(400).unwrap()).unwrap();
    l.record_donation(1, 2, Amount::new(400).unwrap()).unwrap();

    let rows = l.ingredient_progress(1);
    assert_eq!(rows.len(), 1);
    assert_eq!(rows[0].quantity_needed.hundredths, 1000);
    assert_eq!(rows[0].quantity_donated, 800);
    assert_eq!(rows[0].unit, "kg");

    let stats = l.dashboard_stats(1, 1).unwrap();
    assert_eq!(stats.ingredient_coverage_percentage, 8000);
}

#[test]
fn donations_from_one_user_are_never_merged() {
    let mut l = setup();
    let first = l.record_donation(1, 2, Amount::new(250).unwrap()).unwrap();
    let second = l.record_donation(1, 2, Amount::new(250).unwrap()).unwrap();
    assert_eq!(first, 1);
    assert_eq!(second, 2);
    assert_eq!(l.donations.len(), 2);
    assert_eq!(l.donated_for(1), 500);
}

#[test]
fn zero_donation_rejected() {
    let mut l = setup();
    let r = l.record_donation(1, 2, Amount::new(0).unwrap());
    assert_eq!(r, Err(LedgerError::NonPositiveDonation));
    assert_eq!(l.donations.len(), 0);
}

#[test]
fn donation_to_missing_ingredient_rejected() {
    let mut l = setup();
    let r = l.record_donation(7, 2, Amount::new(100).unwrap());
    assert_eq!(r, Err(LedgerError::IngredientNotFound));
}

#[test]
fn progress_is_zero_before_any_donation() {
    let l = setup();
    let rows = l.ingredient_progress(1);
    assert_eq!(rows.len(), 1);
    assert_eq!(rows[0].quantity_donated, 0);
}

#[test]
fn progress_lists_only_the_event_ingredients() {
    let mut l = setup();
    let k2 = l.create_kermesse(&kermesse_request("Winter Fair"), 1);
    let other = l
        .add_ingredient(k2, "sugar".to_string(), Amount::new(500).unwrap(), "kg".to_string())
        .unwrap();
    l.record_donation(other, 2, Amount::new(100).unwrap()).unwrap();
    l.record_donation(1, 2, Amount::new(300).unwrap()).unwrap();

    let rows = l.ingredient_progress(1);
    assert_eq!(rows.len(), 1);
    assert_eq!(rows[0].id, 1);
    assert_eq!(rows[0].quantity_donated, 300);

    let other_rows = l.ingredient_progress(k2);
    assert_eq!(other_rows.len(), 1);
    assert_eq!(other_rows[0].id, other);
    assert_eq!(other_rows[0].quantity_donated, 100);
}
