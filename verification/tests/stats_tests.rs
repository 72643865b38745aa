use kermesse_ledger::amount::{percent_of_ratio, Amount};
use kermesse_ledger::ledger::Ledger;
use kermesse_ledger::model::{
    CreateDishRequest, CreateKermesseRequest, CreateSaleRequest, DeliveryMethod, EventDate,
    LedgerError, SaleItemRequest, SaleStatus,
};

fn kermesse_request(name: &str) -> CreateKermesseRequest {
    CreateKermesseRequest {
        name: name.to_string(),
        description: "a fundraiser".to_string(),
        event_date: EventDate { year: 2026, month: 4, day: 18 },
        beneficiary_name: "The Club".to_string(),
        beneficiary_reason: "equipment".to_string(),
        beneficiary_image_url: None,
        start_time: None,
        end_time: None,
    }
}

fn sell(l: &mut Ledger, kermesse_id: i32, dish_id: i32, quantity: i32) -> i32 {
    let req = CreateSaleRequest {
        kermesse_id,
        customer_name: "Ana".to_string(),
        items: vec![SaleItemRequest { dish_id, quantity }],
        delivery_method: DeliveryMethod::Pickup,
        delivery_address: None,
        contact_phone: None,
    };
    l.create_sale(&req, 1).unwrap().id
}

/// A ledger with one organizer (user 1) and one kermesse (id 1) with a
/// financial goal of 1000.00.
fn setup() -> Ledger {
    let mut l = Ledger::new();
    l.register_user(
        "orga".to_string(),
        "orga@example.com".to_string(),
        "Olga Organizer".to_string(),
        "555-0001".to_string(),
    )
    .unwrap();
    l.create_kermesse(&kermesse_request("Goal Fair"), 1);
    l.set_financial_goal(1, Some(Amount::new(100000).unwrap())).unwrap();
    l
}

#[test]
fn scenario_paid_sale_counts_and_pending_does_not() {
    let mut l = setup();
    let d300 = l
        .create_dish(
            1,
            &CreateDishRequest {
                name: "banquet".to_string(),
                description: "large".to_string(),
                price: Amount::new(30000).unwrap(),
                quantity_available: 5,
                image_url: None,
            },
            1,
        )
        .unwrap();
    let d500 = l
        .create_dish(
            1,
            &CreateDishRequest {
                name: "feast".to_string(),
                description: "larger".to_string(),
                price: Amount::new(50000).unwrap(),
                quantity_available: 5,
                image_url: None,
            },
            1,
        )
        .unwrap();
    let paid = sell(&mut l, 1, d300, 1);
    sell(&mut l, 1, d500, 1);
    l.mark_sale_status(paid, SaleStatus::Paid).unwrap();

    let stats = l.dashboard_stats(1, 1).unwrap();
    assert_eq!(stats.total_raised, 30000);
    assert_eq!(stats.progress_percentage, 3000);
    assert_eq!(stats.total_orders, 2);
    assert_eq!(stats.pending_orders, 1);
    assert_eq!(stats.paid_orders, 1);
    assert_eq!(stats.delivered_orders, 0);
    assert_eq!(stats.financial_goal, Some(Amount::new(100000).unwrap()));
}

#[test]
fn delivered_sales_count_toward_raised_funds() {
    let mut l = setup();
    let d = l
        .create_dish(
            1,
            &CreateDishRequest {
                name: "cake".to_string(),
                description: "sweet".to_string(),
                price: Amount::new(2500).unwrap(),
                quantity_available: 5,
                image_url: None,
            },
            1,
        )
        .unwrap();
    let s1 = sell(&mut l, 1, d, 1);
    let s2 = sell(&mut l, 1, d, 2);
    l.mark_sale_status(s1, SaleStatus::Paid).unwrap();
    l.mark_sale_status(s2, SaleStatus::Delivered).unwrap();

    let stats = l.dashboard_stats(1, 1).unwrap();
    assert_eq!(stats.total_raised, 2500 + 5000);
    assert_eq!(stats.paid_orders, 1);
    assert_eq!(stats.delivered_orders, 1);
}

#[test]
fn progress_is_clamped_at_one_hundred_percent() {
    let mut l = setup();
    let d = l
        .create_dish(
            1,
            &CreateDishRequest {
                name: "banquet".to_string(),
                description: "large".to_string(),
                price: Amount::new(150000).unwrap(),
                quantity_available: 5,
                image_url: None,
            },
            1,
        )
        .unwrap();
    let s = sell(&mut l, 1, d, 1);
    l.mark_sale_status(s, SaleStatus::Paid).unwrap();
    let stats = l.dashboard_stats(1, 1).unwrap();
    assert_eq!(stats.total_raised, 150000);
    assert_eq!(stats.progress_percentage, 10000);
}

#[test]
fn no_goal_means_zero_progress() {
    let mut l = setup();
    l.set_financial_goal(1, None).unwrap();
    let stats = l.dashboard_stats(1, 1).unwrap();
    assert_eq!(stats.progress_percentage, 0);
}

#[test]
fn zero_goal_means_zero_progress() {
    let mut l = setup();
    l.set_financial_goal(1, Some(Amount::new(0).unwrap())).unwrap();
    let stats = l.dashboard_stats(1, 1).unwrap();
    assert_eq!(stats.progress_percentage, 0);
}

#[test]
fn coverage_is_vacuously_full_without_ingredients() {
    let l = setup();
    let stats = l.dashboard_stats(1, 1).unwrap();
    assert_eq!(stats.ingredient_coverage_percentage, 10000);
}

#[test]
fn coverage_is_vacuously_full_when_nothing_is_needed() {
    let mut l = setup();
    l.add_ingredient(1, "salt".to_string(), Amount::new(0).unwrap(), "kg".to_string()).unwrap();
    let stats = l.dashboard_stats(1, 1).unwrap();
    assert_eq!(stats.ingredient_coverage_percentage, 10000);
}

#[test]
fn coverage_is_clamped_when_donations_exceed_the_need() {
    let mut l = setup();
    l.register_user(
        "donor".to_string(),
        "donor@example.com".to_string(),
        "Dana Donor".to_string(),
        "555-0002".to_string(),
    )
    .unwrap();
    let ing = l
        .add_ingredient(1, "flour".to_string(), Amount::new(500).unwrap(), "kg".to_string())
        .unwrap();
    l.record_donation(ing, 2, Amount::new(900).unwrap()).unwrap();
    let stats = l.dashboard_stats(1, 1).unwrap();
    assert_eq!(stats.ingredient_coverage_percentage, 10000);
}

#[test]
fn dashboard_is_organizer_only() {
    let mut l = setup();
    l.register_user(
        "other".to_string(),
        "other@example.com".to_string(),
        "Omar Other".to_string(),
        "555-0003".to_string(),
    )
    .unwrap();
    assert_eq!(l.dashboard_stats(1, 2), Err(LedgerError::Forbidden));
    assert_eq!(l.dashboard_stats(6, 1), Err(LedgerError::KermesseNotFound));
}

#[test]
fn percent_of_ratio_is_exact_and_clamped() {
    assert_eq!(percent_of_ratio(0, 100), 0);
    assert_eq!(percent_of_ratio(50, 100), 5000);
    assert_eq!(percent_of_ratio(80, 100), 8000);
    assert_eq!(percent_of_ratio(100, 100), 10000);
    assert_eq!(percent_of_ratio(150, 100), 10000);
    assert_eq!(percent_of_ratio(1, 3), 3333);
}
