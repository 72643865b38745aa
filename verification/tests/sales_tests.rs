use kermesse_ledger::amount::{Amount, AMOUNT_MAX_HUNDREDTHS};
use kermesse_ledger::ledger::Ledger;
use kermesse_ledger::model::{
    CreateDishRequest, CreateKermesseRequest, CreateSaleRequest, DeliveryMethod, EventDate,
    LedgerError, SaleItemRequest, SaleStatus,
};

fn kermesse_request(name: &str) -> CreateKermesseRequest {
    CreateKermesseRequest {
        name: name.to_string(),
        description: "a fundraiser".to_string(),
        event_date: EventDate { year: 2026, month: 5, day: 1 },
        beneficiary_name: "The Shelter".to_string(),
        beneficiary_reason: "roof repairs".to_string(),
        beneficiary_image_url: None,
        start_time: Some("10:00".to_string()),
        end_time: None,
    }
}

fn dish_request(name: &str, price_hundredths: u64) -> CreateDishRequest {
    CreateDishRequest {
        name: name.to_string(),
        description: "tasty".to_string(),
        price: Amount::new(price_hundredths).unwrap(),
        quantity_available: 50,
        image_url: None,
    }
}

fn sale_request(kermesse_id: i32, items: Vec<SaleItemRequest>) -> CreateSaleRequest {
    CreateSaleRequest {
        kermesse_id,
        customer_name: "Ana".to_string(),
        items,
        delivery_method: DeliveryMethod::Pickup,
        delivery_address: None,
        contact_phone: None,
    }
}

/// A ledger with one organizer (user 1), one kermesse (id 1), and two
/// dishes: dish 1 at 15.00 and dish 2 at 9.50.
fn setup() -> Ledger {
    let mut l = Ledger::new();
    let organizer = l
        .register_user(
            "orga".to_string(),
            "orga@example.com".to_string(),
            "Olga Organizer".to_string(),
            "555-0001".to_string(),
        )
        .unwrap();
    let k = l.create_kermesse(&kermesse_request("Spring Fair"), organizer);
    l.create_dish(k, &dish_request("empanadas", 1500), organizer).unwrap();
    l.create_dish(k, &dish_request("lemonade", 950), organizer).unwrap();
    l
}

#[test]
fn scenario_two_line_sale_exact_totals() {
    let mut l = setup();
    let items = vec![
        SaleItemRequest { dish_id: 1, quantity: 2 },
        SaleItemRequest { dish_id: 2, quantity: 1 },
    ];
    let receipt = l.create_sale(&sale_request(1, items), 1).unwrap();
    assert_eq!(receipt.id, 1);
    assert_eq!(receipt.status, SaleStatus::Pending);

    let sale = &l.sales[0];
    assert_eq!(sale.total_amount.hundredths, 3950);
    assert_eq!(sale.items.len(), 2);
    assert_eq!(sale.items[0].subtotal.hundredths, 3000);
    assert_eq!(sale.items[1].subtotal.hundredths, 950);
    assert_eq!(sale.items[0].quantity, 2);
    assert_eq!(sale.items[1].quantity, 1);
    assert_eq!(sale.kermesse_id, 1);
    assert_eq!(sale.seller_id, 1);
    assert_eq!(sale.buyer_id, Some(1));
    assert_eq!(sale.customer_name, "Ana");
    assert_eq!(sale.status, SaleStatus::Pending);
}

#[test]
fn empty_order_rejected() {
    let mut l = setup();
    let r = l.create_sale(&sale_request(1, Vec::new()), 1);
    assert_eq!(r, Err(LedgerError::EmptyOrder));
    assert_eq!(l.sales.len(), 0);
}

#[test]
fn zero_quantity_rejected() {
    let mut l = setup();
    let items = vec![SaleItemRequest { dish_id: 1, quantity: 0 }];
    let r = l.create_sale(&sale_request(1, items), 1);
    assert_eq!(r, Err(LedgerError::InvalidQuantity { dish_id: 1 }));
    assert_eq!(l.sales.len(), 0);
}

#[test]
fn negative_quantity_rejected() {
    let mut l = setup();
    let items = vec![SaleItemRequest { dish_id: 2, quantity: -3 }];
    let r = l.create_sale(&sale_request(1, items), 1);
    assert_eq!(r, Err(LedgerError::InvalidQuantity { dish_id: 2 }));
}

#[test]
fn unknown_dish_rejected() {
    let mut l = setup();
    let items = vec![SaleItemRequest { dish_id: 77, quantity: 1 }];
    let r = l.create_sale(&sale_request(1, items), 1);
    assert_eq!(r, Err(LedgerError::DishNotFound { dish_id: 77 }));
}

#[test]
fn mismatched_dish_rejected() {
    let mut l = setup();
    let k2 = l.create_kermesse(&kermesse_request("Autumn Fair"), 1);
    let other_dish = l.create_dish(k2, &dish_request("soup", 700), 1).unwrap();
    let items = vec![SaleItemRequest { dish_id: other_dish, quantity: 1 }];
    let r = l.create_sale(&sale_request(1, items), 1);
    assert_eq!(r, Err(LedgerError::DishKermesseMismatch { dish_id: other_dish }));
}

#[test]
fn failure_on_last_line_leaves_no_rows() {
    let mut l = setup();
    let items = vec![
        SaleItemRequest { dish_id: 1, quantity: 2 },
        SaleItemRequest { dish_id: 99, quantity: 1 },
    ];
    let r = l.create_sale(&sale_request(1, items), 1);
    assert_eq!(r, Err(LedgerError::DishNotFound { dish_id: 99 }));
    assert_eq!(l.sales.len(), 0);
    assert_eq!(l.list_sales(1).len(), 0);
}

#[test]
fn first_failure_in_request_order_is_reported() {
    let mut l = setup();
    let items = vec![
        SaleItemRequest { dish_id: 1, quantity: -1 },
        SaleItemRequest { dish_id: 99, quantity: 1 },
    ];
    let r = l.create_sale(&sale_request(1, items), 1);
    assert_eq!(r, Err(LedgerError::InvalidQuantity { dish_id: 1 }));
}

#[test]
fn unrepresentable_total_rejected() {
    let mut l = setup();
    let organizer = 1;
    let big = l
        .create_dish(
            1,
            &CreateDishRequest {
                name: "gold platter".to_string(),
                description: "pricey".to_string(),
                price: Amount::new(AMOUNT_MAX_HUNDREDTHS).unwrap(),
                quantity_available: 5,
                image_url: None,
            },
            organizer,
        )
        .unwrap();
    let items = vec![SaleItemRequest { dish_id: big, quantity: 2 }];
    let r = l.create_sale(&sale_request(1, items), 1);
    assert_eq!(r, Err(LedgerError::AmountOverflow));
    assert_eq!(l.sales.len(), 0);
}

#[test]
fn maximal_single_line_is_accepted() {
    let mut l = setup();
    let big = l
        .create_dish(
            1,
            &CreateDishRequest {
                name: "gold platter".to_string(),
                description: "pricey".to_string(),
                price: Amount::new(AMOUNT_MAX_HUNDREDTHS).unwrap(),
                quantity_available: 5,
                image_url: None,
            },
            1,
        )
        .unwrap();
    let items = vec![SaleItemRequest { dish_id: big, quantity: 1 }];
    let receipt = l.create_sale(&sale_request(1, items), 1).unwrap();
    assert_eq!(l.sales[(receipt.id - 1) as usize].total_amount.hundredths, AMOUNT_MAX_HUNDREDTHS);
}

#[test]
fn list_sales_filters_by_kermesse() {
    let mut l = setup();
    let k2 = l.create_kermesse(&kermesse_request("Autumn Fair"), 1);
    let d3 = l.create_dish(k2, &dish_request("soup", 700), 1).unwrap();
    l.create_sale(&sale_request(1, vec![SaleItemRequest { dish_id: 1, quantity: 1 }]), 1).unwrap();
    l.create_sale(&sale_request(k2, vec![SaleItemRequest { dish_id: d3, quantity: 2 }]), 1)
        .unwrap();

    let first = l.list_sales(1);
    assert_eq!(first.len(), 1);
    assert_eq!(first[0].total_amount.hundredths, 1500);
    assert_eq!(first[0].customer_name, "Ana");

    let second = l.list_sales(k2);
    assert_eq!(second.len(), 1);
    assert_eq!(second[0].total_amount.hundredths, 1400);
}

#[test]
fn mark_sale_status_moves_only_the_status() {
    let mut l = setup();
    l.create_sale(&sale_request(1, vec![SaleItemRequest { dish_id: 1, quantity: 1 }]), 1).unwrap();
    l.mark_sale_status(1, SaleStatus::Paid).unwrap();
    assert_eq!(l.sales[0].status, SaleStatus::Paid);
    assert_eq!(l.sales[0].total_amount.hundredths, 1500);
    assert_eq!(l.sales[0].items.len(), 1);
}

#[test]
fn mark_missing_sale_fails() {
    let mut l = setup();
    assert_eq!(l.mark_sale_status(4, SaleStatus::Paid), Err(LedgerError::SaleNotFound));
}
