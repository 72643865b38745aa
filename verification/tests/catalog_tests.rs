use kermesse_ledger::amount::{Amount, AMOUNT_MAX_HUNDREDTHS};
use kermesse_ledger::ledger::Ledger;
use kermesse_ledger::model::{
    ApproveCollaboratorRequest, CreateDishRequest, CreateKermesseRequest, EventDate,
    KermesseStatus, LedgerError, RequestCollaborationRequest, Role,
};

fn kermesse_request(name: &str) -> CreateKermesseRequest {
    CreateKermesseRequest {
        name: name.to_string(),
        description: "a fundraiser".to_string(),
        event_date: EventDate { year: 2026, month: 3, day: 7 },
        beneficiary_name: "The School".to_string(),
        beneficiary_reason: "supplies".to_string(),
        beneficiary_image_url: Some("https://example.com/banner.png".to_string()),
        start_time: Some("09:30".to_string()),
        end_time: Some("17:00".to_string()),
    }
}

fn setup() -> Ledger {
    let mut l = Ledger::new();
    l.register_user(
        "orga".to_string(),
        "orga@example.com".to_string(),
        "Olga Organizer".to_string(),
        "555-0001".to_string(),
    )
    .unwrap();
    l
}

#[test]
fn slug_is_lowercased_and_dashed() {
    let mut l = setup();
    let id = l.create_kermesse(&kermesse_request("Summer Fair 2026"), 1);
    assert_eq!(l.kermesses[(id - 1) as usize].slug, "summer-fair-2026");
}

#[test]
fn new_kermesse_is_active_with_the_request_fields() {
    let mut l = setup();
    let id = l.create_kermesse(&kermesse_request("Garden Party"), 1);
    let k = &l.kermesses[(id - 1) as usize];
    assert_eq!(k.id, id);
    assert_eq!(k.organizer_id, 1);
    assert_eq!(k.name, "Garden Party");
    assert_eq!(k.description, "a fundraiser");
    assert_eq!(k.event_date, EventDate { year: 2026, month: 3, day: 7 });
    assert_eq!(k.beneficiary_name, "The School");
    assert_eq!(k.status, KermesseStatus::Active);
    assert_eq!(k.financial_goal, None);
    assert_eq!(k.start_time, Some("09:30".to_string()));
}

#[test]
fn listing_shows_only_active_kermesses() {
    let mut l = setup();
    let first = l.create_kermesse(&kermesse_request("Open Fair"), 1);
    let second = l.create_kermesse(&kermesse_request("Closed Fair"), 1);
    l.set_kermesse_status(second, KermesseStatus::Finished).unwrap();

    let listed = l.list_kermesses();
    assert_eq!(listed.len(), 1);
    assert_eq!(listed[0].id, first);
    assert_eq!(listed[0].name, "Open Fair");
    assert_eq!(listed[0].organizer_id, 1);
}

#[test]
fn dish_creation_is_organizer_only() {
    let mut l = setup();
    l.register_user(
        "other".to_string(),
        "other@example.com".to_string(),
        "Omar Other".to_string(),
        "555-0002".to_string(),
    )
    .unwrap();
    let k = l.create_kermesse(&kermesse_request("Fair"), 1);
    let req = CreateDishRequest {
        name: "tamales".to_string(),
        description: "steamed".to_string(),
        price: Amount::new(1200).unwrap(),
        quantity_available: 30,
        image_url: None,
    };
    assert_eq!(l.create_dish(k, &req, 2), Err(LedgerError::Forbidden));
    assert_eq!(l.create_dish(9, &req, 1), Err(LedgerError::KermesseNotFound));
    let id = l.create_dish(k, &req, 1).unwrap();
    assert_eq!(l.dishes[(id - 1) as usize].price.hundredths, 1200);
    assert_eq!(l.dishes[(id - 1) as usize].name, "tamales");
}

#[test]
fn detail_view_gathers_the_event_rows() {
    let mut l = setup();
    l.register_user(
        "helper".to_string(),
        "helper@example.com".to_string(),
        "Hana Helper".to_string(),
        "555-0002".to_string(),
    )
    .unwrap();
    let k = l.create_kermesse(&kermesse_request("Big Fair"), 1);
    let other = l.create_kermesse(&kermesse_request("Other Fair"), 1);
    let dish = l
        .create_dish(
            k,
            &CreateDishRequest {
                name: "arepas".to_string(),
                description: "grilled".to_string(),
                price: Amount::new(800).unwrap(),
                quantity_available: 20,
                image_url: None,
            },
            1,
        )
        .unwrap();
    l.create_dish(
        other,
        &CreateDishRequest {
            name: "elsewhere".to_string(),
            description: "other".to_string(),
            price: Amount::new(100).unwrap(),
            quantity_available: 1,
            image_url: None,
        },
        1,
    )
    .unwrap();
    let ing = l
        .add_ingredient(k, "corn".to_string(), Amount::new(2000).unwrap(), "kg".to_string())
        .unwrap();
    let collab = l
        .request_collaboration(k, 2, &RequestCollaborationRequest { proposed_role: Role::Seller })
        .unwrap();
    l.manage_collaboration_request(
        k,
        collab,
        1,
        &ApproveCollaboratorRequest { approve: true, assigned_role: Some(Role::Seller) },
    )
    .unwrap();

    let detail = l.get_kermesse(k).unwrap();
    assert_eq!(detail.kermesse.id, k);
    assert_eq!(detail.kermesse.name, "Big Fair");
    assert_eq!(detail.dishes.len(), 1);
    assert_eq!(detail.dishes[0].id, dish);
    assert_eq!(detail.ingredients.len(), 1);
    assert_eq!(detail.ingredients[0].id, ing);
    assert_eq!(detail.ingredients[0].unit, "kg");
    assert_eq!(detail.collaborators.len(), 1);
    assert_eq!(detail.collaborators[0].username, "helper");
    assert_eq!(detail.collaborators[0].full_name, "Hana Helper");
    assert_eq!(detail.collaborators[0].phone, "555-0002");
    assert_eq!(detail.collaborators[0].role, Some(Role::Seller));

    assert_eq!(
        l.get_kermesse(5).map(|d| d.kermesse.id),
        Err(LedgerError::KermesseNotFound)
    );
}

#[test]
fn duplicate_username_or_email_is_refused() {
    let mut l = setup();
    let same_name = l.register_user(
        "orga".to_string(),
        "fresh@example.com".to_string(),
        "Other Olga".to_string(),
        "555-0009".to_string(),
    );
    assert_eq!(same_name, Err(LedgerError::UserExists));
    let same_email = l.register_user(
        "fresh".to_string(),
        "orga@example.com".to_string(),
        "Fresh Person".to_string(),
        "555-0008".to_string(),
    );
    assert_eq!(same_email, Err(LedgerError::UserExists));
    let ok = l.register_user(
        "fresh".to_string(),
        "fresh@example.com".to_string(),
        "Fresh Person".to_string(),
        "555-0008".to_string(),
    );
    assert_eq!(ok, Ok(2));
}

#[test]
fn users_are_found_by_username_or_email() {
    let l = setup();
    let by_name = l.find_user_by_login(&"orga".to_string()).unwrap();
    assert_eq!(by_name.id, 1);
    let by_email = l.find_user_by_login(&"orga@example.com".to_string()).unwrap();
    assert_eq!(by_email.id, 1);
    assert!(l.find_user_by_login(&"nobody".to_string()).is_none());
}

#[test]
fn amounts_beyond_the_range_are_refused() {
    assert_eq!(
        Amount::new(AMOUNT_MAX_HUNDREDTHS),
        Some(Amount { hundredths: AMOUNT_MAX_HUNDREDTHS })
    );
    assert_eq!(Amount::new(AMOUNT_MAX_HUNDREDTHS + 1), None);
    assert_eq!(Amount::zero().hundredths, 0);
    assert!(Amount::new(1).unwrap().is_positive());
    assert!(!Amount::zero().is_positive());
}
