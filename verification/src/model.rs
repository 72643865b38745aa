//! The data model of the ledger: row types, closed status enumerations,
//! request and response shapes, and the error taxonomy.

use vstd::prelude::*;
use crate::amount::Amount;

verus! {

/// Lifecycle of a kermesse event.
#[derive(Clone, Copy, Debug, PartialEq, Eq, Structural)]
pub enum KermesseStatus {
    Draft,
    Active,
    Finished,
}

/// Lifecycle of a sale. There is no cancellation state.
#[derive(Clone, Copy, Debug, PartialEq, Eq, Structural)]
pub enum SaleStatus {
    Pending,
    Paid,
    Delivered,
}

/// Lifecycle of a collaborator request. `Accepted` and `Rejected` are
/// terminal.
#[derive(Clone, Copy, Debug, PartialEq, Eq, Structural)]
pub enum CollabStatus {
    Pending,
    Accepted,
    Rejected,
}

/// How a sale is handed over to the buyer.
#[derive(Clone, Copy, Debug, PartialEq, Eq, Structural)]
pub enum DeliveryMethod {
    Pickup,
    Delivery,
}

/// A collaborator's role at an event.
#[derive(Clone, Copy, Debug, PartialEq, Eq, Structural)]
pub enum Role {
    Kitchen,
    Seller,
    Delivery,
    IngredientGetter,
    Collaborator,
}

/// A calendar date, held as plain numbers. The ledger only stores dates;
/// it never computes with them.
#[derive(Clone, Copy, Debug, PartialEq, Eq, Structural)]
pub struct EventDate {
    pub year: i32,
    pub month: u8,
    pub day: u8,
}

impl EventDate {
    /// A plausible calendar date: month and day in range.
    pub open spec fn wf(self) -> bool {
        1 <= self.month <= 12 && 1 <= self.day <= 31
    }
}

/// Why an operation was refused. Every failure leaves the ledger
/// unchanged. Store failures have no counterpart here: this ledger lives in
/// memory, so a transaction cannot fail halfway.
#[derive(Clone, Copy, Debug, PartialEq, Eq, Structural)]
pub enum LedgerError {
    /// A sale must contain at least one line item.
    EmptyOrder,
    /// A line item's quantity must be a positive integer.
    InvalidQuantity { dish_id: i32 },
    /// A line item references a dish that does not exist.
    DishNotFound { dish_id: i32 },
    /// A line item references a dish of another kermesse.
    DishKermesseMismatch { dish_id: i32 },
    /// An exact total would exceed the representable amount range.
    AmountOverflow,
    /// The referenced kermesse does not exist.
    KermesseNotFound,
    /// The referenced ingredient does not exist.
    IngredientNotFound,
    /// A donation quantity must be strictly positive.
    NonPositiveDonation,
    /// The referenced sale does not exist.
    SaleNotFound,
    /// The referenced collaborator request does not exist.
    RequestNotFound,
    /// A pending or accepted collaborator row already exists for this
    /// kermesse and user.
    DuplicateRequest,
    /// The username or email is already taken.
    UserExists,
    /// The caller is not the organizer of the kermesse.
    Forbidden,
}

// ===== Rows =====

/// A registered user's public profile. Credentials live outside the ledger.
#[derive(Clone, Debug, PartialEq, Eq)]
pub struct User {
    pub id: i32,
    pub username: String,
    pub email: String,
    pub full_name: String,
    pub phone: String,
}

/// A fundraising event.
#[derive(Clone, Debug, PartialEq, Eq)]
pub struct Kermesse {
    pub id: i32,
    pub organizer_id: i32,
    pub name: String,
    pub slug: String,
    pub description: String,
    pub event_date: EventDate,
    pub beneficiary_name: String,
    pub beneficiary_reason: String,
    pub beneficiary_image_url: Option<String>,
    pub start_time: Option<String>,
    pub end_time: Option<String>,
    pub status: KermesseStatus,
    pub financial_goal: Option<Amount>,
}

/// A sellable menu item of one kermesse.
#[derive(Clone, Debug, PartialEq, Eq)]
pub struct Dish {
    pub id: i32,
    pub kermesse_id: i32,
    pub name: String,
    pub description: String,
    pub price: Amount,
    pub quantity_available: i32,
    pub image_url: Option<String>,
}

/// A stated ingredient need of one kermesse. Donation progress is derived,
/// never stored here.
#[derive(Clone, Debug, PartialEq, Eq)]
pub struct Ingredient {
    pub id: i32,
    pub kermesse_id: i32,
    pub name: String,
    pub quantity_needed: Amount,
    pub unit: String,
}

/// An immutable in-kind donation toward one ingredient. Append-only.
#[derive(Clone, Copy, Debug, PartialEq, Eq, Structural)]
pub struct Donation {
    pub id: i32,
    pub ingredient_id: i32,
    pub user_id: i32,
    pub quantity: Amount,
}

/// A user's collaboration request or assignment at one kermesse.
#[derive(Clone, Copy, Debug, PartialEq, Eq, Structural)]
pub struct Collaborator {
    pub id: i32,
    pub kermesse_id: i32,
    pub user_id: i32,
    pub status: CollabStatus,
    pub role: Option<Role>,
    pub proposed_role: Option<Role>,
}

/// One line of a sale: a quantity of one dish at the price frozen when the
/// order was committed.
#[derive(Clone, Copy, Debug, PartialEq, Eq, Structural)]
pub struct SaleItem {
    pub sale_id: i32,
    pub dish_id: i32,
    pub quantity: i32,
    pub subtotal: Amount,
}

/// An order header together with the line items it owns. Created as a
/// single atomic unit.
#[derive(Clone, Debug, PartialEq, Eq)]
pub struct Sale {
    pub id: i32,
    pub kermesse_id: i32,
    pub seller_id: i32,
    pub buyer_id: Option<i32>,
    pub customer_name: String,
    pub total_amount: Amount,
    pub status: SaleStatus,
    pub delivery_method: DeliveryMethod,
    pub delivery_address: Option<String>,
    pub contact_phone: Option<String>,
    pub items: Vec<SaleItem>,
}

// ===== Requests =====

/// One requested line of a new sale.
#[derive(Clone, Copy, Debug, PartialEq, Eq, Structural)]
pub struct SaleItemRequest {
    pub dish_id: i32,
    pub quantity: i32,
}

/// A request to commit a multi-line sale.
#[derive(Clone, Debug, PartialEq, Eq)]
pub struct CreateSaleRequest {
    pub kermesse_id: i32,
    pub customer_name: String,
    pub items: Vec<SaleItemRequest>,
    pub delivery_method: DeliveryMethod,
    pub delivery_address: Option<String>,
    pub contact_phone: Option<String>,
}

/// A request to join a kermesse as a collaborator.
#[derive(Clone, Copy, Debug, PartialEq, Eq, Structural)]
pub struct RequestCollaborationRequest {
    pub proposed_role: Role,
}

/// The organizer's decision on a collaborator request.
#[derive(Clone, Copy, Debug, PartialEq, Eq, Structural)]
pub struct ApproveCollaboratorRequest {
    pub approve: bool,
    pub assigned_role: Option<Role>,
}

/// A request to publish a new kermesse.
#[derive(Clone, Debug, PartialEq, Eq)]
pub struct CreateKermesseRequest {
    pub name: String,
    pub description: String,
    pub event_date: EventDate,
    pub beneficiary_name: String,
    pub beneficiary_reason: String,
    pub beneficiary_image_url: Option<String>,
    pub start_time: Option<String>,
    pub end_time: Option<String>,
}

/// A request to add a dish to a kermesse.
#[derive(Clone, Debug, PartialEq, Eq)]
pub struct CreateDishRequest {
    pub name: String,
    pub description: String,
    pub price: Amount,
    pub quantity_available: i32,
    pub image_url: Option<String>,
}

// ===== Responses =====

/// What a successful sale reports back: the persisted id and status.
#[derive(Clone, Copy, Debug, PartialEq, Eq, Structural)]
pub struct SaleReceipt {
    pub id: i32,
    pub status: SaleStatus,
}

/// A kermesse row as shown to callers.
#[derive(Clone, Debug, PartialEq, Eq)]
pub struct KermesseResponse {
    pub id: i32,
    pub name: String,
    pub description: String,
    pub event_date: EventDate,
    pub beneficiary_name: String,
    pub beneficiary_reason: String,
    pub beneficiary_image_url: Option<String>,
    pub start_time: Option<String>,
    pub end_time: Option<String>,
    pub status: KermesseStatus,
    pub organizer_id: i32,
}

/// A collaborator joined with the user's public profile.
#[derive(Clone, Debug, PartialEq, Eq)]
pub struct CollaboratorResponse {
    pub id: i32,
    pub username: String,
    pub full_name: String,
    pub role: Option<Role>,
    pub phone: String,
}

/// The full detail view of one kermesse.
#[derive(Clone, Debug, PartialEq, Eq)]
pub struct KermesseDetailResponse {
    pub kermesse: KermesseResponse,
    pub dishes: Vec<Dish>,
    pub ingredients: Vec<Ingredient>,
    pub collaborators: Vec<CollaboratorResponse>,
}

/// A pending collaborator request joined with the requester's profile.
#[derive(Clone, Debug, PartialEq, Eq)]
pub struct CollaboratorRequestResponse {
    pub id: i32,
    pub user_id: i32,
    pub username: String,
    pub full_name: String,
    pub proposed_role: Option<Role>,
    pub status: CollabStatus,
}

/// A sale header as shown to callers.
#[derive(Clone, Debug, PartialEq, Eq)]
pub struct SaleResponse {
    pub id: i32,
    pub customer_name: String,
    pub total_amount: Amount,
    pub status: SaleStatus,
}

/// One ingredient of an event with its derived donated total, in
/// hundredths.
#[derive(Clone, Debug, PartialEq, Eq)]
pub struct IngredientWithProgress {
    pub id: i32,
    pub name: String,
    pub quantity_needed: Amount,
    pub unit: String,
    pub quantity_donated: u128,
}

/// Dashboard aggregates for one kermesse. Monetary sums are counts of
/// hundredths; percentages are hundredths of a percent in [0, 10000].
#[derive(Clone, Copy, Debug, PartialEq, Eq, Structural)]
pub struct DashboardStats {
    pub financial_goal: Option<Amount>,
    pub total_raised: u128,
    pub progress_percentage: u32,
    pub total_orders: u64,
    pub pending_orders: u64,
    pub paid_orders: u64,
    pub delivered_orders: u64,
    pub ingredient_coverage_percentage: u32,
}

/// A verified caller identity, as the authentication layer hands it in.
#[derive(Clone, Debug, PartialEq, Eq)]
pub struct AuthenticatedUser {
    pub id: i32,
    pub username: String,
}

/// The claims carried by an authentication token.
#[derive(Clone, Debug, PartialEq, Eq)]
pub struct Claims {
    pub sub: String,
    pub id: i32,
    pub exp: usize,
}

} // verus!
