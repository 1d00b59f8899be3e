//! The values that the service sends and receives.

use vstd::prelude::*;

verus! {

/// What the machine listing returns.
#[derive(Debug, Clone)]
pub struct DrinkList {
    pub machines: Vec<Machine>,
    pub message: String,
}

/// One vending machine and its slots.
#[derive(Debug, Clone)]
pub struct Machine {
    pub display_name: String,
    pub id: u64,
    pub is_online: bool,
    pub name: String,
    pub slots: Vec<Slot>,
}

/// One slot of a machine and the item it holds.
#[derive(Debug, Clone)]
pub struct Slot {
    pub active: bool,
    pub count: Option<u64>,
    pub empty: bool,
    pub item: Item,
    pub machine: u64,
    pub number: u8,
}

/// An item on sale.
#[derive(Debug, Clone)]
pub struct Item {
    pub id: u64,
    pub name: String,
    pub price: u64,
}

/// What one attempt at a secret came to: whether it was accepted, and what the
/// ticket tool had to say about it.
#[derive(Debug, Clone)]
pub struct PasswordResult {
    pub message: String,
    pub success: bool,
}

/// The identity endpoint's answer.
#[derive(Debug, Clone)]
pub struct User {
    pub preferred_username: String,
}

/// The credits endpoint's answer.
#[derive(Debug, Clone)]
pub struct CreditResponse {
    pub user: CreditUser,
}

/// The user record inside a credits answer, its balance already read as a
/// number.
#[allow(non_snake_case)]
#[derive(Debug, Clone)]
pub struct CreditUser {
    pub drinkBalance: i64,
}

/// What is sent to have an item dropped.
#[derive(Debug, Clone)]
pub struct DropRequest {
    pub machine: String,
    pub slot: u8,
}

/// The drop endpoint's answer.
#[allow(non_snake_case)]
#[derive(Debug, Clone)]
pub struct DropResponse {
    pub drinkBalance: i64,
}

} // verus!
