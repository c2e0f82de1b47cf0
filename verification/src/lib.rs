//! Checkout eligibility: decides from a cart's buyer identity whether checkout
//! may proceed, and reports why not.

pub mod cart;
pub mod laws;
pub mod policy;
pub mod text;
pub mod validation;

pub use crate::cart::{BuyerIdentity, Cart, Customer, Input, Location, PurchasingCompany};
pub use crate::policy::{cart_validations_generate_run, Policy, Verdict};
pub use crate::validation::{
    CartValidationsGenerateRunResult, Operation, ValidationAddOperation, ValidationError,
};
