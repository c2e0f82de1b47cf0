//! What an evaluation hands back to the checkout platform.

use vstd::prelude::*;

verus! {

/// A finding that blocks checkout: a message for the buyer and the path of
/// the part of the cart that it is about.
#[derive(Clone, Debug, PartialEq, Eq)]
pub struct ValidationError {
    pub message: String,
    pub target: String,
}

/// The instruction to attach validation errors to the cart, in the order in
/// which the buyer is to see them. One without errors lets checkout proceed.
#[derive(Clone, Debug, PartialEq, Eq)]
pub struct ValidationAddOperation {
    pub errors: Vec<ValidationError>,
}

/// An instruction to the checkout platform.
#[derive(Clone, Debug, PartialEq, Eq)]
pub enum Operation {
    ValidationAdd(ValidationAddOperation),
}

/// The outcome of one evaluation: the instructions, in order.
#[derive(Clone, Debug, PartialEq, Eq)]
pub struct CartValidationsGenerateRunResult {
    pub operations: Vec<Operation>,
}

/// A validation error as a mathematical value.
pub struct ValidationErrorView {
    pub message: Seq<char>,
    pub target: Seq<char>,
}

/// A validation-add operation as a mathematical value.
pub struct ValidationAddOperationView {
    pub errors: Seq<ValidationErrorView>,
}

/// An operation as a mathematical value.
pub enum OperationView {
    ValidationAdd(ValidationAddOperationView),
}

/// An outcome as a mathematical value.
pub struct CartValidationsGenerateRunResultView {
    pub operations: Seq<OperationView>,
}

impl View for ValidationError {
    type V = ValidationErrorView;

    open spec fn view(&self) -> ValidationErrorView {
        ValidationErrorView { message: self.message@, target: self.target@ }
    }
}

impl View for ValidationAddOperation {
    type V = ValidationAddOperationView;

    open spec fn view(&self) -> ValidationAddOperationView {
        ValidationAddOperationView {
            errors: self.errors@.map_values(|e: ValidationError| e@),
        }
    }
}

impl View for Operation {
    type V = OperationView;

    open spec fn view(&self) -> OperationView {
        match self {
            Operation::ValidationAdd(operation) => OperationView::ValidationAdd(operation@),
        }
    }
}

impl View for CartValidationsGenerateRunResult {
    type V = CartValidationsGenerateRunResultView;

    open spec fn view(&self) -> CartValidationsGenerateRunResultView {
        CartValidationsGenerateRunResultView {
            operations: self.operations@.map_values(|o: Operation| o@),
        }
    }
}

} // verus!
