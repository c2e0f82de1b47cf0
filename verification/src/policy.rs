//! The access-control policy: who may check out, and what the others are told.

use crate::cart::{Cart, CartView, Input};
use crate::laws::{
    law_allowed_location_passes, law_guest_must_log_in, law_other_location_is_refused,
    law_required_name_is_trimmed, law_without_company_is_refused,
};
use crate::text::{trim, trimmed};
use crate::validation::{
    CartValidationsGenerateRunResult, CartValidationsGenerateRunResultView, Operation,
    OperationView, ValidationAddOperation, ValidationAddOperationView, ValidationError,
    ValidationErrorView,
};
use vstd::prelude::*;

verus! {

/// The name of the one location whose customers may place orders.
pub const REQUIRED_LOCATION_NAME: &'static str = "Location Admins";

/// What a customer outside that location is told.
pub const POLICY_ERROR_MESSAGE: &'static str =
    "Only customers in the 'Location Admins' location are allowed to place orders. Please contact your administrator.";

/// What a buyer who is not logged in is told.
pub const LOGIN_REQUIRED_MESSAGE: &'static str =
    "You must be logged in to complete this purchase. Please sign in to continue.";

/// The part of the cart that every error points at.
pub const ERROR_TARGET: &'static str = "$.cart";

/// What an evaluation is configured with. `Policy::default()` holds the four
/// constants above.
#[derive(Clone, Debug, PartialEq, Eq)]
pub struct Policy {
    /// The name of the one location whose customers may place orders.
    pub required_location_name: String,
    /// What a logged-in customer who may not place orders is told.
    pub policy_error_message: String,
    /// What a buyer who is not logged in is told.
    pub login_required_message: String,
    /// The path that every error carries as its target.
    pub error_target: String,
}

/// A policy as a mathematical value.
pub struct PolicyView {
    pub required_location_name: Seq<char>,
    pub policy_error_message: Seq<char>,
    pub login_required_message: Seq<char>,
    pub error_target: Seq<char>,
}

impl View for Policy {
    type V = PolicyView;

    open spec fn view(&self) -> PolicyView {
        PolicyView {
            required_location_name: self.required_location_name@,
            policy_error_message: self.policy_error_message@,
            login_required_message: self.login_required_message@,
            error_target: self.error_target@,
        }
    }
}

/// How a policy judges a cart. The checks run in the order of the last three
/// variants, and the first that fails decides.
#[derive(Clone, Copy, Debug, PartialEq, Eq, Structural)]
pub enum Verdict {
    /// Checkout may proceed.
    Allowed,
    /// Nobody is logged in.
    LoginRequired,
    /// The customer buys for no company.
    CompanyRequired,
    /// The customer buys for a company, from another location than the
    /// required one.
    LocationNotAllowed,
}

/// The outcome that carries `errors`: one validation-add operation, also
/// where there is no error.
pub open spec fn outcome_with(errors: Seq<ValidationErrorView>)
    -> CartValidationsGenerateRunResultView {
    CartValidationsGenerateRunResultView {
        operations: seq![OperationView::ValidationAdd(ValidationAddOperationView { errors })],
    }
}

impl PolicyView {
    /// The policy that holds the four constants.
    pub open spec fn standard() -> PolicyView {
        PolicyView {
            required_location_name: REQUIRED_LOCATION_NAME@,
            policy_error_message: POLICY_ERROR_MESSAGE@,
            login_required_message: LOGIN_REQUIRED_MESSAGE@,
            error_target: ERROR_TARGET@,
        }
    }

    /// A location is the required one when its name and the required name
    /// are the same once both are trimmed; letter case counts.
    pub open spec fn location_allowed(self, name: Seq<char>) -> bool {
        trimmed(name) == trimmed(self.required_location_name)
    }

    /// The policy's verdict on a cart.
    pub open spec fn verdict_of(self, cart: CartView) -> Verdict {
        if !cart.logged_in() {
            Verdict::LoginRequired
        } else {
            match cart.company() {
                None => Verdict::CompanyRequired,
                Some(company) => if self.location_allowed(company.location.name) {
                    Verdict::Allowed
                } else {
                    Verdict::LocationNotAllowed
                },
            }
        }
    }

    /// The message for the buyer that goes with a verdict, if checkout is
    /// blocked.
    pub open spec fn message_of(self, verdict: Verdict) -> Option<Seq<char>> {
        match verdict {
            Verdict::Allowed => None,
            Verdict::LoginRequired => Some(self.login_required_message),
            Verdict::CompanyRequired => Some(self.policy_error_message),
            Verdict::LocationNotAllowed => Some(self.policy_error_message),
        }
    }

    /// The error that carries `message`.
    pub open spec fn error_with(self, message: Seq<char>) -> ValidationErrorView {
        ValidationErrorView { message, target: self.error_target }
    }

    /// The errors that a verdict raises: one with the verdict's message, or
    /// none.
    pub open spec fn errors_of(self, verdict: Verdict) -> Seq<ValidationErrorView> {
        match self.message_of(verdict) {
            Some(message) => seq![self.error_with(message)],
            None => seq![],
        }
    }

    /// The outcome of evaluating a cart.
    pub open spec fn evaluation(self, cart: CartView) -> CartValidationsGenerateRunResultView {
        outcome_with(self.errors_of(self.verdict_of(cart)))
    }
}

impl Default for Policy {
    fn default() -> (policy: Policy)
        ensures
            policy@ == PolicyView::standard(),
    {
        Policy {
            required_location_name: REQUIRED_LOCATION_NAME.to_owned(),
            policy_error_message: POLICY_ERROR_MESSAGE.to_owned(),
            login_required_message: LOGIN_REQUIRED_MESSAGE.to_owned(),
            error_target: ERROR_TARGET.to_owned(),
        }
    }
}

impl Policy {
    /// Whether `name` names the required location.
    pub fn location_is_allowed(&self, name: &str) -> (r: bool)
        ensures
            r == self@.location_allowed(name@),
    {
        *trim(name) == *trim(self.required_location_name.as_str())
    }

    /// Judges a cart.
    pub fn verdict(&self, cart: &Cart) -> (v: Verdict)
        ensures
            v == self@.verdict_of(cart@),
    {
        if !cart.is_logged_in() {
            return Verdict::LoginRequired;
        }
        match &cart.buyer_identity {
            Some(buyer) => match &buyer.purchasing_company {
                Some(company) => {
                    if self.location_is_allowed(company.location.name.as_str()) {
                        Verdict::Allowed
                    } else {
                        Verdict::LocationNotAllowed
                    }
                },
                None => Verdict::CompanyRequired,
            },
            None => Verdict::LoginRequired,
        }
    }

    /// The message for the buyer that goes with a verdict, if checkout is
    /// blocked.
    pub fn message(&self, verdict: Verdict) -> (m: Option<&str>)
        ensures
            match m {
                Some(text) => self@.message_of(verdict) == Some(text@),
                None => self@.message_of(verdict) is None,
            },
    {
        match verdict {
            Verdict::Allowed => None,
            Verdict::LoginRequired => Some(self.login_required_message.as_str()),
            Verdict::CompanyRequired => Some(self.policy_error_message.as_str()),
            Verdict::LocationNotAllowed => Some(self.policy_error_message.as_str()),
        }
    }

    /// The validation errors that a verdict raises.
    pub fn errors(&self, verdict: Verdict) -> (errors: Vec<ValidationError>)
        ensures
            errors@.map_values(|e: ValidationError| e@) == self@.errors_of(verdict),
    {
        let mut errors = Vec::new();
        if let Some(text) = self.message(verdict) {
            errors.push(
                ValidationError { message: text.to_owned(), target: self.error_target.clone() },
            );
        }
        assert(errors@.map_values(|e: ValidationError| e@) =~= self@.errors_of(verdict));
        errors
    }

    /// Evaluates a cart: judges it and wraps the errors that the verdict
    /// raises in one validation-add operation. The cart is read, never
    /// changed, and the outcome depends on nothing but policy and cart.
    pub fn evaluate(&self, cart: &Cart) -> (result: CartValidationsGenerateRunResult)
        ensures
            result@ == self@.evaluation(cart@),
            result.operations.len() == 1,
            !cart@.logged_in() ==> result@ == outcome_with(
                seq![self@.error_with(self@.login_required_message)],
            ),
            cart@.logged_in() && cart@.company() is None ==> result@ == outcome_with(
                seq![self@.error_with(self@.policy_error_message)],
            ),
            cart@.logged_in() && cart@.company() is Some && trimmed(
                cart@.company()->0.location.name,
            ) == trimmed(self@.required_location_name) ==> result@ == outcome_with(seq![]),
            cart@.logged_in() && cart@.company() is Some && trimmed(
                cart@.company()->0.location.name,
            ) != trimmed(self@.required_location_name) ==> result@ == outcome_with(
                seq![self@.error_with(self@.policy_error_message)],
            ),
    {
        let errors = self.errors(self.verdict(cart));
        let mut operations = Vec::new();
        operations.push(Operation::ValidationAdd(ValidationAddOperation { errors }));
        proof {
            assert(operations@.map_values(|o: Operation| o@) =~= self@.evaluation(
                cart@,
            ).operations);
            if !cart@.logged_in() {
                law_guest_must_log_in(self@, cart@);
            } else if cart@.company() is None {
                law_without_company_is_refused(self@, cart@);
            } else if self@.location_allowed(cart@.company()->0.location.name) {
                law_allowed_location_passes(self@, cart@);
            } else {
                law_other_location_is_refused(self@, cart@);
            }
        }
        CartValidationsGenerateRunResult { operations }
    }
}

/// The outcome of evaluating a cart under the standard policy.
pub open spec fn evaluation(cart: CartView) -> CartValidationsGenerateRunResultView {
    PolicyView::standard().evaluation(cart)
}

/// The error of the standard policy that carries `message`.
pub open spec fn error_with(message: Seq<char>) -> ValidationErrorView {
    ValidationErrorView { message, target: ERROR_TARGET@ }
}

/// Answers one request to generate a cart's validations, under the standard
/// policy.
pub fn cart_validations_generate_run(input: Input) -> (result: CartValidationsGenerateRunResult)
    ensures
        result@ == evaluation(input@.cart),
        result.operations.len() == 1,
        !input@.cart.logged_in() ==> result@ == outcome_with(
            seq![error_with(LOGIN_REQUIRED_MESSAGE@)],
        ),
        input@.cart.logged_in() && input@.cart.company() is None ==> result@ == outcome_with(
            seq![error_with(POLICY_ERROR_MESSAGE@)],
        ),
        input@.cart.logged_in() && input@.cart.company() is Some && trimmed(
            input@.cart.company()->0.location.name,
        ) == REQUIRED_LOCATION_NAME@ ==> result@ == outcome_with(seq![]),
        input@.cart.logged_in() && input@.cart.company() is Some && trimmed(
            input@.cart.company()->0.location.name,
        ) != REQUIRED_LOCATION_NAME@ ==> result@ == outcome_with(
            seq![error_with(POLICY_ERROR_MESSAGE@)],
        ),
{
    let policy = Policy::default();
    proof {
        law_required_name_is_trimmed();
    }
    policy.evaluate(&input.cart)
}

} // verus!
