//! What holds of every evaluation.

use crate::cart::{CartView, Input};
use crate::policy::{
    evaluation, outcome_with, Policy, PolicyView, REQUIRED_LOCATION_NAME,
};
use crate::text::{all_white_space, lemma_trimmed_ignores_padding, lemma_trimmed_of_bare, trimmed};
use crate::validation::{CartValidationsGenerateRunResult, OperationView};
use vstd::prelude::*;

verus! {

/// The required name of the standard policy has no white space around it:
/// trimming leaves it as it is.
pub proof fn law_required_name_is_trimmed()
    ensures
        trimmed(REQUIRED_LOCATION_NAME@) == REQUIRED_LOCATION_NAME@,
{
    reveal_strlit("Location Admins");
    lemma_trimmed_of_bare(REQUIRED_LOCATION_NAME@);
}

/// A cart without a buyer identity, or without a customer on it, gets
/// exactly one error: the request to log in, pointing at the policy's target.
pub proof fn law_guest_must_log_in(policy: PolicyView, cart: CartView)
    requires
        cart.buyer_identity is None || cart.buyer_identity->0.customer is None,
    ensures
        !cart.logged_in(),
        policy.evaluation(cart) == outcome_with(
            seq![policy.error_with(policy.login_required_message)],
        ),
{
}

/// A logged-in customer who buys for no company gets exactly one error: the
/// policy's message, pointing at the policy's target.
pub proof fn law_without_company_is_refused(policy: PolicyView, cart: CartView)
    requires
        cart.logged_in(),
        cart.company() is None,
    ensures
        policy.evaluation(cart) == outcome_with(
            seq![policy.error_with(policy.policy_error_message)],
        ),
{
}

/// A logged-in customer of a company whose location's trimmed name is the
/// trimmed required name gets no error.
pub proof fn law_allowed_location_passes(policy: PolicyView, cart: CartView)
    requires
        cart.logged_in(),
        cart.company() is Some,
        trimmed(cart.company()->0.location.name) == trimmed(policy.required_location_name),
    ensures
        policy.evaluation(cart) == outcome_with(seq![]),
{
}

/// A logged-in customer of a company whose location's trimmed name is any
/// other text, be it by letter case alone, gets exactly one error: the
/// policy's message.
pub proof fn law_other_location_is_refused(policy: PolicyView, cart: CartView)
    requires
        cart.logged_in(),
        cart.company() is Some,
        trimmed(cart.company()->0.location.name) != trimmed(policy.required_location_name),
    ensures
        policy.evaluation(cart) == outcome_with(
            seq![policy.error_with(policy.policy_error_message)],
        ),
{
}

/// Every evaluation yields exactly one operation, a validation-add, and it
/// carries at most one error.
pub proof fn law_one_operation_at_most_one_error(policy: PolicyView, cart: CartView)
    ensures
        policy.evaluation(cart).operations.len() == 1,
        policy.evaluation(cart).operations[0] matches OperationView::ValidationAdd(operation)
            && operation.errors == policy.errors_of(policy.verdict_of(cart))
            && operation.errors.len() <= 1,
{
}

/// Evaluating the same cart again yields the same outcome: two outcomes of
/// carts that hold the same values, under policies that hold the same
/// values, are the same.
pub proof fn law_same_cart_same_outcome(
    first_policy: Policy,
    first: Input,
    first_result: CartValidationsGenerateRunResult,
    second_policy: Policy,
    second: Input,
    second_result: CartValidationsGenerateRunResult,
)
    requires
        first_policy@ == second_policy@,
        first@ == second@,
        first_result@ == first_policy@.evaluation(first@.cart),
        second_result@ == second_policy@.evaluation(second@.cart),
    ensures
        first_result@ == second_result@,
{
}

/// The same of the standard policy: two outcomes of requests that hold the
/// same values are the same.
pub proof fn law_same_request_same_outcome(
    first: Input,
    first_result: CartValidationsGenerateRunResult,
    second: Input,
    second_result: CartValidationsGenerateRunResult,
)
    requires
        first@ == second@,
        first_result@ == evaluation(first@.cart),
        second_result@ == evaluation(second@.cart),
    ensures
        first_result@ == second_result@,
{
}

/// White space around a location's name does not count: the name with white
/// space before and after it is allowed exactly when the name alone is.
pub proof fn law_white_space_around_name_is_ignored(
    policy: PolicyView,
    before: Seq<char>,
    name: Seq<char>,
    after: Seq<char>,
)
    requires
        all_white_space(before),
        all_white_space(after),
    ensures
        policy.location_allowed(before + name + after) == policy.location_allowed(name),
{
    lemma_trimmed_ignores_padding(before, name, after);
}

/// Nor does white space around the required name: any name that is the
/// required name with white space before and after it is allowed.
pub proof fn law_padded_required_name_is_allowed(
    policy: PolicyView,
    before: Seq<char>,
    after: Seq<char>,
)
    requires
        all_white_space(before),
        all_white_space(after),
    ensures
        policy.location_allowed(before + policy.required_location_name + after),
{
    lemma_trimmed_ignores_padding(before, policy.required_location_name, after);
}

} // verus!
