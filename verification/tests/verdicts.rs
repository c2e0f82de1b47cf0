use checkout_eligibility::cart::{BuyerIdentity, Cart, Customer, Location, PurchasingCompany};
use checkout_eligibility::policy::{
    Policy, Verdict, LOGIN_REQUIRED_MESSAGE, POLICY_ERROR_MESSAGE,
};
use checkout_eligibility::validation::ValidationError;

fn cart(customer: bool, location_name: Option<&str>) -> Cart {
    Cart {
        buyer_identity: Some(BuyerIdentity {
            customer: if customer { Some(Customer {}) } else { None },
            purchasing_company: location_name
                .map(|name| PurchasingCompany { location: Location { name: name.to_string() } }),
        }),
    }
}

fn is_logged_in(cart: &Cart) -> bool {
    cart.is_logged_in()
}

fn verdict(cart: &Cart) -> Verdict {
    Policy::default().verdict(cart)
}

#[test]
fn logged_in_needs_identity_and_customer() {
    assert!(!is_logged_in(&Cart { buyer_identity: None }));
    assert!(!is_logged_in(&cart(false, None)));
    assert!(!is_logged_in(&cart(false, Some("Location Admins"))));
    assert!(is_logged_in(&cart(true, None)));
    assert!(is_logged_in(&cart(true, Some("Warehouse"))));
}

#[test]
fn verdict_follows_the_order_of_the_checks() {
    assert_eq!(verdict(&Cart { buyer_identity: None }), Verdict::LoginRequired);
    assert_eq!(verdict(&cart(false, None)), Verdict::LoginRequired);
    assert_eq!(verdict(&cart(false, Some("Location Admins"))), Verdict::LoginRequired);
    assert_eq!(verdict(&cart(true, None)), Verdict::CompanyRequired);
    assert_eq!(verdict(&cart(true, Some("Warehouse"))), Verdict::LocationNotAllowed);
    assert_eq!(verdict(&cart(true, Some("location admins"))), Verdict::LocationNotAllowed);
    assert_eq!(verdict(&cart(true, Some("Location Admins"))), Verdict::Allowed);
    assert_eq!(verdict(&cart(true, Some("\tLocation Admins "))), Verdict::Allowed);
}

#[test]
fn verdict_messages() {
    assert_eq!(Policy::default().message(Verdict::Allowed), None);
    assert_eq!(
        Policy::default().message(Verdict::LoginRequired),
        Some("You must be logged in to complete this purchase. Please sign in to continue.")
    );
    assert_eq!(
        Policy::default().message(Verdict::CompanyRequired),
        Some("Only customers in the 'Location Admins' location are allowed to place orders. Please contact your administrator.")
    );
    assert_eq!(Policy::default().message(Verdict::LocationNotAllowed), Some(POLICY_ERROR_MESSAGE));
    assert_eq!(Policy::default().message(Verdict::LoginRequired), Some(LOGIN_REQUIRED_MESSAGE));
}

#[test]
fn verdict_errors() {
    assert_eq!(Policy::default().errors(Verdict::Allowed), Vec::<ValidationError>::new());
    assert_eq!(
        Policy::default().errors(Verdict::LoginRequired),
        vec![ValidationError {
            message: LOGIN_REQUIRED_MESSAGE.to_string(),
            target: "$.cart".to_string(),
        }]
    );
    for refused in [Verdict::CompanyRequired, Verdict::LocationNotAllowed] {
        assert_eq!(
            Policy::default().errors(refused),
            vec![ValidationError {
                message: POLICY_ERROR_MESSAGE.to_string(),
                target: "$.cart".to_string(),
            }]
        );
    }
}
