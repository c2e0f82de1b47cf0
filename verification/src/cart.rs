//! The cart as the checkout platform hands it over: only the part of it that
//! tells who is buying.

use vstd::prelude::*;

verus! {

/// A branch or office of a purchasing company.
#[derive(Clone, Debug, PartialEq, Eq)]
pub struct Location {
    pub name: String,
}

/// The business account on whose behalf a customer buys.
#[derive(Clone, Debug, PartialEq, Eq)]
pub struct PurchasingCompany {
    pub location: Location,
}

/// A customer account. Nothing of it is read but that it is there: a buyer
/// identity with a customer belongs to somebody who is logged in.
#[derive(Clone, Copy, Debug, PartialEq, Eq)]
pub struct Customer {}

/// Who is completing the checkout.
#[derive(Clone, Debug, PartialEq, Eq)]
pub struct BuyerIdentity {
    pub customer: Option<Customer>,
    pub purchasing_company: Option<PurchasingCompany>,
}

/// A cart at the moment its validations are generated.
#[derive(Clone, Debug, PartialEq, Eq)]
pub struct Cart {
    pub buyer_identity: Option<BuyerIdentity>,
}

/// What one request to generate validations carries.
#[derive(Clone, Debug, PartialEq, Eq)]
pub struct Input {
    pub cart: Cart,
}

/// A location as a mathematical value.
pub struct LocationView {
    pub name: Seq<char>,
}

/// A purchasing company as a mathematical value.
pub struct PurchasingCompanyView {
    pub location: LocationView,
}

/// A buyer identity as a mathematical value.
pub struct BuyerIdentityView {
    pub customer: Option<Customer>,
    pub purchasing_company: Option<PurchasingCompanyView>,
}

/// A cart as a mathematical value.
pub struct CartView {
    pub buyer_identity: Option<BuyerIdentityView>,
}

/// A request as a mathematical value.
pub struct InputView {
    pub cart: CartView,
}

impl View for Location {
    type V = LocationView;

    open spec fn view(&self) -> LocationView {
        LocationView { name: self.name@ }
    }
}

impl View for PurchasingCompany {
    type V = PurchasingCompanyView;

    open spec fn view(&self) -> PurchasingCompanyView {
        PurchasingCompanyView { location: self.location@ }
    }
}

impl View for BuyerIdentity {
    type V = BuyerIdentityView;

    open spec fn view(&self) -> BuyerIdentityView {
        BuyerIdentityView {
            customer: self.customer,
            purchasing_company: match self.purchasing_company {
                Some(company) => Some(company@),
                None => None,
            },
        }
    }
}

impl View for Cart {
    type V = CartView;

    open spec fn view(&self) -> CartView {
        CartView {
            buyer_identity: match self.buyer_identity {
                Some(buyer) => Some(buyer@),
                None => None,
            },
        }
    }
}

impl View for Input {
    type V = InputView;

    open spec fn view(&self) -> InputView {
        InputView { cart: self.cart@ }
    }
}

impl CartView {
    /// A customer is logged in when the cart has a buyer identity and the
    /// buyer identity has a customer.
    pub open spec fn logged_in(self) -> bool {
        self.buyer_identity matches Some(buyer) && buyer.customer is Some
    }

    /// The company that the buyer purchases for, if any.
    pub open spec fn company(self) -> Option<PurchasingCompanyView> {
        match self.buyer_identity {
            Some(buyer) => buyer.purchasing_company,
            None => None,
        }
    }
}

impl Cart {
    /// Whether a customer is logged in.
    pub fn is_logged_in(&self) -> (r: bool)
        ensures
            r == self@.logged_in(),
    {
        match &self.buyer_identity {
            Some(buyer) => buyer.customer.is_some(),
            None => false,
        }
    }
}

} // verus!
