//! The kitchen: breakfasts and appetizers, with a mix of public and private
//! fields to demonstrate visibility rules.

use vstd::prelude::*;

verus! {

/// A breakfast order.  The toast choice is public and may be changed by the
/// customer; the seasonal fruit is chosen by the kitchen and stays private,
/// so a `Breakfast` can only be constructed here, through [`Breakfast::summer`].
pub struct Breakfast {
    pub toast: String,
    seasonal_fruit: String,
}

/// An appetizer choice; every variant of a public enum is public.
pub enum Appetizer {
    Soup,
    Salad,
}

impl Breakfast {
    /// The chosen toast, as contracts speak of it.
    pub closed spec fn spec_toast(&self) -> Seq<char> {
        self.toast@
    }

    /// What the kitchen put beside the toast.
    pub closed spec fn spec_seasonal_fruit(&self) -> Seq<char> {
        self.seasonal_fruit@
    }

    /// The summer menu: the customer's choice of toast served with the
    /// kitchen's seasonal fruit, peaches.
    pub fn summer(toast: &str) -> (b: Breakfast)
        ensures
            b.spec_toast() == toast@,
            b.spec_seasonal_fruit() == "peaches"@,
    {
        Breakfast { toast: toast.to_owned(), seasonal_fruit: "peaches".to_owned() }
    }

    /// Reads the kitchen's fruit choice.
    pub fn seasonal_fruit(&self) -> (r: &str)
        ensures
            r@ == self.spec_seasonal_fruit(),
    {
        self.seasonal_fruit.as_str()
    }
}

} // verus!
