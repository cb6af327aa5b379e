use std::convert::Infallible;

use pair::{HasDependent, Owner, Pair};

struct ContraOwner;

impl HasDependent for ContraOwner {
    type Dependent = fn(&'static u32);
}

impl Owner for ContraOwner {
    type Context = ();
    type Error = Infallible;

    fn make_dependent(&self, (): ()) -> Result<fn(&'static u32), Infallible> {
        Ok(|_| {})
    }
}

fn dependent_function_example<'self_borrow>(pair: &'self_borrow Pair<ContraOwner>) {
    // The dependent here is itself a function pointer; the accessor hands out
    // a reference to it that lives as long as the borrow of the pair.
    let f: &'self_borrow fn(&'static u32) = pair.with_dependent(|f| f);

    f(&42);
}

#[test]
fn examples() {
    dependent_function_example(&Pair::new(ContraOwner));
}
