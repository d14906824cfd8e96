use vstd::prelude::*;

verus! {

/// Something that coins can buy.
pub struct Item {
    pub name: String,
    pub cost: u64,
}

/// The items on offer, in order.
pub struct Shop(pub Vec<Item>);

impl Shop {
    /// A shop with nothing on offer.
    pub fn new() -> (r: Shop)
        ensures
            r.0@.len() == 0,
    {
        Shop(Vec::new())
    }
}

} // verus!
