//! The lines about a database.
use vstd::prelude::*;

use crate::text::{nat_to_decimal, push_u64, string_of};

verus! {

pub fn title() -> (r: String)
    ensures
        r@ == "DATABASE:"@,
{
    string_of("DATABASE:")
}

pub fn number_of_keys(n: usize) -> (r: String)
    ensures
        r@ == "Number of keys: "@ + nat_to_decimal(n as nat),
{
    let mut r = string_of("Number of keys: ");
    push_u64(&mut r, n as u64);
    r
}

} // verus!
