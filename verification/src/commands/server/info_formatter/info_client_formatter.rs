//! The lines about the clients and the channels.
use vstd::prelude::*;

use crate::text::{nat_to_decimal, push_u64, string_of};

verus! {

pub fn clients_connected(n: usize) -> (r: String)
    ensures
        r@ == "clients connected: "@ + nat_to_decimal(n as nat),
{
    let mut r = string_of("clients connected: ");
    push_u64(&mut r, n as u64);
    r
}

pub fn active_channels(n: usize) -> (r: String)
    ensures
        r@ == "active channels: "@ + nat_to_decimal(n as nat),
{
    let mut r = string_of("active channels: ");
    push_u64(&mut r, n as u64);
    r
}

} // verus!
