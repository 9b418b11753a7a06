//! The lines about the server.
use vstd::prelude::*;

use crate::text::{nat_to_decimal, push_text, push_u64, string_of};

verus! {

pub fn title() -> (r: String)
    ensures
        r@ == "SERVER:"@,
{
    string_of("SERVER:")
}

pub fn ip(address: &str) -> (r: String)
    ensures
        r@ == "ip: "@ + address@,
{
    let mut r = string_of("ip: ");
    push_text(&mut r, address);
    r
}

pub fn port(number: &str) -> (r: String)
    ensures
        r@ == "tcp port: "@ + number@,
{
    let mut r = string_of("tcp port: ");
    push_text(&mut r, number);
    r
}

pub fn verbose_level(v: usize) -> (r: String)
    ensures
        r@ == "verbose level: "@ + nat_to_decimal(v as nat),
{
    let mut r = string_of("verbose level: ");
    push_u64(&mut r, v as u64);
    r
}

pub fn client_timeout(t: u64) -> (r: String)
    ensures
        r@ == "connection timeout: "@ + nat_to_decimal(t as nat),
{
    let mut r = string_of("connection timeout: ");
    push_u64(&mut r, t);
    r
}

pub fn logfile_name(name: &str) -> (r: String)
    ensures
        r@ == "log file name: "@ + name@,
{
    let mut r = string_of("log file name: ");
    push_text(&mut r, name);
    r
}

} // verus!
