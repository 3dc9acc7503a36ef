//! The service's greeting page, which counts its visitors.
use vstd::prelude::*;
use vstd::string::*;
use crate::text::{decimal_digits, decimal_text};

verus! {

/// The decimal numeral of `n`, with a minus sign where it is negative.
pub open spec fn signed_decimal(n: int) -> Seq<char> {
    if n < 0 {
        "-"@ + decimal_digits((-n) as nat)
    } else {
        decimal_digits(n as nat)
    }
}

/// The greeting of the `visitor`-th visitor of `app_name`.
pub open spec fn welcome_text(app_name: Seq<char>, visitor: int) -> Seq<char> {
    "Welcome to "@ + app_name + "! you're visitor #"@ + signed_decimal(visitor)
}

/// Counts one more visitor and greets them by their number.
pub fn hello_world(app_name: &str, counter: &mut i32) -> (body: String)
    requires
        *old(counter) < i32::MAX,
    ensures
        *final(counter) == *old(counter) + 1,
        body@ == welcome_text(app_name@, *final(counter) as int),
{
    *counter = *counter + 1;
    let visitor = *counter;
    let mut body = String::from_str("Welcome to ");
    body.append(app_name);
    body.append("! you're visitor #");
    let number = if visitor < 0 {
        let mut signed = String::from_str("-");
        let magnitude: u64 = (0i64 - (visitor as i64)) as u64;
        signed.append(decimal_text(magnitude).as_str());
        signed
    } else {
        decimal_text(visitor as u64)
    };
    body.append(number.as_str());
    proof {
        reveal_strlit("Welcome to ");
        reveal_strlit("! you're visitor #");
        reveal_strlit("-");
    }
    body
}

} // verus!
