//! Settings of the tokens.
use vstd::prelude::*;
use vstd::string::*;
use crate::text::{parse_unsigned, unsigned_value};

verus! {

pub const JWT_SECRET: &'static str = "JWT_SECRET";
pub const JWT_EXPIRATION: &'static str = "JWT_EXPIRATION";
pub const DEFAULT_EXPIRATION: &'static str = "500000";
pub const DEFAULT_USIZE_EXPIRATION: usize = 500000;

/// The expiration written into tokens: the variable read as a number where
/// it is one, otherwise `DEFAULT_USIZE_EXPIRATION` (also where unset).
pub fn expiration(value: Option<&str>) -> (exp: usize)
    ensures
        exp == match unsigned_value(
            match value {
                Some(text) => text@,
                None => DEFAULT_EXPIRATION@,
            },
            usize::MAX as nat,
        ) {
            Some(n) => n as usize,
            None => DEFAULT_USIZE_EXPIRATION,
        },
{
    let text = match value {
        Some(text) => text,
        None => DEFAULT_EXPIRATION,
    };
    match parse_unsigned(text, usize::MAX as u64) {
        Some(n) => n as usize,
        None => DEFAULT_USIZE_EXPIRATION,
    }
}

/// The key that signs tokens: the variable's value, or empty where unset.
pub fn secret(value: Option<String>) -> (key: String)
    ensures
        key@ == match value {
            Some(v) => v@,
            None => Seq::<char>::empty(),
        },
{
    match value {
        Some(v) => v,
        None => String::new(),
    }
}

} // verus!
