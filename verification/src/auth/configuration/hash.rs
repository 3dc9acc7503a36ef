//! Settings of the password hasher.
use vstd::prelude::*;
use vstd::string::*;
use crate::text::{parse_unsigned, unsigned_value};

verus! {

pub const HASH_SECRET: &'static str = "HASH_SECRET";
pub const ARGON_LANES: &'static str = "ARGON_LANES";
pub const ARGON_TIME_COST: &'static str = "ARGON_TIME_COST";
pub const ARGON_MEMORY: &'static str = "ARGON_MEMORY";

pub type ArgonNumericInput = u32;

/// The hasher's secret key: the variable's value, or empty where unset.
pub fn secret(value: Option<String>) -> (key: String)
    ensures
        key@ == match value {
            Some(v) => v@,
            None => Seq::<char>::empty(),
        },
{
    match value {
        Some(v) => v,
        None => String::new(),
    }
}

/// Whether a numeric setting, where set, is a `u32`.
pub open spec fn numeric_setting_valid(value: Option<&str>) -> bool {
    value matches Some(text) ==> unsigned_value(text@, u32::MAX as nat) is Some
}

/// A numeric setting: its value where set, `default` where unset.
pub open spec fn numeric_setting(value: Option<&str>, default: u32) -> nat {
    match value {
        Some(text) => unsigned_value(text@, u32::MAX as nat).unwrap(),
        None => default as nat,
    }
}

fn read_numeric(value: Option<&str>, default: u32) -> (setting: ArgonNumericInput)
    requires
        numeric_setting_valid(value),
    ensures
        setting == numeric_setting(value, default),
{
    match value {
        Some(text) => {
            let parsed = parse_unsigned(text, u32::MAX as u64);
            parsed.unwrap() as u32
        },
        None => default,
    }
}

/// The hasher's lanes: 8 where unset.
pub fn lanes(value: Option<&str>) -> (lanes: ArgonNumericInput)
    requires
        numeric_setting_valid(value),
    ensures
        lanes == numeric_setting(value, 8),
{
    read_numeric(value, 8)
}

/// The hasher's time cost: 10 where unset.
pub fn time_cost(value: Option<&str>) -> (cost: ArgonNumericInput)
    requires
        numeric_setting_valid(value),
    ensures
        cost == numeric_setting(value, 10),
{
    read_numeric(value, 10)
}

/// The hasher's memory, in kibibytes: 2048 where unset.
pub fn memory_usage(value: Option<&str>) -> (memory: ArgonNumericInput)
    requires
        numeric_setting_valid(value),
    ensures
        memory == numeric_setting(value, 2048),
{
    read_numeric(value, 2048)
}

} // verus!
