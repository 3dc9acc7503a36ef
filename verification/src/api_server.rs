//! The first API server: where it listens and the answers of its GraphQL
//! playground resolvers. Its deployment checks are those of `environment`.
use vstd::prelude::*;
use vstd::string::*;
use crate::api::models::{Episode, Human, NewHuman};
use crate::environment::env_or_default;
use crate::text::{decimal_digits, decimal_text};

pub use crate::environment::{in_development, in_production, in_staging};

verus! {

pub const PORT: &'static str = "PORT";
pub const ADDRESS: &'static str = "IP";
pub const DEFAULT_PORT: u32 = 80;
pub const ALL_ADDRESSES: &'static str = "0.0.0.0";

/// `ip:port`, each taken from its variable (`None` where unset) or its
/// default, the default port written in decimal.
pub fn uri(ip: Option<String>, port: Option<String>) -> (address: String)
    ensures
        address@ == (match ip {
            Some(v) => v@,
            None => ALL_ADDRESSES@,
        }) + ":"@ + (match port {
            Some(v) => v@,
            None => decimal_digits(DEFAULT_PORT as nat),
        }),
{
    let mut address = env_or_default(ip, ALL_ADDRESSES);
    address.append(":");
    let port = match port {
        Some(p) => p,
        None => decimal_text(DEFAULT_PORT as u64),
    };
    address.append(port.as_str());
    address
}

/// The root of the queries.
pub struct Query;

/// The root of the mutations.
pub struct Mutation;

impl Query {
    /// A fixed human, whatever the id asked for: Luke, of Mars, seen in
    /// A New Hope, with id `1234`.
    pub fn human(&self, _id: &str) -> (human: Human)
        ensures
            human.id@ == "1234"@,
            human.name@ == "Luke"@,
            human.appears_in@ == seq![Episode::NewHope],
            human.home_planet@ == "Mars"@,
    {
        let mut appears_in = Vec::new();
        appears_in.push(Episode::NewHope);
        proof {
            assert(appears_in@ =~= seq![Episode::NewHope]);
        }
        Human {
            id: String::from_str("1234"),
            name: String::from_str("Luke"),
            appears_in,
            home_planet: String::from_str("Mars"),
        }
    }
}

impl Mutation {
    /// The created human: the new human's attributes under the id `1234`.
    #[allow(non_snake_case)]
    pub fn createHuman(&self, new_human: NewHuman) -> (human: Human)
        ensures
            human.id@ == "1234"@,
            human.name == new_human.name,
            human.appears_in == new_human.appears_in,
            human.home_planet == new_human.home_planet,
    {
        Human {
            id: String::from_str("1234"),
            name: new_human.name,
            appears_in: new_human.appears_in,
            home_planet: new_human.home_planet,
        }
    }
}

} // verus!
