//! The answers of the service's GraphQL resolvers. The schema that exposes
//! them is built by the caller.
use vstd::prelude::*;
use vstd::string::*;
use crate::api::models::{Credentials, Human, NewHuman};

verus! {

/// The id that every created human is given.
pub const CREATED_HUMAN_ID: &'static str = "1234";

/// The root of the queries.
pub struct Query;

/// The playground queries.
pub struct Playground;

/// The credential queries.
pub struct Auth;

/// The root of the mutations.
pub struct Mutation;

impl Query {
    /// The playground queries.
    pub fn playground(&self) -> Playground {
        Playground
    }

    /// The credential queries.
    pub fn credentials(&self) -> Auth {
        Auth
    }
}

impl Auth {
    /// The credentials stored for a user: a fixed record for now, whatever
    /// the name asked for.
    pub fn get_credentials(&self, _username: &str) -> (credentials: Credentials)
        ensures
            credentials.username@ == "testing"@,
            credentials.password@ == "hashedPassword"@,
    {
        Credentials {
            username: String::from_str("testing"),
            password: String::from_str("hashedPassword"),
        }
    }
}

impl Mutation {
    /// The human to create: the new human's attributes under the id
    /// `CREATED_HUMAN_ID`. Caching it is the caller's part.
    pub fn create_human(&self, new_human: &NewHuman) -> (human: Human)
        ensures
            human.id@ == CREATED_HUMAN_ID@,
            human.name == new_human.name,
            human.appears_in@ == new_human.appears_in@,
            human.home_planet == new_human.home_planet,
    {
        Human {
            id: String::from_str(CREATED_HUMAN_ID),
            name: new_human.name.clone(),
            appears_in: new_human.appears_in.clone(),
            home_planet: new_human.home_planet.clone(),
        }
    }
}

} // verus!
