//! Where the API service listens and where its GraphQL endpoint is.
//!
//! The caller reads the `IP` and `PORT` variables; `None` stands for unset.
use vstd::prelude::*;
use vstd::string::*;
use crate::environment::env_or_default;

verus! {

pub const PORT: &'static str = "PORT";
pub const ADDRESS: &'static str = "IP";
pub const DEFAULT_PORT: &'static str = "3000";
pub const ALL_ADDRESSES: &'static str = "0.0.0.0";

pub const GRAPHQL_ENDPOINT: &'static str = "graphql";
pub const REDIS_IP: &'static str = "127.0.0.2:6379";

/// The setting found, or the default where none was.
pub open spec fn setting_or(value: Option<String>, default: Seq<char>) -> Seq<char> {
    match value {
        Some(v) => v@,
        None => default,
    }
}

/// `ip:port`, each taken from its variable or its default.
pub open spec fn uri_text(ip: Option<String>, port: Option<String>) -> Seq<char> {
    setting_or(ip, ALL_ADDRESSES@) + ":"@ + setting_or(port, DEFAULT_PORT@)
}

/// The address the service listens at.
pub fn uri(ip: Option<String>, port: Option<String>) -> (address: String)
    ensures
        address@ == uri_text(ip, port),
{
    let mut address = env_or_default(ip, ALL_ADDRESSES);
    address.append(":");
    let port = env_or_default(port, DEFAULT_PORT);
    address.append(port.as_str());
    address
}

/// The URL of the GraphQL endpoint at that address.
pub fn graphql(ip: Option<String>, port: Option<String>) -> (url: String)
    ensures
        url@ == "http://"@ + uri_text(ip, port) + "/"@ + GRAPHQL_ENDPOINT@,
{
    let mut url = String::from_str("http://");
    let address = uri(ip, port);
    url.append(address.as_str());
    url.append("/");
    url.append(GRAPHQL_ENDPOINT);
    url
}

} // verus!
