//! A typed client library for the Steam Web API.
//!
//! Every remote endpoint follows the same pattern: assemble a query string
//! from explicitly typed parameters, form the full endpoint URL, perform an
//! HTTP GET, and map the JSON payload (or any failure) into a typed result.
//! This crate holds the verified core of that pattern: the query-string
//! encoders, the URL assembly, the response-shape resolution and the error
//! mapping. The network call itself and the raw JSON decoding live outside,
//! in an unverified shell that hands plain values in and out.

use vstd::prelude::*;

pub mod encode;
pub mod errors;
pub mod published_file_service;

verus! {

/// Base address of the remote Web API, as a sequence of characters.
pub open spec fn spec_base() -> Seq<char> {
    "https://api.steampowered.com"@
}

/// The base address that every endpoint URL starts from.
pub fn base() -> (r: &'static str)
    ensures
        r@ == spec_base(),
{
    "https://api.steampowered.com"
}

/// The full URL of one endpoint call:
/// `<base>/<interface>/<endpoint>/v<version>/<query>`.
pub open spec fn spec_endpoint_url(
    interface: Seq<char>,
    endpoint: Seq<char>,
    version: Seq<char>,
    query: Seq<char>,
) -> Seq<char> {
    spec_base() + "/"@ + interface + "/"@ + endpoint + "/v"@ + version + "/"@ + query
}

/// Forms the full URL of one endpoint call from its parts.
pub fn endpoint_url(interface: &str, endpoint: &str, version: &str, query: &str) -> (r: String)
    ensures
        r@ == spec_endpoint_url(interface@, endpoint@, version@, query@),
{
    let mut out = base().to_owned();
    out.append("/");
    out.append(interface);
    out.append("/");
    out.append(endpoint);
    out.append("/v");
    out.append(version);
    out.append("/");
    out.append(query);
    proof {
        assert(out@ =~= spec_endpoint_url(interface@, endpoint@, version@, query@));
    }
    out
}

/// The client handle: holds the API key that every endpoint call sends.
/// It is immutable after construction.
pub struct Steam {
    /// The Web API key appended to every query.
    pub api_key: String,
}

impl Steam {
    /// Creates a client handle from an API key.
    pub fn new(api_key: &str) -> (r: Steam)
        ensures
            r.api_key@ == api_key@,
    {
        Steam { api_key: api_key.to_owned() }
    }
}

} // verus!
