//! Per-resource broker clients: each builds the outbound request for one
//! management-API endpoint and projects the broker's answer into the
//! client-facing shape.

pub mod exchanges;
pub mod queues;
pub mod vhosts;

use vstd::prelude::*;
use vstd::string::StringExecFns;

use crate::auth_header_value;
use crate::authorization_header_name;
use crate::config::Config;
use crate::prepare_authorization_headers;
use crate::prepare_url;

verus! {

/// An outbound management-API request, ready for the transport: the full
/// URL, the headers to attach, and the body of a POST (`None` for a GET).
pub struct BrokerRequest {
    pub url: String,
    pub headers: Vec<(String, String)>,
    pub body: Option<String>,
}

/// What every outbound request carries: a URL joining the configured root
/// and the resource path with one slash, and a single `Authorization` header
/// for the configured credentials.
pub open spec fn request_basics(r: BrokerRequest, cfg: Config, path: Seq<char>) -> bool {
    &&& r.url@ == cfg.management_root@ + "/"@ + path
    &&& r.headers@.len() == 1
    &&& r.headers@[0].0@ == authorization_header_name()
    &&& r.headers@[0].1@ == auth_header_value(cfg.username@, cfg.password@)
}

/// Builds a GET request for the given resource path.
pub(crate) fn build_get(cfg: &Config, path: &str) -> (r: BrokerRequest)
    ensures
        request_basics(r, *cfg, path@),
        r.body is None,
{
    let url = match prepare_url(cfg.management_root.as_str(), path) {
        Ok(u) => u,
        Err(_) => {
            proof {
                assert(false);
            }
            String::new()
        },
    };
    let headers = prepare_authorization_headers(cfg.username.as_str(), cfg.password.as_str());
    BrokerRequest { url, headers, body: None }
}

} // verus!
