//! The vhost listing: `GET {root}/api/vhosts`, projected to the names.

use vstd::prelude::*;
use vstd::string::StringExecFns;

use crate::config::Config;
use crate::exceptions::fetch_error_message;
use crate::exceptions::FetchError;
use crate::exceptions::ServerError;
use crate::rabbitmq::build_get;
use crate::rabbitmq::request_basics;
use crate::rabbitmq::BrokerRequest;

verus! {

/// What the gateway reads of a broker virtual host.
#[derive(Debug, Clone)]
pub struct VhostRecord {
    /// Name of the virtual host.
    pub name: String,
    /// Description of the virtual host.
    pub description: String,
    /// Tags associated with the virtual host.
    pub tags: Vec<String>,
    /// Indicates if tracing is enabled for the virtual host.
    pub tracing: bool,
}

/// Represents vhost names externally.
#[derive(Debug, Clone)]
pub struct ResponseForQueryingVhosts {
    /// Name of vhost.
    pub name: String,
}

/// Builds the outbound request for the vhost listing.
pub fn vhosts_request(cfg: &Config) -> (r: BrokerRequest)
    ensures
        request_basics(r, *cfg, "api/vhosts"@),
        r.body is None,
{
    build_get(cfg, "api/vhosts")
}

/// Projects the outcome of the vhost listing: on success exactly the names,
/// in order; on a transport failure a `ServerError` carrying its message.
pub fn get_vhosts(fetched: Result<Vec<VhostRecord>, FetchError>) -> (r: Result<
    Vec<ResponseForQueryingVhosts>,
    ServerError,
>)
    ensures
        fetched matches Ok(v) ==> r is Ok && r->Ok_0@.len() == v@.len() && (forall|i: int|
            0 <= i < v@.len() ==> #[trigger] r->Ok_0@[i].name@ == v@[i].name@),
        fetched matches Err(e) ==> r is Err && r->Err_0.message@ == fetch_error_message(e),
{
    match fetched {
        Ok(vhosts) => {
            let mut out: Vec<ResponseForQueryingVhosts> = Vec::new();
            let mut i: usize = 0;
            while i < vhosts.len()
                invariant
                    0 <= i <= vhosts@.len(),
                    out@.len() == i,
                    forall|j: int| 0 <= j < i ==> #[trigger] out@[j].name@ == vhosts@[j].name@,
                decreases vhosts@.len() - i,
            {
                let element = ResponseForQueryingVhosts { name: vhosts[i].name.clone() };
                let ghost prev = out@;
                out.push(element);
                proof {
                    assert forall|j: int| 0 <= j < i + 1 implies #[trigger] out@[j].name@
                        == vhosts@[j].name@ by {
                        if j < i {
                            assert(out@[j] == prev[j]);
                            assert(prev[j].name@ == vhosts@[j].name@);
                        } else {
                            assert(out@[j].name@ == vhosts@[j].name@);
                        }
                    }
                }
                i = i + 1;
            }
            Ok(out)
        },
        Err(e) => Err(ServerError::new(e.into_message())),
    }
}

} // verus!
