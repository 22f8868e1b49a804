//! The exchange listing: `GET {root}/api/exchanges/{vhost}`, projected to
//! the exchange names.

use vstd::prelude::*;
use vstd::string::StringExecFns;

use crate::config::Config;
use crate::exceptions::fetch_error_message;
use crate::exceptions::FetchError;
use crate::exceptions::ServerError;
use crate::rabbitmq::build_get;
use crate::rabbitmq::request_basics;
use crate::rabbitmq::BrokerRequest;

verus! {

/// What the gateway reads of a broker exchange.
#[derive(Debug, Clone)]
pub struct ExchangeRecord {
    /// Auto delete setting for the exchange.
    pub auto_delete: bool,
    /// Durability of the exchange.
    pub durable: bool,
    /// Is the exchange internal?
    pub internal: bool,
    /// Name of the exchange.
    pub name: String,
    /// Type of the exchange.
    pub exchange_type: String,
    pub user_who_performed_action: String,
    /// Vhost the exchange belongs to.
    pub vhost: String,
}

/// The resource path of the exchange listing for one vhost.
pub open spec fn exchanges_path(vhost: Seq<char>) -> Seq<char> {
    "api/exchanges/"@ + vhost
}

/// Builds the outbound request for the exchange listing of one vhost.
pub fn exchanges_request(cfg: &Config, vhost: &str) -> (r: BrokerRequest)
    ensures
        request_basics(r, *cfg, exchanges_path(vhost@)),
        r.body is None,
{
    let mut path = String::from_str("api/exchanges/");
    path.append(vhost);
    build_get(cfg, path.as_str())
}

/// Projects the outcome of the exchange listing: on success exactly the
/// exchange names, in order; on a transport failure a `ServerError` carrying
/// its message.
pub fn get_exchanges_for_vhost(fetched: Result<Vec<ExchangeRecord>, FetchError>) -> (r: Result<
    Vec<String>,
    ServerError,
>)
    ensures
        fetched matches Ok(v) ==> r is Ok && r->Ok_0@.len() == v@.len() && (forall|i: int|
            0 <= i < v@.len() ==> #[trigger] r->Ok_0@[i]@ == v@[i].name@),
        fetched matches Err(e) ==> r is Err && r->Err_0.message@ == fetch_error_message(e),
{
    match fetched {
        Ok(exchanges) => {
            let mut out: Vec<String> = Vec::new();
            let mut i: usize = 0;
            while i < exchanges.len()
                invariant
                    0 <= i <= exchanges@.len(),
                    out@.len() == i,
                    forall|j: int| 0 <= j < i ==> #[trigger] out@[j]@ == exchanges@[j].name@,
                decreases exchanges@.len() - i,
            {
                out.push(exchanges[i].name.clone());
                i = i + 1;
            }
            Ok(out)
        },
        Err(e) => Err(ServerError::new(e.into_message())),
    }
}

} // verus!
