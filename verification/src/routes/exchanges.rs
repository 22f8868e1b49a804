//! The `/exchanges/<vhost>` route.

use vstd::prelude::*;

use crate::exceptions::fetch_error_message;
use crate::exceptions::FetchError;
use crate::rabbitmq::exchanges::get_exchanges_for_vhost;
use crate::rabbitmq::exchanges::ExchangeRecord;
use crate::routes::ErrorReply;

verus! {

/// Decides the `/exchanges/<vhost>` reply from the broker outcome: on
/// success exactly the exchange names, in order; on a transport failure a
/// `502 Bad Gateway` reply carrying the transport message.
pub fn exchanges(fetched: Result<Vec<ExchangeRecord>, FetchError>) -> (r: Result<
    Vec<String>,
    ErrorReply,
>)
    ensures
        fetched matches Ok(v) ==> r is Ok && r->Ok_0@.len() == v@.len() && (forall|i: int|
            0 <= i < v@.len() ==> #[trigger] r->Ok_0@[i]@ == v@[i].name@),
        fetched matches Err(e) ==> r is Err && r->Err_0.status == 502 && r->Err_0.reason@
            == fetch_error_message(e),
{
    match get_exchanges_for_vhost(fetched) {
        Ok(list) => Ok(list),
        Err(e) => Err(ErrorReply { status: 502, reason: e.message }),
    }
}

} // verus!
