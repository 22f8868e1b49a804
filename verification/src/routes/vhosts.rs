//! The `/vhosts` route.

use vstd::prelude::*;

use crate::exceptions::fetch_error_message;
use crate::exceptions::FetchError;
use crate::rabbitmq::vhosts::get_vhosts;
use crate::rabbitmq::vhosts::ResponseForQueryingVhosts;
use crate::rabbitmq::vhosts::VhostRecord;
use crate::routes::ErrorReply;

verus! {

/// Decides the `/vhosts` reply from the broker outcome: on success exactly
/// the name-projected list, in order; on a transport failure a `502 Bad
/// Gateway` reply carrying the transport message.
pub fn vhosts(fetched: Result<Vec<VhostRecord>, FetchError>) -> (r: Result<
    Vec<ResponseForQueryingVhosts>,
    ErrorReply,
>)
    ensures
        fetched matches Ok(v) ==> r is Ok && r->Ok_0@.len() == v@.len() && (forall|i: int|
            0 <= i < v@.len() ==> #[trigger] r->Ok_0@[i].name@ == v@[i].name@),
        fetched matches Err(e) ==> r is Err && r->Err_0.status == 502 && r->Err_0.reason@
            == fetch_error_message(e),
{
    match get_vhosts(fetched) {
        Ok(list) => Ok(list),
        Err(e) => Err(ErrorReply { status: 502, reason: e.message }),
    }
}

} // verus!
