//! The `/queues/<vhost>` and `/queues/<vhost>/<queue>?count=` routes.

use vstd::prelude::*;

use crate::exceptions::fetch_error_message;
use crate::exceptions::FetchError;
use crate::rabbitmq::queues::get_messages_from_a_queue;
use crate::rabbitmq::queues::get_queue_for_vhost;
use crate::rabbitmq::queues::RabbitMQMessage;
use crate::rabbitmq::queues::ResponseForQueryingMessages;
use crate::routes::bad_request;
use crate::routes::ErrorReply;
use crate::text::all_decimal_digits;
use crate::text::decimal_value;
use crate::text::parse_decimal;

verus! {

/// Decides the `/queues/<vhost>` reply from the broker outcome: the queue
/// records pass through unchanged on success; on a transport failure a `502
/// Bad Gateway` reply carrying the transport message.
pub fn queues<Q>(fetched: Result<Vec<Q>, FetchError>) -> (r: Result<Vec<Q>, ErrorReply>)
    ensures
        fetched matches Ok(v) ==> r is Ok && r->Ok_0 == v,
        fetched matches Err(e) ==> r is Err && r->Err_0.status == 502 && r->Err_0.reason@
            == fetch_error_message(e),
{
    match get_queue_for_vhost(fetched) {
        Ok(list) => Ok(list),
        Err(e) => Err(ErrorReply { status: 502, reason: e.message }),
    }
}

/// Reads the `count` query parameter of the message route: `Ok` exactly when
/// it is a decimal number that fits, a `400 Bad Request` reply otherwise.
pub fn parse_message_count(count: &str) -> (r: Result<u64, ErrorReply>)
    ensures
        r is Ok <==> (count@.len() > 0 && all_decimal_digits(count@) && decimal_value(count@)
            <= u64::MAX),
        r matches Ok(n) ==> n == decimal_value(count@),
        r is Err ==> r->Err_0.status == 400 && r->Err_0.reason@ == "Bad request"@,
{
    match parse_decimal(count) {
        Some(n) => Ok(n),
        None => {
            let reply = bad_request();
            Err(ErrorReply { status: 400, reason: reply.1 })
        },
    }
}

/// Decides the `/queues/<vhost>/<queue>?count=` reply from the broker
/// outcome: on success at most `count` messages, each projected to payload
/// and encoding, in order; on a transport failure a `502 Bad Gateway` reply
/// carrying the transport message.
pub fn messages(fetched: Result<Vec<RabbitMQMessage>, FetchError>, count: u64) -> (r: Result<
    Vec<ResponseForQueryingMessages>,
    ErrorReply,
>)
    ensures
        fetched matches Ok(v) ==> r is Ok && r->Ok_0@.len() == vstd::math::min(
            v@.len() as int,
            count as int,
        ) && (forall|i: int|
            0 <= i < r->Ok_0@.len() ==> #[trigger] r->Ok_0@[i].payload@ == v@[i].payload@
                && r->Ok_0@[i].payload_encoding@ == v@[i].payload_encoding@),
        fetched matches Err(e) ==> r is Err && r->Err_0.status == 502 && r->Err_0.reason@
            == fetch_error_message(e),
{
    match get_messages_from_a_queue(fetched, count) {
        Ok(list) => Ok(list),
        Err(e) => Err(ErrorReply { status: 502, reason: e.message }),
    }
}

} // verus!
