//! The queue listing and message retrieval: `GET {root}/api/queues/{vhost}`
//! passed through unchanged, and `POST {root}/api/queues/{vhost}/{queue}/get`
//! with a framed JSON body, projected to payload and encoding.

use vstd::prelude::*;
use vstd::string::StringExecFns;

use crate::config::Config;
use crate::exceptions::fetch_error_message;
use crate::exceptions::FetchError;
use crate::exceptions::ServerError;
use crate::rabbitmq::build_get;
use crate::rabbitmq::request_basics;
use crate::rabbitmq::BrokerRequest;
use crate::text::append_json_escaped;
use crate::text::decimal_of;
use crate::text::json_escaped;
use crate::text::push_decimal;

verus! {

/// Represents the properties of a broker message that the gateway reads as
/// plain values. Arbitrary per-message headers stay with the transport.
#[derive(Debug, Clone)]
pub struct Properties {
    /// Priority of the message.
    pub priority: Option<u8>,
    /// Delivery mode of the message.
    pub delivery_mode: u8,
    /// Content type of the message.
    pub content_type: Option<String>,
}

/// Represents a broker message.
#[derive(Debug, Clone)]
pub struct RabbitMQMessage {
    /// Number of bytes in the payload.
    pub payload_bytes: u64,
    /// Indicates if the message was redelivered.
    pub redelivered: bool,
    /// Name of the exchange.
    pub exchange: String,
    /// Routing key used for the message.
    pub routing_key: String,
    /// Number of messages in the queue.
    pub message_count: u64,
    /// Properties of the message.
    pub properties: Properties,
    /// Payload of the message.
    pub payload: String,
    /// Encoding of the payload.
    pub payload_encoding: String,
}

/// API response for querying messages from a queue.
#[derive(Debug, Clone)]
pub struct ResponseForQueryingMessages {
    /// Payload from a queue.
    pub payload: String,
    /// Encoding of the payload.
    pub payload_encoding: String,
}

/// Represents the request for retrieving messages from a queue.
#[derive(Debug, Clone)]
pub struct MessageRetrievalRequest {
    /// Vhost of the queue.
    pub vhost: String,
    /// Name of the queue.
    pub name: String,
    /// For requeuing, do `ack_requeue_true`.
    pub ackmode: String,
    /// Must be either `auto` (payload returned as a string if it is valid
    /// UTF-8, Base64-encoded otherwise) or `base64`.
    pub encoding: String,
    /// Controls the maximum number of messages to get. The broker may hand
    /// back fewer messages than this if the queue cannot immediately provide
    /// them.
    pub count: u64,
}

/// The JSON text of a message-retrieval request body: the string fields in
/// JSON-escaped form, and `count` verbatim as a decimal number.
pub open spec fn message_request_text(
    vhost: Seq<char>,
    name: Seq<char>,
    ackmode: Seq<char>,
    encoding: Seq<char>,
    count: nat,
) -> Seq<char> {
    "{\"vhost\":\""@ + json_escaped(vhost) + "\",\"name\":\""@ + json_escaped(name)
        + "\",\"ackmode\":\""@ + json_escaped(ackmode) + "\",\"encoding\":\""@ + json_escaped(
        encoding,
    ) + "\",\"count\":"@ + decimal_of(count) + "}"@
}

impl MessageRetrievalRequest {
    /// Frames the request as the JSON body sent to the broker.
    pub fn to_json(&self) -> (r: String)
        ensures
            r@ == message_request_text(
                self.vhost@,
                self.name@,
                self.ackmode@,
                self.encoding@,
                self.count as nat,
            ),
    {
        let mut out = String::from_str("{\"vhost\":\"");
        append_json_escaped(&mut out, self.vhost.as_str());
        out.append("\",\"name\":\"");
        append_json_escaped(&mut out, self.name.as_str());
        out.append("\",\"ackmode\":\"");
        append_json_escaped(&mut out, self.ackmode.as_str());
        out.append("\",\"encoding\":\"");
        append_json_escaped(&mut out, self.encoding.as_str());
        out.append("\",\"count\":");
        push_decimal(&mut out, self.count);
        out.append("}");
        out
    }
}

/// The resource path of the queue listing for one vhost.
pub open spec fn queues_path(vhost: Seq<char>) -> Seq<char> {
    "api/queues/"@ + vhost
}

/// The resource path of message retrieval from one queue.
pub open spec fn messages_path(vhost: Seq<char>, queue: Seq<char>) -> Seq<char> {
    "api/queues/"@ + vhost + "/"@ + queue + "/get"@
}

/// Builds the outbound request for the queue listing of one vhost.
pub fn queues_request(cfg: &Config, vhost: &str) -> (r: BrokerRequest)
    ensures
        request_basics(r, *cfg, queues_path(vhost@)),
        r.body is None,
{
    let mut path = String::from_str("api/queues/");
    path.append(vhost);
    build_get(cfg, path.as_str())
}

/// Builds the outbound POST request that retrieves up to `count` messages
/// from one queue, requeueing them: the body carries exactly `count`.
pub fn messages_request(cfg: &Config, vhost: &str, queue_name: &str, count: u64) -> (r:
    BrokerRequest)
    ensures
        request_basics(r, *cfg, messages_path(vhost@, queue_name@)),
        r.body matches Some(b) && b@ == message_request_text(
            vhost@,
            queue_name@,
            "ack_requeue_true"@,
            "auto"@,
            count as nat,
        ),
{
    let mut path = String::from_str("api/queues/");
    path.append(vhost);
    path.append("/");
    path.append(queue_name);
    path.append("/get");
    let mut request = build_get(cfg, path.as_str());
    let retrieval = MessageRetrievalRequest {
        vhost: String::from_str(vhost),
        name: String::from_str(queue_name),
        ackmode: String::from_str("ack_requeue_true"),
        encoding: String::from_str("auto"),
        count,
    };
    request.body = Some(retrieval.to_json());
    request
}

/// Passes the outcome of the queue listing through: the gateway does not
/// reshape queue records, so this is generic over them; a transport failure
/// becomes a `ServerError` carrying its message.
pub fn get_queue_for_vhost<Q>(fetched: Result<Vec<Q>, FetchError>) -> (r: Result<
    Vec<Q>,
    ServerError,
>)
    ensures
        fetched matches Ok(v) ==> r is Ok && r->Ok_0 == v,
        fetched matches Err(e) ==> r is Err && r->Err_0.message@ == fetch_error_message(e),
{
    match fetched {
        Ok(queues) => Ok(queues),
        Err(e) => Err(ServerError::new(e.into_message())),
    }
}

/// Projects the outcome of message retrieval: on success the payload and its
/// encoding of each message, in order, and never more than `count` of them;
/// on a transport failure a `ServerError` carrying its message.
pub fn get_messages_from_a_queue(
    fetched: Result<Vec<RabbitMQMessage>, FetchError>,
    count: u64,
) -> (r: Result<Vec<ResponseForQueryingMessages>, ServerError>)
    ensures
        fetched matches Ok(v) ==> r is Ok && r->Ok_0@.len() == vstd::math::min(
            v@.len() as int,
            count as int,
        ) && (forall|i: int|
            0 <= i < r->Ok_0@.len() ==> #[trigger] r->Ok_0@[i].payload@ == v@[i].payload@
                && r->Ok_0@[i].payload_encoding@ == v@[i].payload_encoding@),
        fetched matches Err(e) ==> r is Err && r->Err_0.message@ == fetch_error_message(e),
{
    match fetched {
        Ok(messages) => {
            let mut out: Vec<ResponseForQueryingMessages> = Vec::new();
            let mut i: usize = 0;
            while i < messages.len() && (i as u64) < count
                invariant
                    0 <= i <= messages@.len(),
                    i as u64 <= count,
                    out@.len() == i,
                    forall|j: int|
                        0 <= j < i ==> #[trigger] out@[j].payload@ == messages@[j].payload@
                            && out@[j].payload_encoding@ == messages@[j].payload_encoding@,
                decreases messages@.len() - i,
            {
                out.push(
                    ResponseForQueryingMessages {
                        payload: messages[i].payload.clone(),
                        payload_encoding: messages[i].payload_encoding.clone(),
                    },
                );
                proof {
                    assert forall|j: int|
                        0 <= j < i + 1 implies #[trigger] out@[j].payload@ == messages@[j].payload@
                        && out@[j].payload_encoding@ == messages@[j].payload_encoding@ by {
                        assert(out@[i as int].payload@ == messages@[i as int].payload@);
                        assert(out@[i as int].payload_encoding@ == messages@[
                            i as int
                        ].payload_encoding@);
                    }
                }
                i = i + 1;
            }
            proof {
                assert(out@.len() as int == vstd::math::min(messages@.len() as int, count as int));
            }
            Ok(out)
        },
        Err(e) => Err(ServerError::new(e.into_message())),
    }
}

} // verus!
