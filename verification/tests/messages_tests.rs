use rabbitmq_messages_management::config::Config;
use rabbitmq_messages_management::exceptions::FetchError;
use rabbitmq_messages_management::rabbitmq::queues::get_messages_from_a_queue;
use rabbitmq_messages_management::rabbitmq::queues::messages_request;
use rabbitmq_messages_management::rabbitmq::queues::MessageRetrievalRequest;
use rabbitmq_messages_management::rabbitmq::queues::Properties;
use rabbitmq_messages_management::rabbitmq::queues::RabbitMQMessage;
use rabbitmq_messages_management::routes::queues::messages;
use rabbitmq_messages_management::routes::queues::parse_message_count;

fn test_config() -> Config {
    Config::new(
        "http://broker:15672".to_string(),
        "guest".to_string(),
        "guest".to_string(),
    )
}

fn message(payload: &str, encoding: &str) -> RabbitMQMessage {
    RabbitMQMessage {
        payload_bytes: payload.len() as u64,
        redelivered: false,
        exchange: "".to_string(),
        routing_key: "q".to_string(),
        message_count: 0,
        properties: Properties {
            priority: None,
            delivery_mode: 1,
            content_type: None,
        },
        payload: payload.to_string(),
        payload_encoding: encoding.to_string(),
    }
}

#[test]
fn messages_request_forwards_count_in_body() {
    let cfg = test_config();
    let request = messages_request(&cfg, "v", "q", 7);
    assert_eq!(request.url, "http://broker:15672/api/queues/v/q/get");
    let body = request.body.unwrap();
    assert_eq!(
        body,
        "{\"vhost\":\"v\",\"name\":\"q\",\"ackmode\":\"ack_requeue_true\",\"encoding\":\"auto\",\"count\":7}"
    );
}

#[test]
fn messages_request_body_is_json_a_parser_reads_back() {
    let cfg = test_config();
    let request = messages_request(&cfg, "my vhost", "orders", 25);
    let body = request.body.unwrap();
    let parsed: serde_json::Value = serde_json::from_str(&body).unwrap();
    assert_eq!(parsed["vhost"].as_str(), Some("my vhost"));
    assert_eq!(parsed["name"].as_str(), Some("orders"));
    assert_eq!(parsed["ackmode"].as_str(), Some("ack_requeue_true"));
    assert_eq!(parsed["encoding"].as_str(), Some("auto"));
    assert_eq!(parsed["count"].as_u64(), Some(25));
}

#[test]
fn message_body_escaping_round_trips_through_a_parser() {
    let odd_name = "a\"b\\c\nd\te\u{1}f";
    let retrieval = MessageRetrievalRequest {
        vhost: odd_name.to_string(),
        name: "q".to_string(),
        ackmode: "ack_requeue_true".to_string(),
        encoding: "auto".to_string(),
        count: 1,
    };
    let body = retrieval.to_json();
    let parsed: serde_json::Value = serde_json::from_str(&body).unwrap();
    assert_eq!(parsed["vhost"].as_str(), Some(odd_name));
}

#[test]
fn message_count_zero_gives_zero_in_body() {
    let cfg = test_config();
    let request = messages_request(&cfg, "v", "q", 0);
    let body = request.body.unwrap();
    assert!(body.ends_with("\"count\":0}"));
}

#[test]
fn retrieval_returns_at_most_count_messages() {
    let fetched = Ok(vec![
        message("one", "string"),
        message("two", "string"),
        message("three", "base64"),
    ]);
    let projected = get_messages_from_a_queue(fetched, 2).unwrap();
    assert_eq!(projected.len(), 2);
    assert_eq!(projected[0].payload, "one");
    assert_eq!(projected[0].payload_encoding, "string");
    assert_eq!(projected[1].payload, "two");
}

#[test]
fn retrieval_returns_all_messages_when_fewer_than_count() {
    let fetched = Ok(vec![message("one", "string"), message("two", "base64")]);
    let projected = get_messages_from_a_queue(fetched, 5).unwrap();
    assert_eq!(projected.len(), 2);
    assert_eq!(projected[1].payload, "two");
    assert_eq!(projected[1].payload_encoding, "base64");
}

#[test]
fn retrieval_failure_becomes_error_value_not_panic() {
    let failure = FetchError::Request {
        message: "timed out".to_string(),
    };
    let err = get_messages_from_a_queue(Err(failure), 3).unwrap_err();
    assert_eq!(err.message, "timed out");
}

#[test]
fn messages_route_translates_failure_to_bad_gateway() {
    let failure = FetchError::Request {
        message: "timed out".to_string(),
    };
    let reply = messages(Err(failure), 3).unwrap_err();
    assert_eq!(reply.status, 502);
    assert_eq!(reply.reason, "timed out");
}

#[test]
fn messages_route_projects_payloads() {
    let fetched = Ok(vec![message("hello", "string")]);
    let replied = messages(fetched, 10).unwrap();
    assert_eq!(replied.len(), 1);
    assert_eq!(replied[0].payload, "hello");
}

#[test]
fn parse_message_count_reads_decimal() {
    assert_eq!(parse_message_count("42").unwrap(), 42);
    assert_eq!(parse_message_count("0").unwrap(), 0);
    assert_eq!(parse_message_count("007").unwrap(), 7);
    assert_eq!(
        parse_message_count("18446744073709551615").unwrap(),
        u64::MAX
    );
}

#[test]
fn parse_message_count_rejects_bad_input_with_400() {
    for bad in ["", "12a", "-1", " 7", "18446744073709551616"] {
        let reply = parse_message_count(bad).unwrap_err();
        assert_eq!(reply.status, 400);
        assert_eq!(reply.reason, "Bad request");
    }
}
