use rabbitmq_messages_management::config::Config;
use rabbitmq_messages_management::exceptions::FetchError;
use rabbitmq_messages_management::rabbitmq::exchanges::exchanges_request;
use rabbitmq_messages_management::rabbitmq::exchanges::get_exchanges_for_vhost;
use rabbitmq_messages_management::rabbitmq::exchanges::ExchangeRecord;
use rabbitmq_messages_management::rabbitmq::queues::get_queue_for_vhost;
use rabbitmq_messages_management::rabbitmq::queues::queues_request;
use rabbitmq_messages_management::routes::exchanges::exchanges;
use rabbitmq_messages_management::routes::queues::queues;

fn test_config() -> Config {
    Config::new(
        "http://broker:15672".to_string(),
        "guest".to_string(),
        "guest".to_string(),
    )
}

fn exchange(name: &str) -> ExchangeRecord {
    ExchangeRecord {
        auto_delete: false,
        durable: true,
        internal: false,
        name: name.to_string(),
        exchange_type: "direct".to_string(),
        user_who_performed_action: "guest".to_string(),
        vhost: "/".to_string(),
    }
}

#[test]
fn queues_request_carries_vhost_in_url() {
    let cfg = test_config();
    let request = queues_request(&cfg, "staging");
    assert_eq!(request.url, "http://broker:15672/api/queues/staging");
    assert_eq!(request.headers[0].0, "Authorization");
    assert!(request.body.is_none());
}

#[test]
fn queue_listing_passes_records_through_unchanged() {
    // The gateway never reads queue records, so any record type goes through.
    let records = vec!["queue-a".to_string(), "queue-b".to_string()];
    let listed = get_queue_for_vhost(Ok(records.clone())).unwrap();
    assert_eq!(listed, records);
}

#[test]
fn queue_listing_failure_becomes_error_value_not_panic() {
    let failure = FetchError::Deserialization {
        message: "missing field".to_string(),
    };
    let err = get_queue_for_vhost::<String>(Err(failure)).unwrap_err();
    assert_eq!(err.message, "missing field");
}

#[test]
fn queues_route_translates_failure_to_bad_gateway() {
    let failure = FetchError::Request {
        message: "connection reset".to_string(),
    };
    let reply = queues::<String>(Err(failure)).unwrap_err();
    assert_eq!(reply.status, 502);
    assert_eq!(reply.reason, "connection reset");
}

#[test]
fn exchanges_request_carries_vhost_in_url() {
    let cfg = test_config();
    let request = exchanges_request(&cfg, "prod");
    assert_eq!(request.url, "http://broker:15672/api/exchanges/prod");
    assert!(request.body.is_none());
}

#[test]
fn exchange_listing_projects_names_in_order() {
    let fetched = Ok(vec![exchange("amq.direct"), exchange("amq.topic"), exchange("")]);
    let names = get_exchanges_for_vhost(fetched).unwrap();
    assert_eq!(names, vec!["amq.direct", "amq.topic", ""]);
}

#[test]
fn exchanges_route_translates_failure_to_bad_gateway() {
    let failure = FetchError::Request {
        message: "no route to host".to_string(),
    };
    let reply = exchanges(Err(failure)).unwrap_err();
    assert_eq!(reply.status, 502);
    assert_eq!(reply.reason, "no route to host");
}
