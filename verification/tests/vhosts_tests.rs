use rabbitmq_messages_management::config::Config;
use rabbitmq_messages_management::exceptions::FetchError;
use rabbitmq_messages_management::rabbitmq::vhosts::get_vhosts;
use rabbitmq_messages_management::rabbitmq::vhosts::vhosts_request;
use rabbitmq_messages_management::rabbitmq::vhosts::VhostRecord;
use rabbitmq_messages_management::routes::vhosts::vhosts;

fn test_config() -> Config {
    Config::new(
        "http://broker:15672".to_string(),
        "guest".to_string(),
        "guest".to_string(),
    )
}

/// Reads a broker vhost listing out of its JSON text, the way the transport
/// layer would before handing the records to the library.
fn records_from_json(body: &str) -> Vec<VhostRecord> {
    let parsed: serde_json::Value = serde_json::from_str(body).unwrap();
    parsed
        .as_array()
        .unwrap()
        .iter()
        .map(|v| VhostRecord {
            name: v["name"].as_str().unwrap().to_string(),
            description: v["description"].as_str().unwrap_or("").to_string(),
            tags: v["tags"]
                .as_array()
                .map(|tags| {
                    tags.iter()
                        .map(|t| t.as_str().unwrap_or("").to_string())
                        .collect()
                })
                .unwrap_or_default(),
            tracing: v["tracing"].as_bool().unwrap_or(false),
        })
        .collect()
}

const FIXED_VHOST_LIST: &str = r#"[
  {"cluster_state":{},"description":"Default virtual host","metadata":{"description":"","tags":[]},"name":"/","tags":[],"tracing":false},
  {"cluster_state":{},"description":"","metadata":{"description":"","tags":[]},"name":"staging","tags":["team-a"],"tracing":true},
  {"cluster_state":{},"description":"","metadata":{"description":"","tags":[]},"name":"prod","tags":[],"tracing":false}
]"#;

#[test]
fn fixed_json_vhost_list_projects_to_names_in_order() {
    let records = records_from_json(FIXED_VHOST_LIST);
    let projected = vhosts(Ok(records)).unwrap();
    let names: Vec<&str> = projected.iter().map(|v| v.name.as_str()).collect();
    assert_eq!(names, vec!["/", "staging", "prod"]);
}

#[test]
fn get_vhosts_projects_names_in_order() {
    let records = records_from_json(FIXED_VHOST_LIST);
    let projected = get_vhosts(Ok(records)).unwrap();
    assert_eq!(projected.len(), 3);
    assert_eq!(projected[0].name, "/");
    assert_eq!(projected[1].name, "staging");
    assert_eq!(projected[2].name, "prod");
}

#[test]
fn get_vhosts_of_empty_list_is_empty() {
    let projected = get_vhosts(Ok(Vec::new())).unwrap();
    assert!(projected.is_empty());
}

#[test]
fn broker_failure_becomes_error_value_not_panic() {
    let failure = FetchError::Request {
        message: "connection refused".to_string(),
    };
    let err = get_vhosts(Err(failure)).unwrap_err();
    assert_eq!(err.message, "connection refused");
}

#[test]
fn vhosts_route_translates_failure_to_bad_gateway() {
    let failure = FetchError::Deserialization {
        message: "expected an array".to_string(),
    };
    let reply = vhosts(Err(failure)).unwrap_err();
    assert_eq!(reply.status, 502);
    assert_eq!(reply.reason, "expected an array");
}

#[test]
fn vhosts_request_carries_url_and_auth_header() {
    let cfg = test_config();
    let request = vhosts_request(&cfg);
    assert_eq!(request.url, "http://broker:15672/api/vhosts");
    assert_eq!(request.headers.len(), 1);
    assert_eq!(request.headers[0].0, "Authorization");
    assert_eq!(request.headers[0].1, "Basic Z3Vlc3Q6Z3Vlc3Q=");
    assert!(request.body.is_none());
}
