use graphgate_k8s::find_graphql_services;
use graphgate_k8s::resolve_namespace;
use graphgate_k8s::synthesize_address;
use graphgate_k8s::AddressMap;
use graphgate_k8s::ServiceResource;
use graphgate_k8s::DEFAULT_NAMESPACE;
use graphgate_k8s::LABEL_GRAPHQL_PROTOCOL;
use graphgate_k8s::LABEL_GRAPHQL_SERVICE;

fn labeled(service: &str, protocol: &str) -> Vec<(String, String)> {
    vec![
        (LABEL_GRAPHQL_SERVICE.to_string(), service.to_string()),
        (LABEL_GRAPHQL_PROTOCOL.to_string(), protocol.to_string()),
    ]
}

#[test]
fn eligible_resource_yields_entry() {
    let users = ServiceResource {
        name: Some("users-svc".to_string()),
        labels: labeled("users", "http"),
        ports: vec![4000],
    };
    let table = find_graphql_services(&vec![users]);
    assert_eq!(table.len(), 1);
    assert_eq!(table.get("users").map(String::as_str), Some("http://users-svc:4000"));
}

#[test]
fn missing_protocol_label_filters_resource() {
    let orders = ServiceResource {
        name: Some("orders-svc".to_string()),
        labels: vec![(LABEL_GRAPHQL_SERVICE.to_string(), "orders".to_string())],
        ports: vec![4000],
    };
    let table = find_graphql_services(&vec![orders]);
    assert_eq!(table.len(), 0);
    assert!(table.get("orders").is_none());
    assert!(table.get("orders-svc").is_none());
}

#[test]
fn missing_service_label_filters_resource() {
    let resource = ServiceResource {
        name: Some("plain-svc".to_string()),
        labels: vec![(LABEL_GRAPHQL_PROTOCOL.to_string(), "http".to_string())],
        ports: vec![80],
    };
    let table = find_graphql_services(&vec![resource]);
    assert_eq!(table.len(), 0);
}

#[test]
fn missing_resource_name_filters_resource() {
    let nameless = ServiceResource {
        name: None,
        labels: labeled("ghost", "http"),
        ports: vec![80],
    };
    let table = find_graphql_services(&vec![nameless]);
    assert_eq!(table.len(), 0);
    assert!(table.get("ghost").is_none());
}

#[test]
fn last_port_wins_for_one_resource() {
    let users = ServiceResource {
        name: Some("users-svc".to_string()),
        labels: labeled("users", "http"),
        ports: vec![4000, 4001],
    };
    let table = find_graphql_services(&vec![users]);
    assert_eq!(table.len(), 1);
    assert_eq!(table.get("users").map(String::as_str), Some("http://users-svc:4001"));
}

#[test]
fn later_resource_overwrites_same_service_name() {
    let old = ServiceResource {
        name: Some("users-old".to_string()),
        labels: labeled("users", "http"),
        ports: vec![4000],
    };
    let new = ServiceResource {
        name: Some("users-new".to_string()),
        labels: labeled("users", "https"),
        ports: vec![4443],
    };
    let table = find_graphql_services(&vec![old, new]);
    assert_eq!(table.len(), 1);
    assert_eq!(table.get("users").map(String::as_str), Some("https://users-new:4443"));
}

#[test]
fn resource_without_ports_yields_no_entry() {
    let users = ServiceResource {
        name: Some("users-svc".to_string()),
        labels: labeled("users", "http"),
        ports: vec![],
    };
    let table = find_graphql_services(&vec![users]);
    assert_eq!(table.len(), 0);
}

#[test]
fn mixed_resources_filtered_independently() {
    let users = ServiceResource {
        name: Some("users-svc".to_string()),
        labels: labeled("users", "http"),
        ports: vec![4000],
    };
    let orders = ServiceResource {
        name: Some("orders-svc".to_string()),
        labels: vec![(LABEL_GRAPHQL_SERVICE.to_string(), "orders".to_string())],
        ports: vec![4001],
    };
    let billing = ServiceResource {
        name: Some("billing-svc".to_string()),
        labels: labeled("billing", "https"),
        ports: vec![8443],
    };
    let table = find_graphql_services(&vec![users, orders, billing]);
    assert_eq!(table.len(), 2);
    assert_eq!(table.get("users").map(String::as_str), Some("http://users-svc:4000"));
    assert_eq!(table.get("billing").map(String::as_str), Some("https://billing-svc:8443"));
    assert!(table.get("orders").is_none());
}

#[test]
fn first_label_occurrence_decides() {
    let resource = ServiceResource {
        name: Some("dup-svc".to_string()),
        labels: vec![
            (LABEL_GRAPHQL_SERVICE.to_string(), "first".to_string()),
            (LABEL_GRAPHQL_SERVICE.to_string(), "second".to_string()),
            (LABEL_GRAPHQL_PROTOCOL.to_string(), "http".to_string()),
        ],
        ports: vec![1],
    };
    let value = resource.get_label_value(LABEL_GRAPHQL_SERVICE);
    assert_eq!(value.map(String::as_str), Some("first"));
    let table = find_graphql_services(&vec![resource]);
    assert_eq!(table.get("first").map(String::as_str), Some("http://dup-svc:1"));
    assert!(table.get("second").is_none());
}

#[test]
fn get_label_value_absent_key() {
    let resource = ServiceResource {
        name: Some("users-svc".to_string()),
        labels: labeled("users", "http"),
        ports: vec![4000],
    };
    assert!(resource.get_label_value("graphgate.org/other").is_none());
    assert_eq!(resource.get_label_value(LABEL_GRAPHQL_PROTOCOL).map(String::as_str), Some("http"));
}

#[test]
fn synthesize_address_exact_form() {
    assert_eq!(synthesize_address("http", "users-svc", 4000), "http://users-svc:4000");
    assert_eq!(synthesize_address("https", "b", 0), "https://b:0");
    assert_eq!(synthesize_address("http", "edge", 65535), "http://edge:65535");
    assert_eq!(synthesize_address("http", "max", i32::MAX), "http://max:2147483647");
    assert_eq!(synthesize_address("http", "min", i32::MIN), "http://min:-2147483648");
    assert_eq!(synthesize_address("http", "neg", -7), "http://neg:-7");
}

#[test]
fn address_map_insert_replaces() {
    let mut table = AddressMap::new();
    assert_eq!(table.len(), 0);
    table.insert("users".to_string(), "http://a:1".to_string());
    table.insert("orders".to_string(), "http://b:2".to_string());
    table.insert("users".to_string(), "http://c:3".to_string());
    assert_eq!(table.len(), 2);
    assert_eq!(table.get("users").map(String::as_str), Some("http://c:3"));
    assert_eq!(table.get("orders").map(String::as_str), Some("http://b:2"));
    assert!(table.get("absent").is_none());
}

#[test]
fn namespace_from_readable_file_content() {
    let namespace = resolve_namespace(Some("team-a".to_string()));
    assert_eq!(namespace, "team-a");
}

#[test]
fn namespace_falls_back_to_default() {
    let namespace = resolve_namespace(None);
    assert_eq!(namespace, "default");
    assert_eq!(DEFAULT_NAMESPACE, "default");
}
