use graphgate_k8s::create_coordinator;
use graphgate_k8s::find_graphql_services;
use graphgate_k8s::AddressMap;
use graphgate_k8s::Coordinator;
use graphgate_k8s::ServiceResource;
use graphgate_k8s::SimpleCoordinator;
use graphgate_k8s::LABEL_GRAPHQL_PROTOCOL;
use graphgate_k8s::LABEL_GRAPHQL_SERVICE;

#[test]
fn empty_table_builds_empty_coordinator() {
    let table = AddressMap::new();
    let coordinator: SimpleCoordinator = create_coordinator(&table).expect("empty table must build");
    assert_eq!(coordinator.endpoint_count(), 0);
}

#[test]
fn no_matching_resources_build_empty_coordinator() {
    let table = find_graphql_services(&vec![]);
    assert_eq!(table.len(), 0);
    let coordinator: SimpleCoordinator =
        create_coordinator(&table).expect("empty discovery must build");
    assert_eq!(coordinator.endpoint_count(), 0);
}

#[test]
fn discovered_entries_are_registered() {
    let users = ServiceResource {
        name: Some("users-svc".to_string()),
        labels: vec![
            (LABEL_GRAPHQL_SERVICE.to_string(), "users".to_string()),
            (LABEL_GRAPHQL_PROTOCOL.to_string(), "http".to_string()),
        ],
        ports: vec![4000],
    };
    let table = find_graphql_services(&vec![users]);
    let coordinator: SimpleCoordinator = create_coordinator(&table).expect("must build");
    assert_eq!(coordinator.endpoint_count(), 1);
    assert_eq!(coordinator.endpoint_of("users").map(String::as_str), Some("http://users-svc:4000"));
}

#[test]
fn failing_registration_aborts_build() {
    let mut table = AddressMap::new();
    table.insert("alpha".to_string(), "http://alpha-svc:1".to_string());
    table.insert("beta".to_string(), "ftp://beta-svc:2".to_string());
    table.insert("gamma".to_string(), "http://gamma-svc:3".to_string());
    let result: Result<SimpleCoordinator, _> = create_coordinator(&table);
    let error = result.expect_err("second registration must be rejected");
    assert_eq!(error.service, "beta");
    assert_eq!(error.message, "unsupported address scheme");
}

#[test]
fn add_url_accepts_web_schemes() {
    let coordinator = SimpleCoordinator::new();
    let coordinator = coordinator.add_url("users", "http://users-svc:4000").expect("http accepted");
    let coordinator =
        coordinator.add_url("billing", "https://billing-svc:8443").expect("https accepted");
    assert_eq!(coordinator.endpoint_count(), 2);
    assert_eq!(
        coordinator.endpoint_of("billing").map(String::as_str),
        Some("https://billing-svc:8443")
    );
}

#[test]
fn add_url_rejects_other_schemes() {
    let error = SimpleCoordinator::new()
        .add_url("users", "ws://users-svc:4000")
        .expect_err("ws must be rejected");
    assert_eq!(error.service, "users");
    assert_eq!(error.message, "unsupported address scheme");
}

#[test]
fn add_url_replaces_same_service() {
    let coordinator = SimpleCoordinator::new()
        .add_url("users", "http://users-a:1")
        .expect("accepted")
        .add_url("users", "http://users-b:2")
        .expect("accepted");
    assert_eq!(coordinator.endpoint_count(), 1);
    assert_eq!(coordinator.endpoint_of("users").map(String::as_str), Some("http://users-b:2"));
}
