use couchbase_shell::buckets::clusters_unregister;
use couchbase_shell::error::CoreError;
use couchbase_shell::registry::CloudOrganization;
use couchbase_shell::registry::RemoteCluster;
use couchbase_shell::registry::State;
use couchbase_shell::registry::TimeoutCategory;
use couchbase_shell::registry::Timeouts;
use couchbase_shell::resolver::cluster_identifiers_from;
use couchbase_shell::resolver::require_registered;

fn timeouts() -> Timeouts {
    Timeouts { management: 75000, query: 30000, analytics: 60000, search: 10000 }
}

fn cluster(host: &str, cloud_ref: Option<&str>) -> RemoteCluster {
    RemoteCluster {
        identifier: String::new(),
        hosts: vec![host.to_string()],
        username: "Administrator".to_string(),
        password: "password".to_string(),
        timeouts: timeouts(),
        cloud_ref: cloud_ref.map(|o| o.to_string()),
    }
}

fn not_found(identifier: &str) -> CoreError {
    CoreError::ClusterNotFound { identifier: identifier.to_string() }
}

fn registry() -> State {
    let mut state = State::new();
    state.register("local".to_string(), cluster("127.0.0.1", None));
    state.register("dev".to_string(), cluster("dev.example.com", None));
    state.register("prod".to_string(), cluster("prod.example.com", Some("acme")));
    state
}

#[test]
fn a_new_registry_is_empty() {
    let state = State::new();
    assert_eq!(state.len(), 0);
    assert_eq!(state.active(), None);
    assert!(!state.contains("local"));
    assert_eq!(state.get("local").err(), Some(not_found("local")));
    assert_eq!(state.active_cluster().err(), Some(CoreError::EmptyTarget));
}

#[test]
fn register_inserts_under_the_identifier() {
    let state = registry();
    assert_eq!(state.len(), 3);
    assert!(state.contains("dev"));
    let dev = state.get("dev").unwrap();
    assert_eq!(dev.identifier, "dev");
    assert_eq!(dev.hosts, vec!["dev.example.com".to_string()]);
    assert!(!dev.is_cloud());
    assert!(state.get("prod").unwrap().is_cloud());
}

#[test]
fn register_replaces_what_was_there() {
    let mut state = registry();
    state.register("dev".to_string(), cluster("other.example.com", None));
    assert_eq!(state.len(), 3);
    assert_eq!(state.get("dev").unwrap().hosts, vec!["other.example.com".to_string()]);
    assert_eq!(state.get("local").unwrap().hosts, vec!["127.0.0.1".to_string()]);
}

#[test]
fn unregister_says_whether_the_cluster_existed() {
    let mut state = registry();
    assert!(state.unregister("dev"));
    assert!(!state.contains("dev"));
    assert_eq!(state.len(), 2);
    assert!(!state.unregister("dev"));
    assert_eq!(state.len(), 2);
    assert!(state.contains("local"));
    assert!(state.contains("prod"));
}

#[test]
fn remove_cluster_hands_out_the_descriptor() {
    let mut state = registry();
    let removed = state.remove_cluster("local").unwrap();
    assert_eq!(removed.identifier, "local");
    assert_eq!(removed.hosts, vec!["127.0.0.1".to_string()]);
    assert_eq!(state.remove_cluster("local"), None);
}

#[test]
fn the_active_cluster_must_be_registered() {
    let mut state = registry();
    assert_eq!(state.set_active("nowhere".to_string()), Err(not_found("nowhere")));
    assert_eq!(state.active(), None);
    assert_eq!(state.set_active("dev".to_string()), Ok(()));
    assert_eq!(state.active(), Some(&"dev".to_string()));
    assert_eq!(state.active_cluster().unwrap().identifier, "dev");
}

#[test]
fn an_active_cluster_that_was_unregistered_is_not_found() {
    let mut state = registry();
    state.set_active("dev".to_string()).unwrap();
    state.unregister("dev");
    assert_eq!(state.active_cluster().err(), Some(not_found("dev")));
    assert_eq!(cluster_identifiers_from(&state, None, true), Err(not_found("dev")));
}

#[test]
fn organizations_are_kept_by_id() {
    let mut state = registry();
    let acme = CloudOrganization {
        id: "acme".to_string(),
        access_key: "access".to_string(),
        secret_key: "secret".to_string(),
        timeout: 30000,
    };
    assert_eq!(
        state.organization("acme").err(),
        Some(CoreError::OrganizationNotFound { identifier: "acme".to_string() })
    );
    state.register_organization(acme.clone());
    assert_eq!(state.organization("acme"), Ok(&acme));
    let renewed = CloudOrganization { access_key: "other".to_string(), ..acme };
    state.register_organization(renewed.clone());
    assert_eq!(state.organization("acme"), Ok(&renewed));
    assert_eq!(state.len(), 3);
}

#[test]
fn a_descriptor_is_copied_field_by_field() {
    let state = registry();
    let prod = state.get("prod").unwrap();
    assert_eq!(&prod.duplicate(), prod);
}

#[test]
fn timeouts_are_chosen_by_category() {
    let t = timeouts();
    assert_eq!(t.timeout(TimeoutCategory::Management), 75000);
    assert_eq!(t.timeout(TimeoutCategory::Query), 30000);
    assert_eq!(t.timeout(TimeoutCategory::Analytics), 60000);
    assert_eq!(t.timeout(TimeoutCategory::Search), 10000);
}

#[test]
fn a_list_of_identifiers_is_resolved_in_order() {
    let state = registry();
    assert_eq!(
        cluster_identifiers_from(&state, Some("prod,local"), true),
        Ok(vec!["prod".to_string(), "local".to_string()])
    );
    assert_eq!(
        cluster_identifiers_from(&state, Some("dev"), false),
        Ok(vec!["dev".to_string()])
    );
    assert_eq!(
        cluster_identifiers_from(&state, Some("dev,dev"), false),
        Ok(vec!["dev".to_string(), "dev".to_string()])
    );
}

#[test]
fn the_first_unknown_identifier_is_named() {
    let state = registry();
    assert_eq!(cluster_identifiers_from(&state, Some("dev,qa,uat"), true), Err(not_found("qa")));
    assert_eq!(cluster_identifiers_from(&state, Some(""), true), Err(not_found("")));
    assert_eq!(cluster_identifiers_from(&state, Some("dev,"), true), Err(not_found("")));
    assert_eq!(cluster_identifiers_from(&state, Some(" dev"), true), Err(not_found(" dev")));
}

#[test]
fn without_a_list_the_active_cluster_is_addressed() {
    let mut state = registry();
    assert_eq!(cluster_identifiers_from(&state, None, true), Err(CoreError::EmptyTarget));
    state.set_active("local".to_string()).unwrap();
    assert_eq!(cluster_identifiers_from(&state, None, true), Ok(vec!["local".to_string()]));
    assert_eq!(cluster_identifiers_from(&state, None, false), Err(CoreError::EmptyTarget));
}

#[test]
fn every_name_must_be_registered() {
    let state = registry();
    let names = vec!["local".to_string(), "dev".to_string()];
    assert_eq!(require_registered(&state, names.clone()), Ok(names));
    assert_eq!(
        require_registered(&state, vec!["local".to_string(), "x".to_string()]),
        Err(not_found("x"))
    );
    assert_eq!(require_registered(&state, Vec::new()), Ok(Vec::new()));
}

#[test]
fn clusters_unregister_needs_a_registered_identifier() {
    let mut state = registry();
    assert_eq!(
        clusters_unregister(&mut state, None),
        Err(CoreError::Generic { message: "identifier is required".to_string(), help: None })
    );
    assert_eq!(clusters_unregister(&mut state, Some("qa")), Err(not_found("qa")));
    assert_eq!(state.len(), 3);
    assert_eq!(clusters_unregister(&mut state, Some("dev")), Ok(()));
    assert!(!state.contains("dev"));
    assert_eq!(clusters_unregister(&mut state, Some("dev")), Err(not_found("dev")));
}
