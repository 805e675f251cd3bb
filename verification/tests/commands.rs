use couchbase_shell::buckets::BucketRow;
use couchbase_shell::buckets::bucket_row;
use couchbase_shell::commands::AnalyticsDatasets;
use couchbase_shell::commands::AnalyticsDataverses;
use couchbase_shell::commands::BucketsGet;
use couchbase_shell::commands::BucketsUpdate;
use couchbase_shell::commands::ClustersUnregister;
use couchbase_shell::commands::DataStats;
use couchbase_shell::commands::QueryIndexes;
use couchbase_shell::commands::VectorSearch;
use couchbase_shell::dispatch::Request;
use couchbase_shell::dispatch::Verb;
use couchbase_shell::error::CoreError;
use couchbase_shell::queries::AnalyticsPlan;
use couchbase_shell::queries::IndexDefinition;
use couchbase_shell::queries::IndexesPlan;
use couchbase_shell::queries::ResultsField;
use couchbase_shell::queries::datasets;
use couchbase_shell::queries::dataverses;
use couchbase_shell::queries::index_row;
use couchbase_shell::queries::indexes;
use couchbase_shell::queries::query_rows;
use couchbase_shell::queries::result_rows;
use couchbase_shell::queries::target_cluster;
use couchbase_shell::reconcile::BucketRecord;
use couchbase_shell::reconcile::records;
use couchbase_shell::registry::RemoteCluster;
use couchbase_shell::registry::State;
use couchbase_shell::registry::Timeouts;
use couchbase_shell::search::failed_to_parse_input_vector_error;
use couchbase_shell::search::index_name_from_namespace;
use couchbase_shell::search::is_vector_id;
use couchbase_shell::search::namespace_from_args;
use couchbase_shell::search::neighbors_or_default;
use couchbase_shell::settings::BucketSettings;
use couchbase_shell::settings::BucketType;
use couchbase_shell::settings::DurabilityLevel;
use couchbase_shell::signature::Argument;
use couchbase_shell::signature::ArgumentKind;
use couchbase_shell::signature::CommandSignature;
use couchbase_shell::signature::Shape;
use couchbase_shell::stats::node_of;
use couchbase_shell::stats::stat_row;
use std::sync::Arc;
use std::sync::Mutex;

fn registry() -> State {
    let mut state = State::new();
    let cluster = RemoteCluster {
        identifier: String::new(),
        hosts: vec!["127.0.0.1".to_string()],
        username: "Administrator".to_string(),
        password: "password".to_string(),
        timeouts: Timeouts { management: 75000, query: 30000, analytics: 60000, search: 10000 },
        cloud_ref: None,
    };
    state.register("local".to_string(), cluster.duplicate());
    state.register("dev".to_string(), cluster);
    state
}

fn shared() -> Arc<Mutex<State>> {
    Arc::new(Mutex::new(registry()))
}

fn argument(kind: ArgumentKind, name: &str, shape: Option<Shape>, description: &str) -> Argument {
    Argument { kind, name: name.to_string(), shape, description: description.to_string() }
}

fn named(name: &str, shape: Shape, description: &str) -> Argument {
    argument(ArgumentKind::Named, name, Some(shape), description)
}

#[test]
fn a_command_keeps_the_registry_it_was_made_with() {
    let state = shared();
    let command = BucketsUpdate::new(state.clone());
    assert!(Arc::ptr_eq(command.state(), &state));
    command.state().lock().unwrap().unregister("dev");
    assert!(!state.lock().unwrap().contains("dev"));
    let copy = command.clone();
    assert!(Arc::ptr_eq(copy.state(), &state));

    let snapshot = Arc::new(registry());
    let command = DataStats::new(snapshot.clone());
    assert!(Arc::ptr_eq(command.state(), &snapshot));
    assert!(command.state().contains("local"));
}

#[test]
fn commands_are_called_by_their_names() {
    assert_eq!(AnalyticsDatasets::new(Arc::new(registry())).name(), "analytics datasets");
    assert_eq!(AnalyticsDataverses::new(Arc::new(registry())).name(), "analytics dataverses");
    assert_eq!(BucketsGet::new(shared()).name(), "buckets get");
    assert_eq!(BucketsUpdate::new(shared()).name(), "buckets update");
    assert_eq!(ClustersUnregister::new(shared()).name(), "clusters unregister");
    assert_eq!(DataStats::new(Arc::new(registry())).name(), "data stats");
    assert_eq!(QueryIndexes::new(shared()).name(), "query indexes");
    assert_eq!(VectorSearch::new(shared()).name(), "vector search");
}

#[test]
fn commands_say_what_they_do() {
    assert_eq!(
        AnalyticsDatasets::new(Arc::new(registry())).usage(),
        "Lists all analytics datasets"
    );
    assert_eq!(
        AnalyticsDataverses::new(Arc::new(registry())).usage(),
        "Lists all analytics dataverses"
    );
    assert_eq!(BucketsGet::new(shared()).usage(), "Fetches buckets through the HTTP API");
    assert_eq!(BucketsUpdate::new(shared()).usage(), "Updates a bucket");
    assert_eq!(
        ClustersUnregister::new(shared()).usage(),
        "Removes a cluster from the shell's registry"
    );
    assert_eq!(
        DataStats::new(Arc::new(registry())).usage(),
        "Loads Key/Value statistics from the cluster"
    );
    assert_eq!(QueryIndexes::new(shared()).usage(), "Lists all query indexes");
    assert_eq!(VectorSearch::new(shared()).usage(), "Performs a vector search query");
}

#[test]
fn buckets_update_takes_a_name_and_the_fields_to_edit() {
    let signature = BucketsUpdate::new(shared()).signature();
    assert_eq!(
        signature,
        CommandSignature {
            name: "buckets update".to_string(),
            arguments: vec![
                argument(
                    ArgumentKind::Required,
                    "name",
                    Some(Shape::Text),
                    "the name of the bucket"
                ),
                named("ram", Shape::Integer, "the amount of ram to allocate (mb)"),
                named("replicas", Shape::Integer, "the number of replicas for the bucket"),
                named("flush", Shape::Text, "whether to enable flush"),
                named("durability", Shape::Text, "the minimum durability level"),
                named(
                    "expiry",
                    Shape::Integer,
                    "the maximum expiry for documents created in this bucket (seconds)"
                ),
                named("clusters", Shape::Text, "the clusters which should be contacted"),
            ],
            category: Some("couchbase".to_string()),
        }
    );
}

#[test]
fn the_other_commands_take_their_arguments() {
    assert_eq!(
        AnalyticsDatasets::new(Arc::new(registry())).signature(),
        CommandSignature::build("analytics datasets")
    );
    assert_eq!(
        AnalyticsDataverses::new(Arc::new(registry())).signature(),
        CommandSignature::build("analytics dataverses")
    );
    assert_eq!(
        BucketsGet::new(shared()).signature().arguments,
        vec![
            named("bucket", Shape::Text, "the name of the bucket"),
            named("clusters", Shape::Text, "the clusters which should be contacted"),
        ]
    );
    assert_eq!(
        ClustersUnregister::new(shared()).signature().arguments,
        vec![argument(
            ArgumentKind::Required,
            "identifier",
            Some(Shape::Text),
            "the identifier to use for this cluster"
        )]
    );
    assert_eq!(
        DataStats::new(Arc::new(registry())).signature().arguments,
        vec![
            named("clusters", Shape::Text, "the clusters which should be contacted"),
            named("key", Shape::Text, "the custom stats key that should be passed down"),
        ]
    );
    assert_eq!(
        QueryIndexes::new(shared()).signature().arguments,
        vec![
            argument(
                ArgumentKind::Switch,
                "definitions",
                None,
                "Whether to fetch the index definitions (changes the output format)"
            ),
            named("cluster", Shape::Text, "the cluster to query against"),
            argument(
                ArgumentKind::Switch,
                "with-meta",
                None,
                "Includes related metadata in the result"
            ),
        ]
    );
    let search = VectorSearch::new(shared()).signature();
    assert_eq!(search.name, "vector search");
    assert_eq!(search.category, Some("couchbase".to_string()));
    assert_eq!(search.arguments.len(), 8);
    assert_eq!(
        search.arguments[0],
        argument(
            ArgumentKind::Optional,
            "vector",
            Some(Shape::NumberList),
            "the vector used for searching"
        )
    );
    assert_eq!(
        search.arguments[5],
        named(
            "neighbors",
            Shape::Integer,
            "number of neighbors returned by vector search (default = 3)"
        )
    );
    let names: Vec<String> = search.arguments.iter().map(|a| a.name.clone()).collect();
    assert_eq!(
        names,
        vec!["vector", "index", "field", "query", "clusters", "neighbors", "bucket", "scope"]
    );
}

#[test]
fn a_signature_is_built_argument_by_argument() {
    let signature = CommandSignature::build("demo")
        .required("a", Shape::Text, "first")
        .optional("b", Shape::Integer, "second")
        .named("c", Shape::NumberList, "third")
        .switch("d", "fourth")
        .category("tools");
    assert_eq!(signature.name, "demo");
    assert_eq!(signature.category, Some("tools".to_string()));
    assert_eq!(
        signature.arguments,
        vec![
            argument(ArgumentKind::Required, "a", Some(Shape::Text), "first"),
            argument(ArgumentKind::Optional, "b", Some(Shape::Integer), "second"),
            argument(ArgumentKind::Named, "c", Some(Shape::NumberList), "third"),
            argument(ArgumentKind::Switch, "d", None, "fourth"),
        ]
    );
}

#[test]
fn vector_search_shows_three_examples() {
    let examples = VectorSearch::new(shared()).examples();
    assert_eq!(examples.len(), 3);
    assert_eq!(examples[0].description, "Source vector fetched using 'doc get'");
    assert_eq!(
        examples[1].example,
        "subdoc get contentVector 10019 | select content | vector search landmark-content-index contentVector"
    );
    assert_eq!(examples[2].example, "vector search vector-index fieldName [0.1 0.2 0.3 0.4]");
}

#[test]
fn an_index_name_is_qualified_by_bucket_and_scope() {
    let namespace = ("travel".to_string(), "inventory".to_string(), "hotel".to_string());
    assert_eq!(
        index_name_from_namespace("hotels".to_string(), namespace),
        "travel.inventory.hotels"
    );
    let namespace = ("travel".to_string(), String::new(), String::new());
    assert_eq!(
        index_name_from_namespace("hotels".to_string(), namespace),
        "travel._default.hotels"
    );
    let namespace = (String::new(), String::new(), String::new());
    assert_eq!(index_name_from_namespace(String::new(), namespace), "._default.");
}

#[test]
fn a_vector_id_begins_with_vector_and_goes_on() {
    assert!(is_vector_id("vector-1"));
    assert!(is_vector_id("vectors"));
    assert!(!is_vector_id("vector"));
    assert!(!is_vector_id("Vector-1"));
    assert!(!is_vector_id("a-vector-1"));
    assert!(!is_vector_id(""));
    assert!(!is_vector_id("véctor-1"));
}

#[test]
fn a_vector_search_returns_three_neighbors_unless_told_otherwise() {
    assert_eq!(neighbors_or_default(None), 3);
    assert_eq!(neighbors_or_default(Some(10)), 10);
    assert_eq!(neighbors_or_default(Some(0)), 0);
}

#[test]
fn input_without_a_vector_is_reported_with_help() {
    assert_eq!(
        failed_to_parse_input_vector_error(),
        CoreError::Generic {
            message: "Could not parse input vector".to_string(),
            help: Some(
                "Piped input must be correctly formatted, run 'vector search --help' for examples"
                    .to_string()
            ),
        }
    );
}

#[test]
fn the_node_of_a_server_is_what_stands_before_the_port() {
    assert_eq!(node_of("10.0.0.5:11210"), "10.0.0.5");
    assert_eq!(node_of("db.example.com"), "db.example.com");
    assert_eq!(node_of(":11210"), "");
    assert_eq!(node_of(""), "");
    assert_eq!(node_of("a:b:c"), "a");
    let row = stat_row("local", "10.0.0.5:11210", "uptime", "42");
    assert_eq!(row.cluster, "local");
    assert_eq!(row.node, "10.0.0.5");
    assert_eq!(row.key, "uptime");
    assert_eq!(row.value, "42");
}

#[test]
fn query_indexes_addresses_the_named_or_the_active_cluster() {
    let mut state = registry();
    assert_eq!(indexes(&state, None, false), Err(CoreError::EmptyTarget));
    assert_eq!(
        indexes(&state, Some("qa"), false),
        Err(CoreError::ClusterNotFound { identifier: "qa".to_string() })
    );
    state.set_active("local".to_string()).unwrap();
    assert_eq!(target_cluster(&state, None).unwrap().identifier, "local");
    assert_eq!(target_cluster(&state, Some("dev")).unwrap().identifier, "dev");
    assert_eq!(
        indexes(&state, None, false),
        Ok(IndexesPlan::Statement {
            cluster: "local".to_string(),
            statement: "select keyspace_id as `bucket`, name, state, `using` as `type`, ifmissing(condition, null) as condition, ifmissing(is_primary, false) as `primary`, index_key from system:indexes".to_string(),
            timeout: 30000,
        })
    );
    assert_eq!(
        indexes(&state, Some("dev"), true),
        Ok(IndexesPlan::Definitions {
            cluster: "dev".to_string(),
            request: Request { verb: Verb::Get, path: "/indexStatus".to_string(), payload: None },
            timeout: 30000,
        })
    );
}

#[test]
fn the_rows_of_a_query_are_its_results_or_the_whole_response() {
    let rows = vec!["{\"name\":\"a\"}".to_string(), "{\"name\":\"b\"}".to_string()];
    assert_eq!(
        result_rows(false, "whole".to_string(), ResultsField::Rows(rows.clone())),
        Ok(rows.clone())
    );
    assert_eq!(
        result_rows(true, "whole".to_string(), ResultsField::Rows(rows)),
        Ok(vec!["whole".to_string()])
    );
    assert_eq!(
        result_rows(true, "whole".to_string(), ResultsField::Absent),
        Ok(vec!["whole".to_string()])
    );
    assert_eq!(
        result_rows(false, "whole".to_string(), ResultsField::NotArray),
        Err(CoreError::Generic {
            message: "Query result not an array - malformed response".to_string(),
            help: None,
        })
    );
    assert_eq!(
        result_rows(false, "whole".to_string(), ResultsField::Absent),
        Err(CoreError::Generic {
            message: "Query toplevel result not an object - malformed response".to_string(),
            help: None,
        })
    );
}

#[test]
fn an_index_without_scope_or_collection_shows_them_empty() {
    let definition = IndexDefinition {
        bucket: "travel".to_string(),
        definition: "CREATE PRIMARY INDEX ON `travel`".to_string(),
        collection: None,
        scope: Some("inventory".to_string()),
        index_name: "#primary".to_string(),
        status: "Ready".to_string(),
        storage_mode: "plasma".to_string(),
        replicas: 2,
    };
    let row = index_row(definition);
    assert_eq!(row.bucket, "travel");
    assert_eq!(row.scope, "inventory");
    assert_eq!(row.collection, "");
    assert_eq!(row.name, "#primary");
    assert_eq!(row.status, "Ready");
    assert_eq!(row.storage_mode, "plasma");
    assert_eq!(row.replicas, 2);
    assert_eq!(row.definition, "CREATE PRIMARY INDEX ON `travel`");
}

#[test]
fn analytics_commands_run_their_statement_on_the_active_cluster() {
    let mut state = registry();
    assert_eq!(datasets(&state), Err(CoreError::EmptyTarget));
    state.set_active("dev".to_string()).unwrap();
    assert_eq!(
        datasets(&state),
        Ok(AnalyticsPlan {
            cluster: "dev".to_string(),
            statement: "SELECT d.* FROM Metadata.`Dataset` d WHERE d.DataverseName <> \"Metadata\""
                .to_string(),
            timeout: 60000,
        })
    );
    assert_eq!(
        dataverses(&state),
        Ok(AnalyticsPlan {
            cluster: "dev".to_string(),
            statement:
                "SELECT d.* FROM Metadata.`Dataverse` d WHERE d.DataverseName <> \"Metadata\""
                    .to_string(),
            timeout: 60000,
        })
    );
    state.unregister("dev");
    assert_eq!(
        dataverses(&state),
        Err(CoreError::ClusterNotFound { identifier: "dev".to_string() })
    );
}

#[test]
fn a_bucket_is_shown_with_its_quota_in_bytes() {
    let settings = BucketSettings::new(
        "beer".to_string(),
        BucketType::Ephemeral,
        2,
        100,
        true,
        DurabilityLevel::Majority,
        0,
        None,
    )
    .unwrap();
    let record = BucketRecord { cluster: "local".to_string(), settings, cloud: false };
    assert_eq!(
        bucket_row(&record),
        BucketRow {
            cluster: "local".to_string(),
            name: "beer".to_string(),
            bucket_type: "ephemeral".to_string(),
            replicas: 2,
            min_durability_level: "majority".to_string(),
            ram_quota: 104857600,
            flush_enabled: true,
            status: String::new(),
            cloud: false,
        }
    );
    let large = BucketSettings::new(
        "big".to_string(),
        BucketType::Couchbase,
        0,
        9223372036854775807,
        false,
        DurabilityLevel::NoDurability,
        0,
        Some("healthy".to_string()),
    )
    .unwrap();
    let record = BucketRecord { cluster: "prod".to_string(), settings: large, cloud: true };
    let row = bucket_row(&record);
    assert_eq!(row.ram_quota, 9223372036854775807u128 * 1024 * 1024);
    assert_eq!(row.status, "healthy");
    assert!(row.cloud);
}

#[test]
fn records_are_made_of_a_listing() {
    let listing = vec![
        BucketSettings::new(
            "a".to_string(),
            BucketType::Couchbase,
            1,
            100,
            false,
            DurabilityLevel::NoDurability,
            0,
            None,
        )
        .unwrap(),
        BucketSettings::new(
            "b".to_string(),
            BucketType::Memcached,
            0,
            200,
            false,
            DurabilityLevel::NoDurability,
            0,
            None,
        )
        .unwrap(),
    ];
    let made = records(&listing, "dev", true);
    assert_eq!(made.len(), 2);
    assert_eq!(made[0].cluster, "dev");
    assert_eq!(made[0].settings, listing[0]);
    assert_eq!(made[1].settings, listing[1]);
    assert!(made[1].cloud);
    assert!(records(&Vec::new(), "dev", false).is_empty());
}

#[test]
fn a_namespace_needs_a_bucket() {
    assert_eq!(
        namespace_from_args(
            Some("travel".to_string()),
            Some("inventory".to_string()),
            None
        ),
        Ok(("travel".to_string(), "inventory".to_string(), String::new()))
    );
    assert_eq!(
        namespace_from_args(Some("travel".to_string()), None, None),
        Ok(("travel".to_string(), String::new(), String::new()))
    );
    assert_eq!(
        namespace_from_args(None, Some("inventory".to_string()), None),
        Err(CoreError::Generic {
            message: "Could not auto-select a bucket - please use --bucket".to_string(),
            help: None,
        })
    );
}

#[test]
fn the_rows_of_a_query_response_are_read_from_its_body() {
    let body = "{\"requestID\":\"1\",\"results\":[{\"name\":\"a\"},{\"name\":\"b\"},3],\"status\":\"success\"}";
    assert_eq!(
        query_rows(false, body.to_string()),
        Ok(vec!["{\"name\":\"a\"}".to_string(), "{\"name\":\"b\"}".to_string(), "3".to_string()])
    );
    assert_eq!(
        query_rows(true, body.to_string()),
        Ok(vec![body.to_string()])
    );
    assert_eq!(
        query_rows(false, "{\"results\":[]}".to_string()),
        Ok(Vec::new())
    );
    assert_eq!(
        query_rows(false, "{\"results\":{\"a\":1}}".to_string()),
        Err(CoreError::Generic {
            message: "Query result not an array - malformed response".to_string(),
            help: None,
        })
    );
    assert_eq!(
        query_rows(false, "{\"status\":\"success\"}".to_string()),
        Err(CoreError::Generic {
            message: "Query toplevel result not an object - malformed response".to_string(),
            help: None,
        })
    );
    assert_eq!(
        query_rows(false, "[1,2]".to_string()),
        Err(CoreError::Generic {
            message: "Query toplevel result not an object - malformed response".to_string(),
            help: None,
        })
    );
    for with_meta in [true, false] {
        match query_rows(with_meta, "{\"results\":".to_string()) {
            Err(CoreError::DeserializeError { detail }) => assert!(!detail.is_empty()),
            other => panic!("{:?}", other),
        }
    }
}
