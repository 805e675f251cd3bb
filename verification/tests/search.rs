use couchbase_shell::dispatch::Outcome;
use couchbase_shell::dispatch::Response;
use couchbase_shell::error::CoreError;
use couchbase_shell::registry::RemoteCluster;
use couchbase_shell::registry::State;
use couchbase_shell::registry::Timeouts;
use couchbase_shell::search::vector_search;
use couchbase_shell::search::SearchAction;
use couchbase_shell::search::SearchEvent;
use couchbase_shell::search::SearchHit;
use couchbase_shell::search::SearchRow;
use couchbase_shell::search::SearchRun;

fn registry() -> State {
    let mut state = State::new();
    for (identifier, search) in [("x", 10000), ("y", 20000), ("z", 30000)] {
        state.register(
            identifier.to_string(),
            RemoteCluster {
                identifier: String::new(),
                hosts: vec!["127.0.0.1".to_string()],
                username: "Administrator".to_string(),
                password: "password".to_string(),
                timeouts: Timeouts { management: 75000, query: 30000, analytics: 60000, search },
                cloud_ref: None,
            },
        );
    }
    state
}

fn namespace(bucket: &str, scope: &str) -> (String, String, String) {
    (bucket.to_string(), scope.to_string(), String::new())
}

fn answered(status: u16, content: &str) -> SearchEvent {
    SearchEvent::Completed(Outcome::Answered(Response { status, content: content.to_string() }))
}

fn hit(id: &str, score: &str) -> SearchHit {
    SearchHit { id: id.to_string(), score: score.to_string() }
}

fn row(id: &str, score: &str, cluster: &str) -> SearchRow {
    SearchRow { id: id.to_string(), score: score.to_string(), cluster: cluster.to_string() }
}

fn ask(cluster: &str, index: &str, timeout: u64) -> SearchAction {
    SearchAction::Ask { cluster: cluster.to_string(), index: index.to_string(), timeout }
}

#[test]
fn each_cluster_is_asked_once_and_its_hits_are_kept_in_order() {
    let registry = registry();
    let run = SearchRun::new(
        "hotels".to_string(),
        namespace("travel", ""),
        vec!["y".to_string(), "x".to_string()],
    );
    let (run, action) = run.step(&registry, SearchEvent::Start);
    assert_eq!(action, ask("y", "travel._default.hotels", 20000));
    let (run, action) = run.step(&registry, answered(200, "body of y"));
    assert_eq!(action, SearchAction::Read { content: "body of y".to_string() });
    let (run, action) =
        run.step(&registry, SearchEvent::Hits(vec![hit("h1", "0.9"), hit("h2", "0.5")]));
    assert_eq!(action, ask("x", "travel._default.hotels", 10000));
    assert_eq!(run.rows(), &vec![row("h1", "0.9", "y"), row("h2", "0.5", "y")]);
    let (run, _) = run.step(&registry, answered(200, "body of x"));
    let (run, action) = run.step(&registry, SearchEvent::Hits(vec![hit("h3", "0.7")]));
    assert_eq!(action, SearchAction::Finish);
    assert!(run.is_done());
    let (run, action) = run.step(&registry, SearchEvent::Start);
    assert_eq!(action, SearchAction::Halt);
    assert_eq!(
        run.into_rows(),
        vec![row("h1", "0.9", "y"), row("h2", "0.5", "y"), row("h3", "0.7", "x")]
    );
}

#[test]
fn a_failed_search_ends_the_run_before_the_next_cluster() {
    let registry = registry();
    let run = SearchRun::new(
        "hotels".to_string(),
        namespace("travel", "inventory"),
        vec!["x".to_string(), "y".to_string(), "z".to_string()],
    );
    let (run, action) = run.step(&registry, SearchEvent::Start);
    assert_eq!(action, ask("x", "travel.inventory.hotels", 10000));
    let (run, _) = run.step(&registry, answered(200, "body"));
    let (run, action) = run.step(&registry, SearchEvent::Hits(vec![hit("h1", "1")]));
    assert_eq!(action, ask("y", "travel.inventory.hotels", 20000));
    let (run, action) = run.step(&registry, answered(404, "no such index"));
    assert_eq!(
        action,
        SearchAction::Fail {
            error: CoreError::UnexpectedStatusCode { code: 404, body: "no such index".to_string() },
        }
    );
    assert!(run.is_failed());
    assert_eq!(run.rows(), &vec![row("h1", "1", "x")]);
    let (run, action) = run.step(&registry, answered(200, "body"));
    assert_eq!(action, SearchAction::Halt);
    assert!(run.is_failed());
}

#[test]
fn a_search_fails_on_what_it_cannot_use() {
    let registry = registry();
    let fresh = || SearchRun::new("i".to_string(), namespace("b", ""), vec!["x".to_string()]);

    let (run, _) = fresh().step(&registry, SearchEvent::Start);
    let (_, action) = run.step(&registry, SearchEvent::Completed(Outcome::Cancelled));
    assert_eq!(action, SearchAction::Fail { error: CoreError::Cancelled });

    let (run, _) = fresh().step(&registry, SearchEvent::Start);
    let (run, _) = run.step(&registry, answered(200, "{"));
    let (_, action) =
        run.step(&registry, SearchEvent::ReadFailed { detail: "EOF while parsing".to_string() });
    assert_eq!(
        action,
        SearchAction::Fail {
            error: CoreError::DeserializeError { detail: "EOF while parsing".to_string() },
        }
    );

    let (_, action) = fresh().step(&registry, SearchEvent::Hits(vec![]));
    assert_eq!(
        action,
        SearchAction::Fail {
            error: CoreError::Generic {
                message: "the event does not answer the last action".to_string(),
                help: None,
            },
        }
    );

    let run = SearchRun::new("i".to_string(), namespace("b", ""), vec!["nowhere".to_string()]);
    let (_, action) = run.step(&registry, SearchEvent::Start);
    assert_eq!(
        action,
        SearchAction::Fail {
            error: CoreError::ClusterNotFound { identifier: "nowhere".to_string() },
        }
    );
}

#[test]
fn a_search_without_hits_or_clusters_finishes_empty() {
    let registry = registry();
    let run = SearchRun::new("i".to_string(), namespace("b", ""), Vec::new());
    let (run, action) = run.step(&registry, SearchEvent::Start);
    assert_eq!(action, SearchAction::Finish);
    assert!(run.into_rows().is_empty());

    let run = SearchRun::new("i".to_string(), namespace("b", ""), vec!["z".to_string()]);
    let (run, _) = run.step(&registry, SearchEvent::Start);
    let (run, _) = run.step(&registry, answered(202, "{}"));
    let (run, action) = run.step(&registry, SearchEvent::Hits(vec![]));
    assert_eq!(action, SearchAction::Finish);
    assert!(run.rows().is_empty());
}

#[test]
fn preparing_a_search_resolves_clusters_and_namespace() {
    let mut registry = registry();
    let index = || "hotels".to_string();
    assert_eq!(
        vector_search(&registry, index(), Some("travel".to_string()), None, None).err(),
        Some(CoreError::EmptyTarget)
    );
    assert_eq!(
        vector_search(&registry, index(), Some("travel".to_string()), None, Some("x,w")).err(),
        Some(CoreError::ClusterNotFound { identifier: "w".to_string() })
    );
    assert_eq!(
        vector_search(&registry, index(), None, Some("inventory".to_string()), Some("x")).err(),
        Some(CoreError::Generic {
            message: "Could not auto-select a bucket - please use --bucket".to_string(),
            help: None,
        })
    );
    registry.set_active("z".to_string()).unwrap();
    let run = vector_search(
        &registry,
        index(),
        Some("travel".to_string()),
        Some("inventory".to_string()),
        None,
    )
    .unwrap();
    let (_, action) = run.step(&registry, SearchEvent::Start);
    assert_eq!(action, ask("z", "travel.inventory.hotels", 30000));
}
