use couchbase_shell::error::CoreError;
use couchbase_shell::registry::RemoteCluster;
use couchbase_shell::registry::State;
use couchbase_shell::registry::Timeouts;
use couchbase_shell::stats::Stat;
use couchbase_shell::stats::StatRow;
use couchbase_shell::stats::StatsAction;
use couchbase_shell::stats::StatsEvent;
use couchbase_shell::stats::StatsRun;
use couchbase_shell::stats::run_stats;

fn registry() -> State {
    let mut state = State::new();
    for identifier in ["x", "y"] {
        state.register(
            identifier.to_string(),
            RemoteCluster {
                identifier: String::new(),
                hosts: vec!["127.0.0.1".to_string()],
                username: "Administrator".to_string(),
                password: "password".to_string(),
                timeouts: Timeouts { management: 1, query: 2, analytics: 3, search: 4 },
                cloud_ref: None,
            },
        );
    }
    state
}

fn stat(server: &str, key: &str, value: &str) -> Stat {
    Stat { server: server.to_string(), key: key.to_string(), value: value.to_string() }
}

fn row(cluster: &str, node: &str, key: &str, value: &str) -> StatRow {
    StatRow {
        cluster: cluster.to_string(),
        node: node.to_string(),
        key: key.to_string(),
        value: value.to_string(),
    }
}

fn ask(cluster: &str, key: Option<&str>) -> StatsAction {
    StatsAction::Ask { cluster: cluster.to_string(), key: key.map(|k| k.to_string()) }
}

#[test]
fn statistics_are_loaded_from_each_cluster_in_turn() {
    let registry = registry();
    let run = StatsRun::new(Some("memory".to_string()), vec!["y".to_string(), "x".to_string()]);
    let (run, action) = run.step(&registry, StatsEvent::Start);
    assert_eq!(action, ask("y", Some("memory")));
    let loaded = vec![stat("10.0.0.1:11210", "mem_used", "10"), stat("10.0.0.2:11210", "mem_used", "20")];
    let (run, action) = run.step(&registry, StatsEvent::Loaded(loaded));
    assert_eq!(action, ask("x", Some("memory")));
    assert_eq!(
        run.rows(),
        &vec![row("y", "10.0.0.1", "mem_used", "10"), row("y", "10.0.0.2", "mem_used", "20")]
    );
    let (run, action) =
        run.step(&registry, StatsEvent::Loaded(vec![stat("localhost", "mem_used", "5")]));
    assert_eq!(action, StatsAction::Finish);
    assert!(run.is_done());
    let (run, action) = run.step(&registry, StatsEvent::Start);
    assert_eq!(action, StatsAction::Halt);
    assert_eq!(
        run.into_rows(),
        vec![
            row("y", "10.0.0.1", "mem_used", "10"),
            row("y", "10.0.0.2", "mem_used", "20"),
            row("x", "localhost", "mem_used", "5"),
        ]
    );
}

#[test]
fn statistics_that_cannot_be_loaded_end_the_run() {
    let registry = registry();
    let run = StatsRun::new(None, vec!["x".to_string(), "y".to_string()]);
    let (run, action) = run.step(&registry, StatsEvent::Start);
    assert_eq!(action, ask("x", None));
    let (run, action) =
        run.step(&registry, StatsEvent::LoadFailed { detail: "channel closed".to_string() });
    assert_eq!(
        action,
        StatsAction::Fail { error: CoreError::TransportError { detail: "channel closed".to_string() } }
    );
    assert!(run.is_failed());
    assert!(run.rows().is_empty());
    let (_, action) = run.step(&registry, StatsEvent::Loaded(vec![]));
    assert_eq!(action, StatsAction::Halt);
}

#[test]
fn a_statistics_run_fails_on_what_it_cannot_use() {
    let registry = registry();
    let run = StatsRun::new(None, vec!["nowhere".to_string()]);
    let (_, action) = run.step(&registry, StatsEvent::Start);
    assert_eq!(
        action,
        StatsAction::Fail { error: CoreError::ClusterNotFound { identifier: "nowhere".to_string() } }
    );
    let run = StatsRun::new(None, vec!["x".to_string()]);
    let (_, action) = run.step(&registry, StatsEvent::Loaded(vec![]));
    assert_eq!(
        action,
        StatsAction::Fail {
            error: CoreError::Generic {
                message: "the event does not answer the last action".to_string(),
                help: None,
            },
        }
    );
    let run = StatsRun::new(None, Vec::new());
    let (run, action) = run.step(&registry, StatsEvent::Start);
    assert_eq!(action, StatsAction::Finish);
    assert!(run.into_rows().is_empty());
}

#[test]
fn preparing_data_stats_resolves_its_clusters() {
    let mut registry = registry();
    assert_eq!(run_stats(&registry, None, None).err(), Some(CoreError::EmptyTarget));
    assert_eq!(
        run_stats(&registry, Some("x,z"), None).err(),
        Some(CoreError::ClusterNotFound { identifier: "z".to_string() })
    );
    registry.set_active("y".to_string()).unwrap();
    let run = run_stats(&registry, None, Some("uptime".to_string())).unwrap();
    let (_, action) = run.step(&registry, StatsEvent::Start);
    assert_eq!(action, ask("y", Some("uptime")));
}
