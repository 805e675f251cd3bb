//! Loading key/value statistics from one cluster after another, as a state
//! machine: each cluster is asked once, its statistics become rows, and the
//! first failure ends the run. The host does the asking.

use crate::error::CoreError;
use crate::error::CoreErrorView;
use crate::registry::State;
use crate::registry::StateView;
use crate::resolver::cluster_identifiers_from;
use crate::resolver::resolved;
use crate::text::split;
use crate::text::split_on;
use vstd::prelude::*;
use vstd::string::*;

verus! {

/// The character between host and port in a server's address.
pub const PORT_SEPARATOR: char = ':';

/// The host of a server's address: what stands before the first colon.
pub open spec fn host_of(server: Seq<char>) -> Seq<char> {
    split_on(server, PORT_SEPARATOR)[0]
}

/// The host of a server's address.
pub fn node_of(server: &str) -> (node: String)
    ensures
        node@ == host_of(server@),
{
    let pieces = split(server, PORT_SEPARATOR);
    pieces[0].clone()
}

/// One statistic of one node, as the shell shows it.
#[derive(Debug, Clone, PartialEq, Eq)]
pub struct StatRow {
    pub cluster: String,
    pub node: String,
    pub key: String,
    pub value: String,
}

/// The row that shows the statistic `key` of the server at `server`.
pub fn stat_row(cluster: &str, server: &str, key: &str, value: &str) -> (row: StatRow)
    ensures
        row.cluster@ == cluster@,
        row.node@ == host_of(server@),
        row.key@ == key@,
        row.value@ == value@,
{
    StatRow {
        cluster: String::from_str(cluster),
        node: node_of(server),
        key: String::from_str(key),
        value: String::from_str(value),
    }
}

/// One statistic as a node reports it.
#[derive(Debug, Clone, PartialEq, Eq)]
pub struct Stat {
    /// The address of the node, host and port.
    pub server: String,
    pub key: String,
    pub value: String,
}

/// The mathematical content of a [`Stat`].
pub struct StatView {
    pub server: Seq<char>,
    pub key: Seq<char>,
    pub value: Seq<char>,
}

impl View for Stat {
    type V = StatView;

    open spec fn view(&self) -> StatView {
        StatView { server: self.server@, key: self.key@, value: self.value@ }
    }
}

impl DeepView for Stat {
    type V = StatView;

    open spec fn deep_view(&self) -> StatView {
        self@
    }
}

/// The mathematical content of a [`StatRow`].
pub struct StatRowView {
    pub cluster: Seq<char>,
    pub node: Seq<char>,
    pub key: Seq<char>,
    pub value: Seq<char>,
}

impl View for StatRow {
    type V = StatRowView;

    open spec fn view(&self) -> StatRowView {
        StatRowView { cluster: self.cluster@, node: self.node@, key: self.key@, value: self.value@ }
    }
}

impl DeepView for StatRow {
    type V = StatRowView;

    open spec fn deep_view(&self) -> StatRowView {
        self@
    }
}

/// What the host of a statistics run is to do next.
#[derive(Debug, Clone, PartialEq, Eq)]
pub enum StatsAction {
    /// Load the statistics of the cluster registered under `cluster`, once;
    /// those under `key` where there is one.
    Ask { cluster: String, key: Option<String> },
    /// Every cluster is done: show the rows.
    Finish,
    /// The run failed with `error`. No cluster is asked after this.
    Fail { error: CoreError },
    /// The run ended before; there is nothing to do.
    Halt,
}

/// The mathematical content of a [`StatsAction`].
pub enum StatsActionView {
    Ask { cluster: Seq<char>, key: Option<Seq<char>> },
    Finish,
    Fail { error: CoreErrorView },
    Halt,
}

impl View for StatsAction {
    type V = StatsActionView;

    open spec fn view(&self) -> StatsActionView {
        match self {
            StatsAction::Ask { cluster, key } => StatsActionView::Ask {
                cluster: cluster@,
                key: key.deep_view(),
            },
            StatsAction::Finish => StatsActionView::Finish,
            StatsAction::Fail { error } => StatsActionView::Fail { error: error@ },
            StatsAction::Halt => StatsActionView::Halt,
        }
    }
}

/// What came of the last action of a statistics run.
#[derive(Debug, Clone, PartialEq, Eq)]
pub enum StatsEvent {
    /// Nothing yet: the run is to begin.
    Start,
    /// The cluster reported these statistics.
    Loaded(Vec<Stat>),
    /// The statistics could not be loaded.
    LoadFailed { detail: String },
}

/// The mathematical content of a [`StatsEvent`].
pub enum StatsEventView {
    Start,
    Loaded(Seq<StatView>),
    LoadFailed { detail: Seq<char> },
}

impl View for StatsEvent {
    type V = StatsEventView;

    open spec fn view(&self) -> StatsEventView {
        match self {
            StatsEvent::Start => StatsEventView::Start,
            StatsEvent::Loaded(stats) => StatsEventView::Loaded(stats.deep_view()),
            StatsEvent::LoadFailed { detail } => StatsEventView::LoadFailed { detail: detail@ },
        }
    }
}

/// Where a statistics run stands.
#[derive(Debug, Clone, Copy, PartialEq, Eq, Structural)]
pub enum StatsPhase {
    /// Not begun.
    Idle,
    /// The current cluster was asked.
    Asked,
    /// Every cluster is done.
    Done,
    /// The run failed.
    Failed,
}

/// The mathematical content of a [`StatsRun`].
pub struct StatsRunView {
    /// The key whose statistics are asked for, where the command names one.
    pub key: Option<Seq<char>>,
    /// The clusters to ask, in order.
    pub identifiers: Seq<Seq<char>>,
    /// How many clusters are done.
    pub position: nat,
    pub phase: StatsPhase,
    /// The statistics of the clusters that are done.
    pub rows: Seq<StatRowView>,
}

impl StatsRunView {
    /// The cluster that the run is at.
    pub open spec fn current(self) -> Seq<char> {
        self.identifiers[self.position as int]
    }
}

/// A statistics run and what its host is to do next.
pub struct StatsStep {
    pub run: StatsRunView,
    pub action: StatsActionView,
}

/// The run for `key` over `identifiers` that has not begun.
pub open spec fn stats_starting(key: Option<Seq<char>>, identifiers: Seq<Seq<char>>) -> StatsRunView {
    StatsRunView { key, identifiers, position: 0, phase: StatsPhase::Idle, rows: Seq::empty() }
}

/// The run fails with `error`.
pub open spec fn stats_fails(run: StatsRunView, error: CoreErrorView) -> StatsStep {
    StatsStep {
        run: StatsRunView { phase: StatsPhase::Failed, ..run },
        action: StatsActionView::Fail { error },
    }
}

/// The run takes up the cluster at its position, or finishes where there
/// is none left. The cluster must be registered at this moment.
pub open spec fn stats_begins(run: StatsRunView, registry: StateView) -> StatsStep {
    if run.position >= run.identifiers.len() {
        StatsStep {
            run: StatsRunView { phase: StatsPhase::Done, ..run },
            action: StatsActionView::Finish,
        }
    } else if !registry.clusters.dom().contains(run.current()) {
        stats_fails(run, CoreErrorView::ClusterNotFound { identifier: run.current() })
    } else {
        StatsStep {
            run: StatsRunView { phase: StatsPhase::Asked, ..run },
            action: StatsActionView::Ask { cluster: run.current(), key: run.key },
        }
    }
}

/// The rows of `stats`, all of one cluster: each with the host of the node
/// that reported it.
pub open spec fn stat_rows_of(stats: Seq<StatView>, cluster: Seq<char>) -> Seq<StatRowView> {
    Seq::new(
        stats.len(),
        |i: int|
            StatRowView {
                cluster,
                node: host_of(stats[i].server),
                key: stats[i].key,
                value: stats[i].value,
            },
    )
}

/// The step of a statistics run: from where it stands and what came of its
/// last action to where it stands next and what its host is to do.
pub open spec fn stats_step_of(
    run: StatsRunView,
    registry: StateView,
    event: StatsEventView,
) -> StatsStep {
    match (run.phase, event) {
        (StatsPhase::Done, _) => StatsStep { run, action: StatsActionView::Halt },
        (StatsPhase::Failed, _) => StatsStep { run, action: StatsActionView::Halt },
        (StatsPhase::Idle, StatsEventView::Start) => stats_begins(run, registry),
        (StatsPhase::Asked, StatsEventView::Loaded(stats)) => stats_begins(
            StatsRunView {
                position: run.position + 1,
                phase: StatsPhase::Idle,
                rows: run.rows + stat_rows_of(stats, run.current()),
                ..run
            },
            registry,
        ),
        (StatsPhase::Asked, StatsEventView::LoadFailed { detail }) => stats_fails(
            run,
            CoreErrorView::TransportError { detail },
        ),
        _ => stats_fails(
            run,
            CoreErrorView::Generic { message: crate::reconcile::stray_event(), help: None },
        ),
    }
}

/// Every step of a statistics run keeps the key and the clusters, and
/// keeps every row, in order. A failure is reported exactly when the run ends
/// as failed; a run that has ended stays as it is and gives its host nothing
/// to do.
pub proof fn lemma_stats_step_shape(run: StatsRunView, registry: StateView, event: StatsEventView)
    ensures
        ({
            let next = stats_step_of(run, registry, event);
            &&& next.run.key == run.key
            &&& next.run.identifiers == run.identifiers
            &&& next.run.position >= run.position
            &&& run.rows.is_prefix_of(next.run.rows)
            &&& next.action is Fail ==> next.run.phase == StatsPhase::Failed
            &&& next.action is Finish ==> next.run.phase == StatsPhase::Done
            &&& (run.phase == StatsPhase::Done || run.phase == StatsPhase::Failed) ==> next
                == (StatsStep { run, action: StatsActionView::Halt })
        }),
{
}

/// A run that loads statistics from a list of clusters.
#[derive(Debug)]
pub struct StatsRun {
    key: Option<String>,
    identifiers: Vec<String>,
    position: usize,
    phase: StatsPhase,
    rows: Vec<StatRow>,
}

impl View for StatsRun {
    type V = StatsRunView;

    closed spec fn view(&self) -> StatsRunView {
        StatsRunView {
            key: self.key.deep_view(),
            identifiers: self.identifiers.deep_view(),
            position: self.position as nat,
            phase: self.phase,
            rows: self.rows.deep_view(),
        }
    }
}

impl StatsRun {
    #[verifier::type_invariant]
    spec fn well_formed(self) -> bool {
        self.phase == StatsPhase::Asked ==> self.position < self.identifiers.len()
    }

    /// A run for `key` over the clusters `identifiers`, not begun.
    pub fn new(key: Option<String>, identifiers: Vec<String>) -> (run: StatsRun)
        ensures
            run@ == stats_starting(key.deep_view(), identifiers.deep_view()),
    {
        let run = StatsRun {
            key,
            identifiers,
            position: 0,
            phase: StatsPhase::Idle,
            rows: Vec::new(),
        };
        assert(run.rows.deep_view() =~= Seq::<StatRowView>::empty());
        run
    }

    /// Whether every cluster is done.
    pub fn is_done(&self) -> (r: bool)
        ensures
            r == (self@.phase == StatsPhase::Done),
    {
        self.phase == StatsPhase::Done
    }

    /// Whether the run failed.
    pub fn is_failed(&self) -> (r: bool)
        ensures
            r == (self@.phase == StatsPhase::Failed),
    {
        self.phase == StatsPhase::Failed
    }

    /// The statistics of the clusters that are done, in order.
    pub fn rows(&self) -> (rows: &Vec<StatRow>)
        ensures
            rows.deep_view() == self@.rows,
    {
        &self.rows
    }

    /// Ends the run and hands out the statistics of the clusters that are
    /// done.
    pub fn into_rows(self) -> (rows: Vec<StatRow>)
        ensures
            rows.deep_view() == self@.rows,
    {
        self.rows
    }

    fn current(&self) -> (identifier: String)
        requires
            self.position < self.identifiers.len(),
        ensures
            identifier@ == self@.current(),
    {
        self.identifiers[self.position].clone()
    }

    fn fail(self, error: CoreError) -> (next: (StatsRun, StatsAction))
        ensures
            (StatsStep { run: next.0@, action: next.1@ }) == stats_fails(self@, error@),
    {
        let run = StatsRun {
            key: self.key,
            identifiers: self.identifiers,
            position: self.position,
            phase: StatsPhase::Failed,
            rows: self.rows,
        };
        (run, StatsAction::Fail { error })
    }

    fn begin(self, registry: &State) -> (next: (StatsRun, StatsAction))
        ensures
            (StatsStep { run: next.0@, action: next.1@ }) == stats_begins(self@, registry@),
    {
        if self.position >= self.identifiers.len() {
            let run = StatsRun {
                key: self.key,
                identifiers: self.identifiers,
                position: self.position,
                phase: StatsPhase::Done,
                rows: self.rows,
            };
            return (run, StatsAction::Finish);
        }
        let identifier = self.current();
        if !registry.contains(identifier.as_str()) {
            return self.fail(CoreError::ClusterNotFound { identifier });
        }
        let key = match &self.key {
            Some(key) => Some(key.clone()),
            None => None,
        };
        let run = StatsRun {
            key: self.key,
            identifiers: self.identifiers,
            position: self.position,
            phase: StatsPhase::Asked,
            rows: self.rows,
        };
        (run, StatsAction::Ask { cluster: identifier, key })
    }

    fn collect(self, registry: &State, stats: Vec<Stat>) -> (next: (StatsRun, StatsAction))
        requires
            self.position < self.identifiers.len(),
        ensures
            (StatsStep { run: next.0@, action: next.1@ }) == stats_begins(
                StatsRunView {
                    position: self@.position + 1,
                    phase: StatsPhase::Idle,
                    rows: self@.rows + stat_rows_of(stats.deep_view(), self@.current()),
                    ..self@
                },
                registry@,
            ),
    {
        let identifier = self.current();
        let ghost before = self.rows.deep_view();
        let ghost all = stat_rows_of(stats.deep_view(), identifier@);
        let mut rows = self.rows;
        let mut i: usize = 0;
        while i < stats.len()
            invariant
                i <= stats.len(),
                all == stat_rows_of(stats.deep_view(), identifier@),
                rows.deep_view() == before + all.take(i as int),
            decreases stats.len() - i,
        {
            let ghost so_far = rows.deep_view();
            let row = stat_row(
                identifier.as_str(),
                stats[i].server.as_str(),
                stats[i].key.as_str(),
                stats[i].value.as_str(),
            );
            rows.push(row);
            proof {
                assert(stats.deep_view()[i as int] == stats[i as int]@);
                assert(all.take(i + 1) =~= all.take(i as int).push(row@));
                assert(rows.deep_view() =~= so_far.push(row@));
            }
            i = i + 1;
        }
        assert(all.take(i as int) =~= all);
        let run = StatsRun {
            key: self.key,
            identifiers: self.identifiers,
            position: self.position + 1,
            phase: StatsPhase::Idle,
            rows,
        };
        run.begin(registry)
    }

    /// Takes what came of the last action and says what to do next. The
    /// first step of a run takes `StatsEvent::Start`. `registry` is read at
    /// this moment and not kept. Each cluster is asked once; after a failure
    /// no cluster is asked.
    pub fn step(self, registry: &State, event: StatsEvent) -> (next: (StatsRun, StatsAction))
        ensures
            (StatsStep { run: next.0@, action: next.1@ }) == stats_step_of(
                self@,
                registry@,
                event@,
            ),
    {
        proof {
            use_type_invariant(&self);
        }
        match (self.phase, event) {
            (StatsPhase::Done, _) => (self, StatsAction::Halt),
            (StatsPhase::Failed, _) => (self, StatsAction::Halt),
            (StatsPhase::Idle, StatsEvent::Start) => self.begin(registry),
            (StatsPhase::Asked, StatsEvent::Loaded(stats)) => self.collect(registry, stats),
            (StatsPhase::Asked, StatsEvent::LoadFailed { detail }) => self.fail(
                CoreError::TransportError { detail },
            ),
            _ => self.fail(
                CoreError::Generic {
                    message: String::from_str("the event does not answer the last action"),
                    help: None,
                },
            ),
        }
    }
}

/// Prepares `data stats`: resolves the clusters that the command names, or
/// the active one, and sets up a run that loads the statistics under `key`,
/// or all where there is no key, from each.
pub fn run_stats(state: &State, clusters: Option<&str>, key: Option<String>) -> (r: Result<
    StatsRun,
    CoreError,
>)
    ensures
        match resolved(state@, clusters.deep_view(), true) {
            Ok(identifiers) => r is Ok && r->Ok_0@ == stats_starting(key.deep_view(), identifiers),
            Err(e) => r is Err && r->Err_0@ == e,
        },
{
    match cluster_identifiers_from(state, clusters, true) {
        Ok(identifiers) => Ok(StatsRun::new(key, identifiers)),
        Err(e) => Err(e),
    }
}

} // verus!
