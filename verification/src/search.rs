//! A vector search on one cluster after another, as a state machine: each
//! cluster is asked once, its hits are read, and the first failure ends the
//! run. The machine decides what to ask and what the answer means; its host
//! sends the search and reads the body of the response.

use crate::dispatch::settle;
use crate::dispatch::settled;
use crate::dispatch::Outcome;
use crate::dispatch::OutcomeView;
use crate::error::CoreError;
use crate::error::CoreErrorView;
use crate::registry::State;
use crate::registry::StateView;
use crate::text::same_text;
use vstd::prelude::*;
use vstd::string::*;

verus! {

/// What an error says where a command needs a bucket and is given none.
pub open spec fn bucket_required() -> Seq<char> {
    "Could not auto-select a bucket - please use --bucket"@
}

/// The text of an optional argument; empty where it is missing.
pub open spec fn argument_or_empty(argument: Option<String>) -> Seq<char> {
    match argument {
        Some(text) => text@,
        None => Seq::empty(),
    }
}

/// The namespace of bucket, scope and collection that a command's flags
/// name. The bucket must be named; scope and collection are empty where they
/// are not.
pub fn namespace_from_args(
    bucket_flag: Option<String>,
    scope_flag: Option<String>,
    collection_flag: Option<String>,
) -> (r: Result<(String, String, String), CoreError>)
    ensures
        match bucket_flag {
            Some(bucket) => r is Ok && r->Ok_0.0@ == bucket@ && r->Ok_0.1@ == argument_or_empty(
                scope_flag,
            ) && r->Ok_0.2@ == argument_or_empty(collection_flag),
            None => r is Err && r->Err_0@ == (CoreErrorView::Generic {
                message: bucket_required(),
                help: None,
            }),
        },
{
    let bucket = match bucket_flag {
        Some(bucket) => bucket,
        None => {
            return Err(
                CoreError::Generic {
                    message: String::from_str(
                        "Could not auto-select a bucket - please use --bucket",
                    ),
                    help: None,
                },
            );
        },
    };
    let scope = match scope_flag {
        Some(scope) => scope,
        None => String::new(),
    };
    let collection = match collection_flag {
        Some(collection) => collection,
        None => String::new(),
    };
    Ok((bucket, scope, collection))
}

/// The name of the scope that stands for none.
pub open spec fn default_scope() -> Seq<char> {
    "_default"@
}

/// The name of a search index inside a namespace of bucket, scope and
/// collection: bucket, scope and index, joined by dots, with the default
/// scope where the namespace names none.
pub open spec fn qualified_index_name(
    index: Seq<char>,
    namespace: (Seq<char>, Seq<char>, Seq<char>),
) -> Seq<char> {
    namespace.0 + "."@ + (if namespace.1.len() == 0 {
        default_scope()
    } else {
        namespace.1
    }) + "."@ + index
}

/// Qualifies the name of a search index by the bucket and the scope of a
/// namespace.
pub fn index_name_from_namespace(index: String, namespace: (String, String, String)) -> (name:
    String)
    ensures
        name@ == qualified_index_name(index@, (namespace.0@, namespace.1@, namespace.2@)),
{
    let scope = if namespace.1.as_str().unicode_len() == 0 {
        String::from_str("_default")
    } else {
        namespace.1
    };
    namespace.0.concat(".").concat(scope.as_str()).concat(".").concat(index.as_str())
}

/// Whether `id` is the id of a vector document: it begins with `vector`
/// and goes on after it.
pub open spec fn vector_id(id: Seq<char>) -> bool {
    id.len() > 6 && id.subrange(0, 6) == "vector"@
}

/// Whether `id` is the id of a vector document.
pub fn is_vector_id(id: &str) -> (r: bool)
    ensures
        r == vector_id(id@),
{
    if id.unicode_len() > 6 {
        same_text(id.substring_char(0, 6), "vector")
    } else {
        false
    }
}

/// How many neighbors a vector search returns where the command does not
/// say.
pub const DEFAULT_NEIGHBORS: i64 = 3;

/// The number of neighbors that a vector search returns: what the command
/// asks for, else three.
pub fn neighbors_or_default(neighbors: Option<i64>) -> (n: i64)
    ensures
        n == match neighbors {
            Some(asked) => asked,
            None => DEFAULT_NEIGHBORS,
        },
{
    match neighbors {
        Some(asked) => asked,
        None => DEFAULT_NEIGHBORS,
    }
}

/// The error for input that holds no vector.
pub fn failed_to_parse_input_vector_error() -> (e: CoreError)
    ensures
        e@ == (CoreErrorView::Generic {
            message: "Could not parse input vector"@,
            help: Some(
                "Piped input must be correctly formatted, run 'vector search --help' for examples"@,
            ),
        }),
{
    CoreError::Generic {
        message: String::from_str("Could not parse input vector"),
        help: Some(
            String::from_str(
                "Piped input must be correctly formatted, run 'vector search --help' for examples",
            ),
        ),
    }
}

/// A hit as the search service reports it.
#[derive(Debug, Clone, PartialEq, Eq)]
pub struct SearchHit {
    /// The id of the document.
    pub id: String,
    /// The score of the document, as it is shown.
    pub score: String,
}

/// The mathematical content of a [`SearchHit`].
pub struct SearchHitView {
    pub id: Seq<char>,
    pub score: Seq<char>,
}

impl View for SearchHit {
    type V = SearchHitView;

    open spec fn view(&self) -> SearchHitView {
        SearchHitView { id: self.id@, score: self.score@ }
    }
}

impl DeepView for SearchHit {
    type V = SearchHitView;

    open spec fn deep_view(&self) -> SearchHitView {
        self@
    }
}

/// A hit as the shell shows it.
#[derive(Debug, Clone, PartialEq, Eq)]
pub struct SearchRow {
    pub id: String,
    pub score: String,
    /// The identifier of the cluster that reported the hit.
    pub cluster: String,
}

/// The mathematical content of a [`SearchRow`].
pub struct SearchRowView {
    pub id: Seq<char>,
    pub score: Seq<char>,
    pub cluster: Seq<char>,
}

impl View for SearchRow {
    type V = SearchRowView;

    open spec fn view(&self) -> SearchRowView {
        SearchRowView { id: self.id@, score: self.score@, cluster: self.cluster@ }
    }
}

impl DeepView for SearchRow {
    type V = SearchRowView;

    open spec fn deep_view(&self) -> SearchRowView {
        self@
    }
}

/// What the host of a search is to do next.
#[derive(Debug, Clone, PartialEq, Eq)]
pub enum SearchAction {
    /// Run the search against the index `index` of the cluster registered
    /// under `cluster`, once, and allow it `timeout` milliseconds.
    Ask { cluster: String, index: String, timeout: u64 },
    /// Read the hits out of `content`, a response body.
    Read { content: String },
    /// Every cluster is done: show the rows.
    Finish,
    /// The search failed with `error`. No cluster is asked after this.
    Fail { error: CoreError },
    /// The search ended before; there is nothing to do.
    Halt,
}

/// The mathematical content of a [`SearchAction`].
pub enum SearchActionView {
    Ask { cluster: Seq<char>, index: Seq<char>, timeout: u64 },
    Read { content: Seq<char> },
    Finish,
    Fail { error: CoreErrorView },
    Halt,
}

impl View for SearchAction {
    type V = SearchActionView;

    open spec fn view(&self) -> SearchActionView {
        match self {
            SearchAction::Ask { cluster, index, timeout } => SearchActionView::Ask {
                cluster: cluster@,
                index: index@,
                timeout: *timeout,
            },
            SearchAction::Read { content } => SearchActionView::Read { content: content@ },
            SearchAction::Finish => SearchActionView::Finish,
            SearchAction::Fail { error } => SearchActionView::Fail { error: error@ },
            SearchAction::Halt => SearchActionView::Halt,
        }
    }
}

/// What came of the last action of a search.
#[derive(Debug, Clone, PartialEq, Eq)]
pub enum SearchEvent {
    /// Nothing yet: the search is to begin.
    Start,
    /// The search was attempted, with this outcome.
    Completed(Outcome),
    /// The response body held these hits.
    Hits(Vec<SearchHit>),
    /// The response body could not be read.
    ReadFailed { detail: String },
}

/// The mathematical content of a [`SearchEvent`].
pub enum SearchEventView {
    Start,
    Completed(OutcomeView),
    Hits(Seq<SearchHitView>),
    ReadFailed { detail: Seq<char> },
}

impl View for SearchEvent {
    type V = SearchEventView;

    open spec fn view(&self) -> SearchEventView {
        match self {
            SearchEvent::Start => SearchEventView::Start,
            SearchEvent::Completed(outcome) => SearchEventView::Completed(outcome@),
            SearchEvent::Hits(hits) => SearchEventView::Hits(hits.deep_view()),
            SearchEvent::ReadFailed { detail } => SearchEventView::ReadFailed { detail: detail@ },
        }
    }
}

/// Where a search stands on its current cluster.
#[derive(Debug, Clone, Copy, PartialEq, Eq, Structural)]
pub enum SearchPhase {
    /// Not begun.
    Idle,
    /// The cluster was asked.
    Asked,
    /// The response is being read.
    Reading,
    /// Every cluster is done.
    Done,
    /// The search failed.
    Failed,
}

/// The mathematical content of a [`SearchRun`].
pub struct SearchRunView {
    /// The name of the index, not yet qualified.
    pub index: Seq<char>,
    /// The bucket, scope and collection in which the index lives.
    pub namespace: (Seq<char>, Seq<char>, Seq<char>),
    /// The clusters to ask, in order.
    pub identifiers: Seq<Seq<char>>,
    /// How many clusters are done.
    pub position: nat,
    pub phase: SearchPhase,
    /// The hits of the clusters that are done.
    pub rows: Seq<SearchRowView>,
}

impl SearchRunView {
    /// The cluster that the search is at.
    pub open spec fn current(self) -> Seq<char> {
        self.identifiers[self.position as int]
    }
}

/// A search and what its host is to do next.
pub struct SearchStep {
    pub run: SearchRunView,
    pub action: SearchActionView,
}

/// The search for `index` inside `namespace` over `identifiers` that has
/// not begun.
pub open spec fn search_starting(
    index: Seq<char>,
    namespace: (Seq<char>, Seq<char>, Seq<char>),
    identifiers: Seq<Seq<char>>,
) -> SearchRunView {
    SearchRunView {
        index,
        namespace,
        identifiers,
        position: 0,
        phase: SearchPhase::Idle,
        rows: Seq::empty(),
    }
}

/// The search fails with `error`.
pub open spec fn search_fails(run: SearchRunView, error: CoreErrorView) -> SearchStep {
    SearchStep {
        run: SearchRunView { phase: SearchPhase::Failed, ..run },
        action: SearchActionView::Fail { error },
    }
}

/// The search takes up the cluster at its position, or finishes where
/// there is none left. The cluster is looked up in the registry at this
/// moment, and asked within its search timeout.
pub open spec fn search_begins(run: SearchRunView, registry: StateView) -> SearchStep {
    if run.position >= run.identifiers.len() {
        SearchStep {
            run: SearchRunView { phase: SearchPhase::Done, ..run },
            action: SearchActionView::Finish,
        }
    } else if !registry.clusters.dom().contains(run.current()) {
        search_fails(run, CoreErrorView::ClusterNotFound { identifier: run.current() })
    } else {
        SearchStep {
            run: SearchRunView { phase: SearchPhase::Asked, ..run },
            action: SearchActionView::Ask {
                cluster: run.current(),
                index: qualified_index_name(run.index, run.namespace),
                timeout: registry.clusters[run.current()].timeouts.search,
            },
        }
    }
}

/// The rows of `hits`, all of one cluster.
pub open spec fn rows_of(hits: Seq<SearchHitView>, cluster: Seq<char>) -> Seq<SearchRowView> {
    Seq::new(
        hits.len(),
        |i: int| SearchRowView { id: hits[i].id, score: hits[i].score, cluster },
    )
}

/// The step of a search: from where it stands and what came of its last
/// action to where it stands next and what its host is to do.
pub open spec fn search_step_of(
    run: SearchRunView,
    registry: StateView,
    event: SearchEventView,
) -> SearchStep {
    match (run.phase, event) {
        (SearchPhase::Done, _) => SearchStep { run, action: SearchActionView::Halt },
        (SearchPhase::Failed, _) => SearchStep { run, action: SearchActionView::Halt },
        (SearchPhase::Idle, SearchEventView::Start) => search_begins(run, registry),
        (SearchPhase::Asked, SearchEventView::Completed(outcome)) => match settled(outcome) {
            Err(e) => search_fails(run, e),
            Ok(content) => SearchStep {
                run: SearchRunView { phase: SearchPhase::Reading, ..run },
                action: SearchActionView::Read { content },
            },
        },
        (SearchPhase::Reading, SearchEventView::Hits(hits)) => search_begins(
            SearchRunView {
                position: run.position + 1,
                phase: SearchPhase::Idle,
                rows: run.rows + rows_of(hits, run.current()),
                ..run
            },
            registry,
        ),
        (SearchPhase::Reading, SearchEventView::ReadFailed { detail }) => search_fails(
            run,
            CoreErrorView::DeserializeError { detail },
        ),
        _ => search_fails(
            run,
            CoreErrorView::Generic { message: crate::reconcile::stray_event(), help: None },
        ),
    }
}

/// Every step of a search keeps the index, the namespace and the clusters,
/// and keeps every row, in order. A failure is reported exactly when the
/// search ends as failed; a search that has ended stays as it is and gives its
/// host nothing to do.
pub proof fn lemma_search_step_shape(
    run: SearchRunView,
    registry: StateView,
    event: SearchEventView,
)
    ensures
        ({
            let next = search_step_of(run, registry, event);
            &&& next.run.index == run.index
            &&& next.run.namespace == run.namespace
            &&& next.run.identifiers == run.identifiers
            &&& next.run.position >= run.position
            &&& run.rows.is_prefix_of(next.run.rows)
            &&& next.action is Fail ==> next.run.phase == SearchPhase::Failed
            &&& next.action is Finish ==> next.run.phase == SearchPhase::Done
            &&& (run.phase == SearchPhase::Done || run.phase == SearchPhase::Failed) ==> next
                == (SearchStep { run, action: SearchActionView::Halt })
        }),
{
}

/// A vector search over a list of clusters.
#[derive(Debug)]
pub struct SearchRun {
    index: String,
    namespace: (String, String, String),
    identifiers: Vec<String>,
    position: usize,
    phase: SearchPhase,
    rows: Vec<SearchRow>,
}

impl View for SearchRun {
    type V = SearchRunView;

    closed spec fn view(&self) -> SearchRunView {
        SearchRunView {
            index: self.index@,
            namespace: (self.namespace.0@, self.namespace.1@, self.namespace.2@),
            identifiers: self.identifiers.deep_view(),
            position: self.position as nat,
            phase: self.phase,
            rows: self.rows.deep_view(),
        }
    }
}

impl SearchRun {
    #[verifier::type_invariant]
    spec fn well_formed(self) -> bool {
        (self.phase == SearchPhase::Asked || self.phase == SearchPhase::Reading) ==> self.position
            < self.identifiers.len()
    }

    /// A search for `index` inside `namespace` over the clusters
    /// `identifiers`, not begun.
    pub fn new(index: String, namespace: (String, String, String), identifiers: Vec<String>) -> (run:
        SearchRun)
        ensures
            run@ == search_starting(
                index@,
                (namespace.0@, namespace.1@, namespace.2@),
                identifiers.deep_view(),
            ),
    {
        let run = SearchRun {
            index,
            namespace,
            identifiers,
            position: 0,
            phase: SearchPhase::Idle,
            rows: Vec::new(),
        };
        assert(run.rows.deep_view() =~= Seq::<SearchRowView>::empty());
        run
    }

    /// Whether every cluster is done.
    pub fn is_done(&self) -> (r: bool)
        ensures
            r == (self@.phase == SearchPhase::Done),
    {
        self.phase == SearchPhase::Done
    }

    /// Whether the search failed.
    pub fn is_failed(&self) -> (r: bool)
        ensures
            r == (self@.phase == SearchPhase::Failed),
    {
        self.phase == SearchPhase::Failed
    }

    /// The hits of the clusters that are done, in order.
    pub fn rows(&self) -> (rows: &Vec<SearchRow>)
        ensures
            rows.deep_view() == self@.rows,
    {
        &self.rows
    }

    /// Ends the search and hands out the hits of the clusters that are
    /// done.
    pub fn into_rows(self) -> (rows: Vec<SearchRow>)
        ensures
            rows.deep_view() == self@.rows,
    {
        self.rows
    }

    fn current(&self) -> (identifier: String)
        requires
            self.position < self.identifiers.len(),
        ensures
            identifier@ == self@.current(),
    {
        self.identifiers[self.position].clone()
    }

    fn fail(self, error: CoreError) -> (next: (SearchRun, SearchAction))
        ensures
            (SearchStep { run: next.0@, action: next.1@ }) == search_fails(self@, error@),
    {
        let run = SearchRun {
            index: self.index,
            namespace: self.namespace,
            identifiers: self.identifiers,
            position: self.position,
            phase: SearchPhase::Failed,
            rows: self.rows,
        };
        (run, SearchAction::Fail { error })
    }

    fn enter(self, phase: SearchPhase) -> (run: SearchRun)
        requires
            (phase == SearchPhase::Asked || phase == SearchPhase::Reading) ==> self.position
                < self.identifiers.len(),
        ensures
            run@ == (SearchRunView { phase, ..self@ }),
    {
        SearchRun {
            index: self.index,
            namespace: self.namespace,
            identifiers: self.identifiers,
            position: self.position,
            phase,
            rows: self.rows,
        }
    }

    fn begin(self, registry: &State) -> (next: (SearchRun, SearchAction))
        ensures
            (SearchStep { run: next.0@, action: next.1@ }) == search_begins(self@, registry@),
    {
        if self.position >= self.identifiers.len() {
            return (self.enter(SearchPhase::Done), SearchAction::Finish);
        }
        let identifier = self.current();
        let timeout = match registry.get(identifier.as_str()) {
            Ok(cluster) => cluster.timeouts.search,
            Err(e) => {
                return self.fail(e);
            },
        };
        let namespace = (self.namespace.0.clone(), self.namespace.1.clone(), self.namespace.2.clone());
        let index = index_name_from_namespace(self.index.clone(), namespace);
        (self.enter(SearchPhase::Asked), SearchAction::Ask { cluster: identifier, index, timeout })
    }

    fn collect(self, registry: &State, hits: Vec<SearchHit>) -> (next: (SearchRun, SearchAction))
        requires
            self.position < self.identifiers.len(),
        ensures
            (SearchStep { run: next.0@, action: next.1@ }) == search_begins(
                SearchRunView {
                    position: self@.position + 1,
                    phase: SearchPhase::Idle,
                    rows: self@.rows + rows_of(hits.deep_view(), self@.current()),
                    ..self@
                },
                registry@,
            ),
    {
        let identifier = self.current();
        let ghost before = self.rows.deep_view();
        let mut rows = self.rows;
        let mut i: usize = 0;
        while i < hits.len()
            invariant
                i <= hits.len(),
                rows.deep_view() == before + rows_of(hits.deep_view(), identifier@).take(i as int),
            decreases hits.len() - i,
        {
            let ghost so_far = rows.deep_view();
            let row = SearchRow {
                id: hits[i].id.clone(),
                score: hits[i].score.clone(),
                cluster: identifier.clone(),
            };
            rows.push(row);
            proof {
                let all = rows_of(hits.deep_view(), identifier@);
                assert(rows.deep_view() =~= so_far.push(row@));
            }
            i = i + 1;
        }
        proof {
            let all = rows_of(hits.deep_view(), identifier@);
            assert(all.take(i as int) =~= all);
        }
        let run = SearchRun {
            index: self.index,
            namespace: self.namespace,
            identifiers: self.identifiers,
            position: self.position + 1,
            phase: SearchPhase::Idle,
            rows,
        };
        run.begin(registry)
    }

    /// Takes what came of the last action and says what to do next. The
    /// first step of a search takes `SearchEvent::Start`. `registry` is read
    /// at this moment and not kept. Each cluster is asked once; after a
    /// failure no cluster is asked.
    pub fn step(self, registry: &State, event: SearchEvent) -> (next: (SearchRun, SearchAction))
        ensures
            (SearchStep { run: next.0@, action: next.1@ }) == search_step_of(
                self@,
                registry@,
                event@,
            ),
    {
        proof {
            use_type_invariant(&self);
        }
        match (self.phase, event) {
            (SearchPhase::Done, _) => (self, SearchAction::Halt),
            (SearchPhase::Failed, _) => (self, SearchAction::Halt),
            (SearchPhase::Idle, SearchEvent::Start) => self.begin(registry),
            (SearchPhase::Asked, SearchEvent::Completed(outcome)) => match settle(outcome) {
                Err(e) => self.fail(e),
                Ok(content) => (
                    self.enter(SearchPhase::Reading),
                    SearchAction::Read { content },
                ),
            },
            (SearchPhase::Reading, SearchEvent::Hits(hits)) => self.collect(registry, hits),
            (SearchPhase::Reading, SearchEvent::ReadFailed { detail }) => self.fail(
                CoreError::DeserializeError { detail },
            ),
            _ => self.fail(
                CoreError::Generic {
                    message: String::from_str("the event does not answer the last action"),
                    help: None,
                },
            ),
        }
    }
}

/// Prepares `vector search`: resolves the clusters that the command
/// names, or the active one, and sets up a search for `index` inside the
/// namespace that the bucket and scope flags name.
pub fn vector_search(
    state: &State,
    index: String,
    bucket_flag: Option<String>,
    scope_flag: Option<String>,
    clusters: Option<&str>,
) -> (r: Result<SearchRun, CoreError>)
    ensures
        match crate::resolver::resolved(state@, clusters.deep_view(), true) {
            Err(e) => r is Err && r->Err_0@ == e,
            Ok(identifiers) => match bucket_flag {
                None => r is Err && r->Err_0@ == (CoreErrorView::Generic {
                    message: bucket_required(),
                    help: None,
                }),
                Some(bucket) => r is Ok && r->Ok_0@ == search_starting(
                    index@,
                    (bucket@, argument_or_empty(scope_flag), Seq::empty()),
                    identifiers,
                ),
            },
        },
{
    let identifiers = match crate::resolver::cluster_identifiers_from(state, clusters, true) {
        Ok(identifiers) => identifiers,
        Err(e) => {
            return Err(e);
        },
    };
    match namespace_from_args(bucket_flag, scope_flag, None) {
        Ok(namespace) => Ok(SearchRun::new(index, namespace, identifiers)),
        Err(e) => Err(e),
    }
}

} // verus!
