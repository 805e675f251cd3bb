//! What the query and analytics commands decide before and after the
//! shell's host talks to a cluster.

use crate::dispatch::index_status_request;
use crate::dispatch::ManagementRequest;
use crate::dispatch::Request;
use crate::dispatch::RequestView;
use crate::error::CoreError;
use crate::error::CoreErrorView;
use crate::json::json_elements_of;
use crate::json::json_member_of;
use crate::json::json_parsed;
use crate::json::json_text_of;
use crate::registry::RemoteCluster;
use crate::registry::RemoteClusterView;
use crate::registry::State;
use crate::registry::StateView;
use vstd::prelude::*;
use vstd::string::*;

verus! {

/// The statement that lists the query indexes.
pub open spec fn indexes_statement() -> Seq<char> {
    "select keyspace_id as `bucket`, name, state, `using` as `type`, ifmissing(condition, null) as condition, ifmissing(is_primary, false) as `primary`, index_key from system:indexes"@
}

/// The statement that lists the analytics datasets.
pub open spec fn datasets_statement() -> Seq<char> {
    "SELECT d.* FROM Metadata.`Dataset` d WHERE d.DataverseName <> \"Metadata\""@
}

/// The statement that lists the analytics dataverses.
pub open spec fn dataverses_statement() -> Seq<char> {
    "SELECT d.* FROM Metadata.`Dataverse` d WHERE d.DataverseName <> \"Metadata\""@
}

/// The cluster that a command addresses which takes at most one: the one
/// that it names, or the active one.
pub open spec fn single_target(state: StateView, cluster: Option<Seq<char>>) -> Result<
    RemoteClusterView,
    CoreErrorView,
> {
    match cluster {
        Some(identifier) => if state.clusters.dom().contains(identifier) {
            Ok(state.clusters[identifier])
        } else {
            Err(CoreErrorView::ClusterNotFound { identifier })
        },
        None => match state.active {
            None => Err(CoreErrorView::EmptyTarget),
            Some(active) => if state.clusters.dom().contains(active) {
                Ok(state.clusters[active])
            } else {
                Err(CoreErrorView::ClusterNotFound { identifier: active })
            },
        },
    }
}

/// Finds the cluster that a command addresses which takes at most one.
pub fn target_cluster<'a>(state: &'a State, cluster: Option<&str>) -> (r: Result<
    &'a RemoteCluster,
    CoreError,
>)
    ensures
        match single_target(state@, cluster.deep_view()) {
            Ok(target) => r is Ok && r->Ok_0@ == target,
            Err(e) => r is Err && r->Err_0@ == e,
        },
{
    match cluster {
        Some(identifier) => state.get(identifier),
        None => state.active_cluster(),
    }
}

/// What `query indexes` asks of its cluster.
#[derive(Debug, Clone, PartialEq, Eq)]
pub enum IndexesPlan {
    /// Fetch the index definitions from the management interface.
    Definitions { cluster: String, request: Request, timeout: u64 },
    /// Run `statement` as a query.
    Statement { cluster: String, statement: String, timeout: u64 },
}

/// The mathematical content of an [`IndexesPlan`].
pub enum IndexesPlanView {
    Definitions { cluster: Seq<char>, request: RequestView, timeout: u64 },
    Statement { cluster: Seq<char>, statement: Seq<char>, timeout: u64 },
}

impl View for IndexesPlan {
    type V = IndexesPlanView;

    open spec fn view(&self) -> IndexesPlanView {
        match self {
            IndexesPlan::Definitions { cluster, request, timeout } => IndexesPlanView::Definitions {
                cluster: cluster@,
                request: request@,
                timeout: *timeout,
            },
            IndexesPlan::Statement { cluster, statement, timeout } => IndexesPlanView::Statement {
                cluster: cluster@,
                statement: statement@,
                timeout: *timeout,
            },
        }
    }
}

/// What `query indexes` asks of `target`: the index definitions where
/// `definitions` is set, else the listing statement; either within the
/// cluster's query timeout.
pub open spec fn indexes_plan(target: RemoteClusterView, definitions: bool) -> IndexesPlanView {
    if definitions {
        IndexesPlanView::Definitions {
            cluster: target.identifier,
            request: index_status_request(),
            timeout: target.timeouts.query,
        }
    } else {
        IndexesPlanView::Statement {
            cluster: target.identifier,
            statement: indexes_statement(),
            timeout: target.timeouts.query,
        }
    }
}

/// Prepares `query indexes` for the cluster that the command names, or the
/// active one.
pub fn indexes(state: &State, cluster: Option<&str>, definitions: bool) -> (r: Result<
    IndexesPlan,
    CoreError,
>)
    ensures
        match single_target(state@, cluster.deep_view()) {
            Ok(target) => r is Ok && r->Ok_0@ == indexes_plan(target, definitions),
            Err(e) => r is Err && r->Err_0@ == e,
        },
{
    let target = match target_cluster(state, cluster) {
        Ok(target) => target,
        Err(e) => {
            return Err(e);
        },
    };
    if definitions {
        Ok(
            IndexesPlan::Definitions {
                cluster: target.identifier.clone(),
                request: ManagementRequest::IndexStatus.request(),
                timeout: target.timeouts.query,
            },
        )
    } else {
        Ok(
            IndexesPlan::Statement {
                cluster: target.identifier.clone(),
                statement: String::from_str(
                    "select keyspace_id as `bucket`, name, state, `using` as `type`, ifmissing(condition, null) as condition, ifmissing(is_primary, false) as `primary`, index_key from system:indexes",
                ),
                timeout: target.timeouts.query,
            },
        )
    }
}

/// What a query response holds under `results`.
#[derive(Debug, Clone, PartialEq, Eq)]
pub enum ResultsField {
    /// The response has no such field.
    Absent,
    /// The field is not a list.
    NotArray,
    /// The field lists these rows, each as JSON text.
    Rows(Vec<String>),
}

/// The mathematical content of a [`ResultsField`].
pub enum ResultsFieldView {
    Absent,
    NotArray,
    Rows(Seq<Seq<char>>),
}

impl View for ResultsField {
    type V = ResultsFieldView;

    open spec fn view(&self) -> ResultsFieldView {
        match self {
            ResultsField::Absent => ResultsFieldView::Absent,
            ResultsField::NotArray => ResultsFieldView::NotArray,
            ResultsField::Rows(rows) => ResultsFieldView::Rows(rows.deep_view()),
        }
    }
}

/// What an error says of a query response without results.
pub open spec fn results_missing() -> Seq<char> {
    "Query toplevel result not an object - malformed response"@
}

/// What an error says of a query response whose results are not a list.
pub open spec fn results_not_array() -> Seq<char> {
    "Query result not an array - malformed response"@
}

/// What `query indexes` shows of a query response: the whole response
/// `content` as the one row where metadata was asked for, else the rows under
/// `results`; without metadata a response without rows is an error.
pub open spec fn shown_rows(
    with_meta: bool,
    content: Seq<char>,
    results: ResultsFieldView,
) -> Result<Seq<Seq<char>>, CoreErrorView> {
    if with_meta {
        Ok(seq![content])
    } else {
        match results {
            ResultsFieldView::Rows(rows) => Ok(rows),
            ResultsFieldView::NotArray => Err(
                CoreErrorView::Generic { message: results_not_array(), help: None },
            ),
            ResultsFieldView::Absent => Err(
                CoreErrorView::Generic { message: results_missing(), help: None },
            ),
        }
    }
}

/// Picks what `query indexes` shows of a query response: the whole response
/// `content` where metadata was asked for, else the rows under `results`. A
/// response without rows is an error.
pub fn result_rows(with_meta: bool, content: String, results: ResultsField) -> (r: Result<
    Vec<String>,
    CoreError,
>)
    ensures
        match shown_rows(with_meta, content@, results@) {
            Ok(rows) => r is Ok && r->Ok_0.deep_view() == rows,
            Err(e) => r is Err && r->Err_0@ == e,
        },
{
    if with_meta {
        let mut rows: Vec<String> = Vec::new();
        rows.push(content);
        assert(rows.deep_view() =~= seq![content@]);
        Ok(rows)
    } else {
        match results {
            ResultsField::Rows(rows) => Ok(rows),
            ResultsField::NotArray => Err(
                CoreError::Generic {
                    message: String::from_str("Query result not an array - malformed response"),
                    help: None,
                },
            ),
            ResultsField::Absent => Err(
                CoreError::Generic {
                    message: String::from_str(
                        "Query toplevel result not an object - malformed response",
                    ),
                    help: None,
                },
            ),
        }
    }
}

/// What a query response holds under `results`: nothing where it has no
/// such member, no list where the member is no array, and else the elements of
/// the member, in order, each as JSON text.
pub open spec fn results_in(response: serde_json::Value) -> ResultsFieldView {
    match json_member_of(response, "results"@) {
        None => ResultsFieldView::Absent,
        Some(field) => match json_elements_of(field) {
            None => ResultsFieldView::NotArray,
            Some(elements) => ResultsFieldView::Rows(
                Seq::new(elements.len(), |i: int| json_text_of(elements[i])),
            ),
        },
    }
}

/// Looks into a query response for what it holds under `results`, with
/// each row as JSON text.
fn read_results(response: &serde_json::Value) -> (results: ResultsField)
    ensures
        results@ == results_in(*response),
{
    let field = match crate::json::json_member(response, "results") {
        Some(field) => field,
        None => {
            return ResultsField::Absent;
        },
    };
    let elements = match field.as_array() {
        Some(elements) => elements,
        None => {
            return ResultsField::NotArray;
        },
    };
    let mut rows: Vec<String> = Vec::new();
    let mut i: usize = 0;
    while i < elements.len()
        invariant
            i <= elements.len(),
            rows.len() == i,
            forall|j: int| 0 <= j < i ==> (#[trigger] rows[j])@ == json_text_of(elements[j]),
        decreases elements.len() - i,
    {
        rows.push(crate::json::json_text(&elements[i]));
        i = i + 1;
    }
    assert(rows.deep_view() =~= Seq::new(elements@.len(), |i: int| json_text_of(elements@[i])));
    ResultsField::Rows(rows)
}

/// Picks what `query indexes` shows of a query response: the body is read
/// as JSON; where metadata was asked for, the whole body is the one row, else
/// the rows are what the body lists under `results`. A body that is no JSON,
/// or that lists no results, is an error.
pub fn query_rows(with_meta: bool, content: String) -> (r: Result<Vec<String>, CoreError>)
    ensures
        match json_parsed(content@) {
            None => r is Err && r->Err_0 is DeserializeError,
            Some(response) => match shown_rows(with_meta, content@, results_in(response)) {
                Ok(rows) => r is Ok && r->Ok_0.deep_view() == rows,
                Err(e) => r is Err && r->Err_0@ == e,
            },
        },
{
    let response = match crate::json::parse_json(content.as_str()) {
        Ok(response) => response,
        Err(e) => {
            return Err(CoreError::DeserializeError { detail: e.to_string() });
        },
    };
    let results = read_results(&response);
    result_rows(with_meta, content, results)
}

/// A query index as the management interface defines it.
#[derive(Debug, Clone, PartialEq, Eq)]
pub struct IndexDefinition {
    pub bucket: String,
    pub definition: String,
    pub collection: Option<String>,
    pub scope: Option<String>,
    /// `indexName`
    pub index_name: String,
    pub status: String,
    /// `storageMode`
    pub storage_mode: String,
    /// `numReplica`
    pub replicas: u8,
}

/// A query index as the shell shows it.
#[derive(Debug, Clone, PartialEq, Eq)]
pub struct IndexRow {
    pub bucket: String,
    /// Empty where the index has no scope.
    pub scope: String,
    /// Empty where the index has no collection.
    pub collection: String,
    pub name: String,
    pub status: String,
    pub storage_mode: String,
    pub replicas: u8,
    pub definition: String,
}

/// The text of an optional field; empty where it is missing.
pub open spec fn text_or_empty(field: Option<String>) -> Seq<char> {
    match field {
        Some(text) => text@,
        None => Seq::empty(),
    }
}

/// The row that shows an index definition.
pub fn index_row(definition: IndexDefinition) -> (row: IndexRow)
    ensures
        row.bucket@ == definition.bucket@,
        row.scope@ == text_or_empty(definition.scope),
        row.collection@ == text_or_empty(definition.collection),
        row.name@ == definition.index_name@,
        row.status@ == definition.status@,
        row.storage_mode@ == definition.storage_mode@,
        row.replicas == definition.replicas,
        row.definition@ == definition.definition@,
{
    IndexRow {
        bucket: definition.bucket,
        scope: match definition.scope {
            Some(scope) => scope,
            None => String::new(),
        },
        collection: match definition.collection {
            Some(collection) => collection,
            None => String::new(),
        },
        name: definition.index_name,
        status: definition.status,
        storage_mode: definition.storage_mode,
        replicas: definition.replicas,
        definition: definition.definition,
    }
}

/// An analytics statement and the cluster to run it on.
#[derive(Debug, Clone, PartialEq, Eq)]
pub struct AnalyticsPlan {
    pub cluster: String,
    pub statement: String,
    /// In milliseconds.
    pub timeout: u64,
}

fn analytics(state: &State, statement: &str) -> (r: Result<AnalyticsPlan, CoreError>)
    ensures
        match single_target(state@, None) {
            Ok(target) => r is Ok && r->Ok_0.cluster@ == target.identifier
                && r->Ok_0.statement@ == statement@ && r->Ok_0.timeout
                == target.timeouts.analytics,
            Err(e) => r is Err && r->Err_0@ == e,
        },
{
    match state.active_cluster() {
        Ok(target) => Ok(
            AnalyticsPlan {
                cluster: target.identifier.clone(),
                statement: String::from_str(statement),
                timeout: target.timeouts.analytics,
            },
        ),
        Err(e) => Err(e),
    }
}

/// Prepares `analytics datasets`: the listing statement, for the active
/// cluster, within its analytics timeout.
pub fn datasets(state: &State) -> (r: Result<AnalyticsPlan, CoreError>)
    ensures
        match single_target(state@, None) {
            Ok(target) => r is Ok && r->Ok_0.cluster@ == target.identifier
                && r->Ok_0.statement@ == datasets_statement() && r->Ok_0.timeout
                == target.timeouts.analytics,
            Err(e) => r is Err && r->Err_0@ == e,
        },
{
    analytics(state, "SELECT d.* FROM Metadata.`Dataset` d WHERE d.DataverseName <> \"Metadata\"")
}

/// Prepares `analytics dataverses`: the listing statement, for the active
/// cluster, within its analytics timeout.
pub fn dataverses(state: &State) -> (r: Result<AnalyticsPlan, CoreError>)
    ensures
        match single_target(state@, None) {
            Ok(target) => r is Ok && r->Ok_0.cluster@ == target.identifier
                && r->Ok_0.statement@ == dataverses_statement() && r->Ok_0.timeout
                == target.timeouts.analytics,
            Err(e) => r is Err && r->Err_0@ == e,
        },
{
    analytics(
        state,
        "SELECT d.* FROM Metadata.`Dataverse` d WHERE d.DataverseName <> \"Metadata\"",
    )
}

} // verus!
