//! The shell's commands, as far as they are independent of the shell that
//! hosts them: each one's name, usage line and arguments, and the shared
//! registry that it works on.

use crate::registry::State;
use crate::signature::CommandSignature;
use crate::signature::CommandSignatureView;
use crate::signature::Example;
use crate::signature::ExampleView;
use crate::signature::Shape;
use std::sync::Arc;
use std::sync::Mutex;
use vstd::prelude::*;
use vstd::string::*;

verus! {

/// `std::sync::Mutex`, carried through as an opaque value: the library never
/// locks it.
#[verifier::external_type_specification]
#[verifier::external_body]
#[verifier::reject_recursive_types(T)]
pub struct ExMutex<T: ?Sized>(Mutex<T>);

/// The signature of `analytics datasets`.
pub open spec fn analytics_datasets_signature() -> CommandSignatureView {
    CommandSignatureView::build("analytics datasets"@)
}

/// The command that lists the analytics datasets of the active cluster.
pub struct AnalyticsDatasets {
    state: Arc<State>,
}

impl AnalyticsDatasets {
    /// The shared registry that the command was made with.
    pub closed spec fn shared_state(&self) -> Arc<State> {
        self.state
    }

    /// A command over the shared registry `state`.
    pub fn new(state: Arc<State>) -> (command: Self)
        ensures
            command.shared_state() == state,
    {
        Self { state }
    }

    /// The shared registry, for the host to read.
    pub fn state(&self) -> (state: &Arc<State>)
        ensures
            *state == self.shared_state(),
    {
        &self.state
    }

    /// The name by which the shell calls the command.
    pub fn name(&self) -> (name: &'static str)
        ensures
            name@ == "analytics datasets"@,
    {
        "analytics datasets"
    }

    /// What the command does, in a line.
    pub fn usage(&self) -> (usage: &'static str)
        ensures
            usage@ == "Lists all analytics datasets"@,
    {
        "Lists all analytics datasets"
    }

    /// The arguments that the command takes.
    pub fn signature(&self) -> (signature: CommandSignature)
        ensures
            signature@ == analytics_datasets_signature(),
    {
        CommandSignature::build("analytics datasets")
    }
}

/// The signature of `analytics dataverses`.
pub open spec fn analytics_dataverses_signature() -> CommandSignatureView {
    CommandSignatureView::build("analytics dataverses"@)
}

/// The command that lists the analytics dataverses of the active cluster.
pub struct AnalyticsDataverses {
    state: Arc<State>,
}

impl AnalyticsDataverses {
    /// The shared registry that the command was made with.
    pub closed spec fn shared_state(&self) -> Arc<State> {
        self.state
    }

    /// A command over the shared registry `state`.
    pub fn new(state: Arc<State>) -> (command: Self)
        ensures
            command.shared_state() == state,
    {
        Self { state }
    }

    /// The shared registry, for the host to read.
    pub fn state(&self) -> (state: &Arc<State>)
        ensures
            *state == self.shared_state(),
    {
        &self.state
    }

    /// The name by which the shell calls the command.
    pub fn name(&self) -> (name: &'static str)
        ensures
            name@ == "analytics dataverses"@,
    {
        "analytics dataverses"
    }

    /// What the command does, in a line.
    pub fn usage(&self) -> (usage: &'static str)
        ensures
            usage@ == "Lists all analytics dataverses"@,
    {
        "Lists all analytics dataverses"
    }

    /// The arguments that the command takes.
    pub fn signature(&self) -> (signature: CommandSignature)
        ensures
            signature@ == analytics_dataverses_signature(),
    {
        CommandSignature::build("analytics dataverses")
    }
}

/// The signature of `buckets get`.
pub open spec fn buckets_get_signature() -> CommandSignatureView {
    CommandSignatureView::build("buckets get"@).named(
        "bucket"@,
        Shape::Text,
        "the name of the bucket"@,
    ).named(
        "clusters"@,
        Shape::Text,
        "the clusters which should be contacted"@,
    )
}

/// The command that fetches the settings of one bucket, or of all of them.
pub struct BucketsGet {
    state: Arc<Mutex<State>>,
}

impl BucketsGet {
    /// The shared registry that the command was made with.
    pub closed spec fn shared_state(&self) -> Arc<Mutex<State>> {
        self.state
    }

    /// A command over the shared registry `state`.
    pub fn new(state: Arc<Mutex<State>>) -> (command: Self)
        ensures
            command.shared_state() == state,
    {
        Self { state }
    }

    /// The shared registry, for the host to read under its lock.
    pub fn state(&self) -> (state: &Arc<Mutex<State>>)
        ensures
            *state == self.shared_state(),
    {
        &self.state
    }

    /// The name by which the shell calls the command.
    pub fn name(&self) -> (name: &'static str)
        ensures
            name@ == "buckets get"@,
    {
        "buckets get"
    }

    /// What the command does, in a line.
    pub fn usage(&self) -> (usage: &'static str)
        ensures
            usage@ == "Fetches buckets through the HTTP API"@,
    {
        "Fetches buckets through the HTTP API"
    }

    /// The arguments that the command takes.
    pub fn signature(&self) -> (signature: CommandSignature)
        ensures
            signature@ == buckets_get_signature(),
    {
        CommandSignature::build("buckets get").named(
            "bucket",
            Shape::Text,
            "the name of the bucket",
        ).named(
            "clusters",
            Shape::Text,
            "the clusters which should be contacted",
        )
    }
}

/// The signature of `buckets update`.
pub open spec fn buckets_update_signature() -> CommandSignatureView {
    CommandSignatureView::build("buckets update"@).required(
        "name"@,
        Shape::Text,
        "the name of the bucket"@,
    ).named(
        "ram"@,
        Shape::Integer,
        "the amount of ram to allocate (mb)"@,
    ).named(
        "replicas"@,
        Shape::Integer,
        "the number of replicas for the bucket"@,
    ).named(
        "flush"@,
        Shape::Text,
        "whether to enable flush"@,
    ).named(
        "durability"@,
        Shape::Text,
        "the minimum durability level"@,
    ).named(
        "expiry"@,
        Shape::Integer,
        "the maximum expiry for documents created in this bucket (seconds)"@,
    ).named(
        "clusters"@,
        Shape::Text,
        "the clusters which should be contacted"@,
    ).category("couchbase"@)
}

/// The command that edits the settings of a bucket.
#[derive(Clone)]
pub struct BucketsUpdate {
    state: Arc<Mutex<State>>,
}

impl BucketsUpdate {
    /// The shared registry that the command was made with.
    pub closed spec fn shared_state(&self) -> Arc<Mutex<State>> {
        self.state
    }

    /// A command over the shared registry `state`.
    pub fn new(state: Arc<Mutex<State>>) -> (command: Self)
        ensures
            command.shared_state() == state,
    {
        Self { state }
    }

    /// The shared registry, for the host to read under its lock.
    pub fn state(&self) -> (state: &Arc<Mutex<State>>)
        ensures
            *state == self.shared_state(),
    {
        &self.state
    }

    /// The name by which the shell calls the command.
    pub fn name(&self) -> (name: &'static str)
        ensures
            name@ == "buckets update"@,
    {
        "buckets update"
    }

    /// What the command does, in a line.
    pub fn usage(&self) -> (usage: &'static str)
        ensures
            usage@ == "Updates a bucket"@,
    {
        "Updates a bucket"
    }

    /// The arguments that the command takes.
    pub fn signature(&self) -> (signature: CommandSignature)
        ensures
            signature@ == buckets_update_signature(),
    {
        CommandSignature::build("buckets update").required(
            "name",
            Shape::Text,
            "the name of the bucket",
        ).named(
            "ram",
            Shape::Integer,
            "the amount of ram to allocate (mb)",
        ).named(
            "replicas",
            Shape::Integer,
            "the number of replicas for the bucket",
        ).named(
            "flush",
            Shape::Text,
            "whether to enable flush",
        ).named(
            "durability",
            Shape::Text,
            "the minimum durability level",
        ).named(
            "expiry",
            Shape::Integer,
            "the maximum expiry for documents created in this bucket (seconds)",
        ).named(
            "clusters",
            Shape::Text,
            "the clusters which should be contacted",
        ).category("couchbase")
    }
}

/// The signature of `clusters unregister`.
pub open spec fn clusters_unregister_signature() -> CommandSignatureView {
    CommandSignatureView::build("clusters unregister"@).required(
        "identifier"@,
        Shape::Text,
        "the identifier to use for this cluster"@,
    )
}

/// The command that removes a cluster from the registry.
pub struct ClustersUnregister {
    state: Arc<Mutex<State>>,
}

impl ClustersUnregister {
    /// The shared registry that the command was made with.
    pub closed spec fn shared_state(&self) -> Arc<Mutex<State>> {
        self.state
    }

    /// A command over the shared registry `state`.
    pub fn new(state: Arc<Mutex<State>>) -> (command: Self)
        ensures
            command.shared_state() == state,
    {
        Self { state }
    }

    /// The shared registry, for the host to read under its lock.
    pub fn state(&self) -> (state: &Arc<Mutex<State>>)
        ensures
            *state == self.shared_state(),
    {
        &self.state
    }

    /// The name by which the shell calls the command.
    pub fn name(&self) -> (name: &'static str)
        ensures
            name@ == "clusters unregister"@,
    {
        "clusters unregister"
    }

    /// What the command does, in a line.
    pub fn usage(&self) -> (usage: &'static str)
        ensures
            usage@ == "Removes a cluster from the shell's registry"@,
    {
        "Removes a cluster from the shell's registry"
    }

    /// The arguments that the command takes.
    pub fn signature(&self) -> (signature: CommandSignature)
        ensures
            signature@ == clusters_unregister_signature(),
    {
        CommandSignature::build("clusters unregister").required(
            "identifier",
            Shape::Text,
            "the identifier to use for this cluster",
        )
    }
}

/// The signature of `data stats`.
pub open spec fn data_stats_signature() -> CommandSignatureView {
    CommandSignatureView::build("data stats"@).named(
        "clusters"@,
        Shape::Text,
        "the clusters which should be contacted"@,
    ).named(
        "key"@,
        Shape::Text,
        "the custom stats key that should be passed down"@,
    )
}

/// The command that loads key/value statistics from clusters.
pub struct DataStats {
    state: Arc<State>,
}

impl DataStats {
    /// The shared registry that the command was made with.
    pub closed spec fn shared_state(&self) -> Arc<State> {
        self.state
    }

    /// A command over the shared registry `state`.
    pub fn new(state: Arc<State>) -> (command: Self)
        ensures
            command.shared_state() == state,
    {
        Self { state }
    }

    /// The shared registry, for the host to read.
    pub fn state(&self) -> (state: &Arc<State>)
        ensures
            *state == self.shared_state(),
    {
        &self.state
    }

    /// The name by which the shell calls the command.
    pub fn name(&self) -> (name: &'static str)
        ensures
            name@ == "data stats"@,
    {
        "data stats"
    }

    /// What the command does, in a line.
    pub fn usage(&self) -> (usage: &'static str)
        ensures
            usage@ == "Loads Key/Value statistics from the cluster"@,
    {
        "Loads Key/Value statistics from the cluster"
    }

    /// The arguments that the command takes.
    pub fn signature(&self) -> (signature: CommandSignature)
        ensures
            signature@ == data_stats_signature(),
    {
        CommandSignature::build("data stats").named(
            "clusters",
            Shape::Text,
            "the clusters which should be contacted",
        ).named(
            "key",
            Shape::Text,
            "the custom stats key that should be passed down",
        )
    }
}

/// The signature of `query indexes`.
pub open spec fn query_indexes_signature() -> CommandSignatureView {
    CommandSignatureView::build("query indexes"@).switch(
        "definitions"@,
        "Whether to fetch the index definitions (changes the output format)"@,
    ).named(
        "cluster"@,
        Shape::Text,
        "the cluster to query against"@,
    ).switch(
        "with-meta"@,
        "Includes related metadata in the result"@,
    )
}

/// The command that lists the query indexes of a cluster.
pub struct QueryIndexes {
    state: Arc<Mutex<State>>,
}

impl QueryIndexes {
    /// The shared registry that the command was made with.
    pub closed spec fn shared_state(&self) -> Arc<Mutex<State>> {
        self.state
    }

    /// A command over the shared registry `state`.
    pub fn new(state: Arc<Mutex<State>>) -> (command: Self)
        ensures
            command.shared_state() == state,
    {
        Self { state }
    }

    /// The shared registry, for the host to read under its lock.
    pub fn state(&self) -> (state: &Arc<Mutex<State>>)
        ensures
            *state == self.shared_state(),
    {
        &self.state
    }

    /// The name by which the shell calls the command.
    pub fn name(&self) -> (name: &'static str)
        ensures
            name@ == "query indexes"@,
    {
        "query indexes"
    }

    /// What the command does, in a line.
    pub fn usage(&self) -> (usage: &'static str)
        ensures
            usage@ == "Lists all query indexes"@,
    {
        "Lists all query indexes"
    }

    /// The arguments that the command takes.
    pub fn signature(&self) -> (signature: CommandSignature)
        ensures
            signature@ == query_indexes_signature(),
    {
        CommandSignature::build("query indexes").switch(
            "definitions",
            "Whether to fetch the index definitions (changes the output format)",
        ).named(
            "cluster",
            Shape::Text,
            "the cluster to query against",
        ).switch(
            "with-meta",
            "Includes related metadata in the result",
        )
    }
}

/// The signature of `vector search`.
pub open spec fn vector_search_signature() -> CommandSignatureView {
    CommandSignatureView::build("vector search"@).optional(
        "vector"@,
        Shape::NumberList,
        "the vector used for searching"@,
    ).required(
        "index"@,
        Shape::Text,
        "the index name"@,
    ).required(
        "field"@,
        Shape::Text,
        "name of the vector field the index was built on"@,
    ).named(
        "query"@,
        Shape::Text,
        "the text to query for using a query string query"@,
    ).named(
        "clusters"@,
        Shape::Text,
        "the clusters which should be contacted"@,
    ).named(
        "neighbors"@,
        Shape::Integer,
        "number of neighbors returned by vector search (default = 3)"@,
    ).named(
        "bucket"@,
        Shape::Text,
        "the name of the bucket"@,
    ).named(
        "scope"@,
        Shape::Text,
        "the name of the scope"@,
    ).category("couchbase"@)
}

/// The command that runs a vector search against clusters.
#[derive(Clone)]
pub struct VectorSearch {
    state: Arc<Mutex<State>>,
}

impl VectorSearch {
    /// The shared registry that the command was made with.
    pub closed spec fn shared_state(&self) -> Arc<Mutex<State>> {
        self.state
    }

    /// A command over the shared registry `state`.
    pub fn new(state: Arc<Mutex<State>>) -> (command: Self)
        ensures
            command.shared_state() == state,
    {
        Self { state }
    }

    /// The shared registry, for the host to read under its lock.
    pub fn state(&self) -> (state: &Arc<Mutex<State>>)
        ensures
            *state == self.shared_state(),
    {
        &self.state
    }

    /// The name by which the shell calls the command.
    pub fn name(&self) -> (name: &'static str)
        ensures
            name@ == "vector search"@,
    {
        "vector search"
    }

    /// What the command does, in a line.
    pub fn usage(&self) -> (usage: &'static str)
        ensures
            usage@ == "Performs a vector search query"@,
    {
        "Performs a vector search query"
    }

    /// The arguments that the command takes.
    pub fn signature(&self) -> (signature: CommandSignature)
        ensures
            signature@ == vector_search_signature(),
    {
        CommandSignature::build("vector search").optional(
            "vector",
            Shape::NumberList,
            "the vector used for searching",
        ).required(
            "index",
            Shape::Text,
            "the index name",
        ).required(
            "field",
            Shape::Text,
            "name of the vector field the index was built on",
        ).named(
            "query",
            Shape::Text,
            "the text to query for using a query string query",
        ).named(
            "clusters",
            Shape::Text,
            "the clusters which should be contacted",
        ).named(
            "neighbors",
            Shape::Integer,
            "number of neighbors returned by vector search (default = 3)",
        ).named(
            "bucket",
            Shape::Text,
            "the name of the bucket",
        ).named(
            "scope",
            Shape::Text,
            "the name of the scope",
        ).category("couchbase")
    }

    /// Examples of the command's use.
    pub fn examples(&self) -> (examples: Vec<Example>)
        ensures
            examples.deep_view() == vector_search_examples(),
    {
        let mut examples: Vec<Example> = Vec::new();
        examples.push(
            Example {
                description: "Source vector fetched using 'doc get'",
                example: "doc get 10019 | flatten | select contentVector  | vector search landmark-content-index contentVector",
            },
        );
        examples.push(
            Example {
                description: "Source vector fetched using 'subdoc get'",
                example: "subdoc get contentVector 10019 | select content | vector search landmark-content-index contentVector",
            },
        );
        examples.push(
            Example {
                description: "Plain source vector as positional parameter",
                example: "vector search vector-index fieldName [0.1 0.2 0.3 0.4]",
            },
        );
        examples
    }
}

/// The examples of `vector search`.
pub open spec fn vector_search_examples() -> Seq<ExampleView> {
    seq![
        ExampleView {
            description: "Source vector fetched using 'doc get'"@,
            example: "doc get 10019 | flatten | select contentVector  | vector search landmark-content-index contentVector"@,
        },
        ExampleView {
            description: "Source vector fetched using 'subdoc get'"@,
            example: "subdoc get contentVector 10019 | select content | vector search landmark-content-index contentVector"@,
        },
        ExampleView {
            description: "Plain source vector as positional parameter"@,
            example: "vector search vector-index fieldName [0.1 0.2 0.3 0.4]"@,
        },
    ]
}

} // verus!
