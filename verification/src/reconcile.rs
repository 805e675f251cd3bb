//! Reading and updating bucket settings on one cluster after another, as a
//! state machine. The machine decides; its host acts: each step takes what
//! came of the last action and says what to do next. The host sends requests,
//! turns response bodies into values and values into request bodies, and
//! hands the outcome back. Nothing is retried, and the first failure ends the
//! run.

use crate::collection::cloud_listing;
use crate::collection::cluster_of;
use crate::collection::find_cluster;
use crate::collection::list_cloud;
use crate::collection::list_onprem;
use crate::collection::onprem_listing;
use crate::collection::reconciled;
use crate::collection::select_bucket;
use crate::collection::selected;
use crate::collection::update_in_collection;
use crate::collection::JSONCloudCluster;
use crate::collection::JSONCloudClusterView;
use crate::dispatch::get_bucket_request;
use crate::dispatch::get_buckets_request;
use crate::dispatch::get_cloud_buckets_request;
use crate::dispatch::get_clusters_request;
use crate::dispatch::settle;
use crate::dispatch::settled;
use crate::dispatch::update_bucket_request;
use crate::dispatch::update_cloud_buckets_request;
use crate::dispatch::CapellaRequest;
use crate::dispatch::ManagementRequest;
use crate::dispatch::Outcome;
use crate::dispatch::OutcomeView;
use crate::dispatch::Request;
use crate::dispatch::RequestView;
use crate::error::CoreError;
use crate::error::CoreErrorView;
use crate::form::encode_form;
use crate::form::form_of;
use crate::form::form_urlencoded;
use crate::registry::State;
use crate::registry::StateView;
use crate::registry::TimeoutCategory;
use crate::settings::edited;
use crate::settings::update_bucket_settings;
use crate::settings::BucketEdit;
use crate::settings::BucketEditView;
use crate::settings::BucketSettings;
use crate::settings::BucketSettingsView;
use crate::wire::settings_of_onprem;
use crate::wire::JSONBucketSettings;
use crate::wire::JSONBucketSettingsView;
use crate::wire::JSONCloudBucketSettings;
use crate::wire::JSONCloudBucketSettingsView;
use vstd::prelude::*;
use vstd::string::*;

verus! {

/// What a run does on each of its clusters.
#[derive(Debug, Clone, PartialEq, Eq)]
pub enum Operation {
    /// Read the settings of every bucket.
    GetAll,
    /// Read the settings of the bucket called `name`.
    GetOne { name: String },
    /// Apply `edit` to the settings of the bucket called `name`.
    Update { name: String, edit: BucketEdit },
}

/// The mathematical content of an [`Operation`].
pub enum OperationView {
    GetAll,
    GetOne { name: Seq<char> },
    Update { name: Seq<char>, edit: BucketEditView },
}

impl View for Operation {
    type V = OperationView;

    open spec fn view(&self) -> OperationView {
        match self {
            Operation::GetAll => OperationView::GetAll,
            Operation::GetOne { name } => OperationView::GetOne { name: name@ },
            Operation::Update { name, edit } => OperationView::Update { name: name@, edit: edit@ },
        }
    }
}

/// Whom a request is sent to.
#[derive(Debug, Clone, PartialEq, Eq)]
pub enum Target {
    /// The management interface of the self-hosted cluster registered under
    /// `identifier`.
    Cluster { identifier: String },
    /// The control plane of the cloud organization registered under `id`.
    Organization { id: String },
}

/// The mathematical content of a [`Target`].
pub enum TargetView {
    Cluster { identifier: Seq<char> },
    Organization { id: Seq<char> },
}

impl View for Target {
    type V = TargetView;

    open spec fn view(&self) -> TargetView {
        match self {
            Target::Cluster { identifier } => TargetView::Cluster { identifier: identifier@ },
            Target::Organization { id } => TargetView::Organization { id: id@ },
        }
    }
}

/// What a response body is to be read as.
#[derive(Debug, Clone, Copy, PartialEq, Eq, Structural)]
pub enum Schema {
    /// The clusters of a cloud organization.
    Clusters,
    /// The buckets of a cluster, as the cloud control plane lists them.
    CloudBuckets,
    /// One bucket, as a self-hosted cluster describes it.
    Bucket,
    /// The buckets of a self-hosted cluster.
    Buckets,
}

/// What the host is to do next.
#[derive(Debug, Clone, PartialEq, Eq)]
pub enum Action {
    /// Send `request` to `target`, once, and allow it `timeout` milliseconds.
    Send { target: Target, request: Request, timeout: u64 },
    /// Read `content`, a response body, as `schema`.
    Decode { schema: Schema, content: String },
    /// Write `buckets` as the body of a request.
    Encode { buckets: Vec<JSONCloudBucketSettings> },
    /// Every cluster is done: collect the results.
    Finish,
    /// The run failed with `error`. No cluster is addressed after this.
    Fail { error: CoreError },
    /// The run ended before; there is nothing to do.
    Halt,
}

/// The mathematical content of an [`Action`].
pub enum ActionView {
    Send { target: TargetView, request: RequestView, timeout: u64 },
    Decode { schema: Schema, content: Seq<char> },
    Encode { buckets: Seq<JSONCloudBucketSettingsView> },
    Finish,
    Fail { error: CoreErrorView },
    Halt,
}

impl View for Action {
    type V = ActionView;

    open spec fn view(&self) -> ActionView {
        match self {
            Action::Send { target, request, timeout } => ActionView::Send {
                target: target@,
                request: request@,
                timeout: *timeout,
            },
            Action::Decode { schema, content } => ActionView::Decode {
                schema: *schema,
                content: content@,
            },
            Action::Encode { buckets } => ActionView::Encode { buckets: buckets.deep_view() },
            Action::Finish => ActionView::Finish,
            Action::Fail { error } => ActionView::Fail { error: error@ },
            Action::Halt => ActionView::Halt,
        }
    }
}

/// A response body, read.
#[derive(Debug, Clone, PartialEq, Eq)]
pub enum Decoded {
    Clusters(Vec<JSONCloudCluster>),
    CloudBuckets(Vec<JSONCloudBucketSettings>),
    Bucket(JSONBucketSettings),
    Buckets(Vec<JSONBucketSettings>),
}

/// The mathematical content of a [`Decoded`].
pub enum DecodedView {
    Clusters(Seq<JSONCloudClusterView>),
    CloudBuckets(Seq<JSONCloudBucketSettingsView>),
    Bucket(JSONBucketSettingsView),
    Buckets(Seq<JSONBucketSettingsView>),
}

impl View for Decoded {
    type V = DecodedView;

    open spec fn view(&self) -> DecodedView {
        match self {
            Decoded::Clusters(clusters) => DecodedView::Clusters(clusters.deep_view()),
            Decoded::CloudBuckets(buckets) => DecodedView::CloudBuckets(buckets.deep_view()),
            Decoded::Bucket(bucket) => DecodedView::Bucket(bucket@),
            Decoded::Buckets(buckets) => DecodedView::Buckets(buckets.deep_view()),
        }
    }
}

/// What came of the last action.
#[derive(Debug, Clone, PartialEq, Eq)]
pub enum Event {
    /// Nothing yet: the run is to begin.
    Start,
    /// The request was attempted, with this outcome.
    Completed(Outcome),
    /// The response body was read.
    Decoded(Decoded),
    /// The response body could not be read.
    DecodeFailed { detail: String },
    /// The request body was written.
    Encoded { payload: String },
    /// The request body could not be written.
    EncodeFailed { detail: String },
}

/// The mathematical content of an [`Event`].
pub enum EventView {
    Start,
    Completed(OutcomeView),
    Decoded(DecodedView),
    DecodeFailed { detail: Seq<char> },
    Encoded { payload: Seq<char> },
    EncodeFailed { detail: Seq<char> },
}

impl View for Event {
    type V = EventView;

    open spec fn view(&self) -> EventView {
        match self {
            Event::Start => EventView::Start,
            Event::Completed(outcome) => EventView::Completed(outcome@),
            Event::Decoded(decoded) => EventView::Decoded(decoded@),
            Event::DecodeFailed { detail } => EventView::DecodeFailed { detail: detail@ },
            Event::Encoded { payload } => EventView::Encoded { payload: payload@ },
            Event::EncodeFailed { detail } => EventView::EncodeFailed { detail: detail@ },
        }
    }
}

/// The settings of a bucket, with the cluster that holds it.
#[derive(Debug, Clone, PartialEq, Eq)]
pub struct BucketRecord {
    /// The identifier under which the cluster is registered.
    pub cluster: String,
    pub settings: BucketSettings,
    /// Whether the cluster is managed through the cloud control plane.
    pub cloud: bool,
}

/// The mathematical content of a [`BucketRecord`].
pub struct BucketRecordView {
    pub cluster: Seq<char>,
    pub settings: BucketSettingsView,
    pub cloud: bool,
}

impl View for BucketRecord {
    type V = BucketRecordView;

    open spec fn view(&self) -> BucketRecordView {
        BucketRecordView { cluster: self.cluster@, settings: self.settings@, cloud: self.cloud }
    }
}

impl DeepView for BucketRecord {
    type V = BucketRecordView;

    open spec fn deep_view(&self) -> BucketRecordView {
        self@
    }
}

/// How the bucket interface of the current cluster is reached.
#[derive(Debug)]
pub enum Route {
    /// Directly, at the cluster's own management interface.
    OnPrem,
    /// Through the control plane of `organization`, which knows the cluster
    /// as `cluster_id`.
    Cloud { organization: String, cluster_id: String },
}

/// The mathematical content of a [`Route`].
pub enum RouteView {
    OnPrem,
    Cloud { organization: Seq<char>, cluster_id: Seq<char> },
}

impl View for Route {
    type V = RouteView;

    open spec fn view(&self) -> RouteView {
        match self {
            Route::OnPrem => RouteView::OnPrem,
            Route::Cloud { organization, cluster_id } => RouteView::Cloud {
                organization: organization@,
                cluster_id: cluster_id@,
            },
        }
    }
}

/// Where a run stands on its current cluster.
#[derive(Debug)]
pub enum Phase {
    /// Not begun.
    Idle,
    /// The clusters of `organization` were asked for.
    Lookup { organization: String },
    /// The list of clusters is being read.
    LookupDecode { organization: String },
    /// The bucket, or the buckets, were asked for.
    Fetch { route: Route },
    /// What was fetched is being read.
    FetchDecode { route: Route },
    /// The collection to write back is being written as a request body.
    Encode { organization: String, cluster_id: String, pending: BucketSettings },
    /// The new settings were sent.
    Write { cloud: bool, pending: BucketSettings },
    /// Every cluster is done.
    Done,
    /// The run failed.
    Failed,
}

/// The mathematical content of a [`Phase`].
pub enum PhaseView {
    Idle,
    Lookup { organization: Seq<char> },
    LookupDecode { organization: Seq<char> },
    Fetch { route: RouteView },
    FetchDecode { route: RouteView },
    Encode { organization: Seq<char>, cluster_id: Seq<char>, pending: BucketSettingsView },
    Write { cloud: bool, pending: BucketSettingsView },
    Done,
    Failed,
}

impl PhaseView {
    /// Whether the run is at work on a cluster.
    pub open spec fn active(self) -> bool {
        !(self is Idle || self is Done || self is Failed)
    }

    /// Whether the run has ended.
    pub open spec fn ended(self) -> bool {
        self is Done || self is Failed
    }
}

impl View for Phase {
    type V = PhaseView;

    open spec fn view(&self) -> PhaseView {
        match self {
            Phase::Idle => PhaseView::Idle,
            Phase::Lookup { organization } => PhaseView::Lookup { organization: organization@ },
            Phase::LookupDecode { organization } => PhaseView::LookupDecode {
                organization: organization@,
            },
            Phase::Fetch { route } => PhaseView::Fetch { route: route@ },
            Phase::FetchDecode { route } => PhaseView::FetchDecode { route: route@ },
            Phase::Encode { organization, cluster_id, pending } => PhaseView::Encode {
                organization: organization@,
                cluster_id: cluster_id@,
                pending: pending@,
            },
            Phase::Write { cloud, pending } => PhaseView::Write { cloud: *cloud, pending: pending@ },
            Phase::Done => PhaseView::Done,
            Phase::Failed => PhaseView::Failed,
        }
    }
}

/// The mathematical content of a [`Run`].
pub struct RunView {
    pub operation: OperationView,
    /// The clusters to address, in order.
    pub identifiers: Seq<Seq<char>>,
    /// How many clusters are done.
    pub position: nat,
    /// How long a request to the current cluster may take, in milliseconds.
    pub timeout: u64,
    pub phase: PhaseView,
    /// What the clusters that are done gave.
    pub results: Seq<BucketRecordView>,
}

impl RunView {
    /// The cluster that the run is at.
    pub open spec fn current(self) -> Seq<char> {
        self.identifiers[self.position as int]
    }
}

/// The run of `operation` over `identifiers` that has not begun.
pub open spec fn starting(operation: OperationView, identifiers: Seq<Seq<char>>) -> RunView {
    RunView {
        operation,
        identifiers,
        position: 0,
        timeout: 0,
        phase: PhaseView::Idle,
        results: Seq::empty(),
    }
}

/// A run and what its host is to do next.
pub struct Step {
    pub run: RunView,
    pub action: ActionView,
}

/// The category by which the timeout of an operation's requests is chosen.
pub open spec fn category_of(operation: OperationView) -> TimeoutCategory {
    match operation {
        OperationView::Update { .. } => TimeoutCategory::Management,
        _ => TimeoutCategory::Query,
    }
}

/// The request with which an operation reads from a self-hosted cluster.
pub open spec fn fetch_request(operation: OperationView) -> RequestView {
    match operation {
        OperationView::GetAll => get_buckets_request(),
        OperationView::GetOne { name } => get_bucket_request(name),
        OperationView::Update { name, .. } => get_bucket_request(name),
    }
}

/// What the body of a fetched response is to be read as.
pub open spec fn schema_of(route: RouteView, operation: OperationView) -> Schema {
    match route {
        RouteView::Cloud { .. } => Schema::CloudBuckets,
        RouteView::OnPrem => match operation {
            OperationView::GetAll => Schema::Buckets,
            _ => Schema::Bucket,
        },
    }
}

/// Why flush, durability and expiry are refused on a cloud-managed cluster.
pub open spec fn restricted_reason() -> Seq<char> {
    "flush, durability and expiry cannot be set on a cluster that is managed through the cloud control plane"@
}

/// Why a cluster of the hosted tier takes no update of its buckets.
pub open spec fn hosted_reason() -> Seq<char> {
    "buckets cannot be updated on a cluster of the hosted tier"@
}

/// What an error says of an event that does not answer the last action.
pub open spec fn stray_event() -> Seq<char> {
    "the event does not answer the last action"@
}

/// The run fails with `error`.
pub open spec fn fails(run: RunView, error: CoreErrorView) -> Step {
    Step { run: RunView { phase: PhaseView::Failed, ..run }, action: ActionView::Fail { error } }
}

/// The run takes up the cluster at its position, or finishes where there is
/// none left. The cluster is looked up in the registry at this moment. An
/// update that touches flush, durability or expiry is refused for a cluster
/// that is managed through the cloud control plane, before anything is sent.
pub open spec fn begins(run: RunView, registry: StateView) -> Step {
    if run.position >= run.identifiers.len() {
        Step { run: RunView { phase: PhaseView::Done, ..run }, action: ActionView::Finish }
    } else if !registry.clusters.dom().contains(run.current()) {
        fails(run, CoreErrorView::ClusterNotFound { identifier: run.current() })
    } else {
        let cluster = registry.clusters[run.current()];
        let timeout = cluster.timeouts.of(category_of(run.operation));
        match cluster.cloud_ref {
            Some(organization) => {
                if run.operation matches OperationView::Update { edit, .. }
                    && edit.touches_restricted() {
                    fails(run, CoreErrorView::CapabilityConflict { reason: restricted_reason() })
                } else if !registry.organizations.dom().contains(organization) {
                    fails(run, CoreErrorView::OrganizationNotFound { identifier: organization })
                } else {
                    Step {
                        run: RunView { phase: PhaseView::Lookup { organization }, timeout, ..run },
                        action: ActionView::Send {
                            target: TargetView::Organization { id: organization },
                            request: get_clusters_request(run.current()),
                            timeout,
                        },
                    }
                }
            },
            None => Step {
                run: RunView {
                    phase: PhaseView::Fetch { route: RouteView::OnPrem },
                    timeout,
                    ..run
                },
                action: ActionView::Send {
                    target: TargetView::Cluster { identifier: run.current() },
                    request: fetch_request(run.operation),
                    timeout,
                },
            },
        }
    }
}

/// The current cluster is done and gave `records`: the run goes on to the
/// next.
pub open spec fn advances(
    run: RunView,
    registry: StateView,
    records: Seq<BucketRecordView>,
) -> Step {
    begins(
        RunView {
            position: run.position + 1,
            phase: PhaseView::Idle,
            results: run.results + records,
            ..run
        },
        registry,
    )
}

/// The records of `listing`, all of one cluster.
pub open spec fn records_of(
    listing: Seq<BucketSettingsView>,
    cluster: Seq<char>,
    cloud: bool,
) -> Seq<BucketRecordView> {
    Seq::new(listing.len(), |i: int| BucketRecordView { cluster, settings: listing[i], cloud })
}

/// The one record of `settings`.
pub open spec fn record_of(
    settings: BucketSettingsView,
    cluster: Seq<char>,
    cloud: bool,
) -> Seq<BucketRecordView> {
    seq![BucketRecordView { cluster, settings, cloud }]
}

/// The step after the form of the new settings was encoded, or refused
/// with the text `refusal`: the settings are sent to the self-hosted cluster.
pub open spec fn submits(
    run: RunView,
    name: Seq<char>,
    after: BucketSettingsView,
    encoded: Option<Seq<char>>,
    refusal: Seq<char>,
) -> Step {
    match encoded {
        None => fails(run, CoreErrorView::SerializeError { detail: refusal }),
        Some(payload) => Step {
            run: RunView { phase: PhaseView::Write { cloud: false, pending: after }, ..run },
            action: ActionView::Send {
                target: TargetView::Cluster { identifier: run.current() },
                request: update_bucket_request(name, payload),
                timeout: run.timeout,
            },
        },
    }
}

/// The step on what was fetched and read. `refusal` is the text with which
/// the form encoder refuses the new settings, where it does.
pub open spec fn on_fetched(
    run: RunView,
    registry: StateView,
    route: RouteView,
    decoded: DecodedView,
    refusal: Seq<char>,
) -> Step {
    match (route, decoded) {
        (RouteView::Cloud { organization, cluster_id }, DecodedView::CloudBuckets(buckets)) => {
            match run.operation {
                OperationView::GetAll => match cloud_listing(buckets) {
                    Err(e) => fails(run, e),
                    Ok(listing) => advances(
                        run,
                        registry,
                        records_of(listing, run.current(), true),
                    ),
                },
                OperationView::GetOne { name } => match selected(buckets, name) {
                    Err(e) => fails(run, e),
                    Ok(settings) => advances(
                        run,
                        registry,
                        record_of(settings, run.current(), true),
                    ),
                },
                OperationView::Update { name, edit } => match reconciled(buckets, name, edit) {
                    Err(e) => fails(run, e),
                    Ok((collection, after)) => Step {
                        run: RunView {
                            phase: PhaseView::Encode { organization, cluster_id, pending: after },
                            ..run
                        },
                        action: ActionView::Encode { buckets: collection },
                    },
                },
            }
        },
        (RouteView::OnPrem, DecodedView::Bucket(bucket)) => match run.operation {
            OperationView::GetAll => fails(
                run,
                CoreErrorView::Generic { message: stray_event(), help: None },
            ),
            OperationView::GetOne { name } => match settings_of_onprem(bucket) {
                Err(e) => fails(run, e),
                Ok(settings) => advances(run, registry, record_of(settings, run.current(), false)),
            },
            OperationView::Update { name, edit } => match settings_of_onprem(bucket) {
                Err(e) => fails(run, e),
                Ok(settings) => match edited(settings, edit) {
                    Err(e) => fails(run, e),
                    Ok(after) => submits(
                        run,
                        name,
                        after,
                        form_urlencoded(form_of(after)),
                        refusal,
                    ),
                },
            },
        },
        (RouteView::OnPrem, DecodedView::Buckets(buckets)) => match run.operation {
            OperationView::GetAll => match onprem_listing(buckets) {
                Err(e) => fails(run, e),
                Ok(listing) => advances(run, registry, records_of(listing, run.current(), false)),
            },
            _ => fails(run, CoreErrorView::Generic { message: stray_event(), help: None }),
        },
        _ => fails(run, CoreErrorView::Generic { message: stray_event(), help: None }),
    }
}

/// The step of a run: from where it stands and what came of its last action
/// to where it stands next and what its host is to do. `registry` is the
/// registry as it is at this moment. `refusal` is the text with which the
/// form encoder refuses the new settings, where it does.
pub open spec fn step_of(
    run: RunView,
    registry: StateView,
    event: EventView,
    refusal: Seq<char>,
) -> Step {
    match (run.phase, event) {
        (PhaseView::Done, _) => Step { run, action: ActionView::Halt },
        (PhaseView::Failed, _) => Step { run, action: ActionView::Halt },
        (PhaseView::Idle, EventView::Start) => begins(run, registry),
        (PhaseView::Lookup { organization }, EventView::Completed(outcome)) => match settled(
            outcome,
        ) {
            Err(e) => fails(run, e),
            Ok(content) => Step {
                run: RunView { phase: PhaseView::LookupDecode { organization }, ..run },
                action: ActionView::Decode { schema: Schema::Clusters, content },
            },
        },
        (
            PhaseView::LookupDecode { organization },
            EventView::Decoded(DecodedView::Clusters(clusters)),
        ) => match cluster_of(clusters, run.current()) {
            Err(e) => fails(run, e),
            Ok(cluster) => if run.operation is Update && cluster.hosted() {
                fails(run, CoreErrorView::CapabilityConflict { reason: hosted_reason() })
            } else {
                Step {
                    run: RunView {
                        phase: PhaseView::Fetch {
                            route: RouteView::Cloud { organization, cluster_id: cluster.id },
                        },
                        ..run
                    },
                    action: ActionView::Send {
                        target: TargetView::Organization { id: organization },
                        request: get_cloud_buckets_request(cluster.id),
                        timeout: run.timeout,
                    },
                }
            },
        },
        (PhaseView::LookupDecode { .. }, EventView::DecodeFailed { detail }) => fails(
            run,
            CoreErrorView::DeserializeError { detail },
        ),
        (PhaseView::Fetch { route }, EventView::Completed(outcome)) => match settled(outcome) {
            Err(e) => fails(run, e),
            Ok(content) => Step {
                run: RunView { phase: PhaseView::FetchDecode { route }, ..run },
                action: ActionView::Decode { schema: schema_of(route, run.operation), content },
            },
        },
        (PhaseView::FetchDecode { route }, EventView::Decoded(decoded)) => on_fetched(
            run,
            registry,
            route,
            decoded,
            refusal,
        ),
        (PhaseView::FetchDecode { .. }, EventView::DecodeFailed { detail }) => fails(
            run,
            CoreErrorView::DeserializeError { detail },
        ),
        (
            PhaseView::Encode { organization, cluster_id, pending },
            EventView::Encoded { payload },
        ) => Step {
            run: RunView { phase: PhaseView::Write { cloud: true, pending }, ..run },
            action: ActionView::Send {
                target: TargetView::Organization { id: organization },
                request: update_cloud_buckets_request(cluster_id, payload),
                timeout: run.timeout,
            },
        },
        (PhaseView::Encode { .. }, EventView::EncodeFailed { detail }) => fails(
            run,
            CoreErrorView::SerializeError { detail },
        ),
        (PhaseView::Write { cloud, pending }, EventView::Completed(outcome)) => match settled(
            outcome,
        ) {
            Err(e) => fails(run, e),
            Ok(_) => advances(run, registry, record_of(pending, run.current(), cloud)),
        },
        _ => fails(run, CoreErrorView::Generic { message: stray_event(), help: None }),
    }
}

/// The text of a serialization error that an action reports; empty for any
/// other action.
pub open spec fn refusal_in(action: ActionView) -> Seq<char> {
    match action {
        ActionView::Fail { error: CoreErrorView::SerializeError { detail } } => detail,
        _ => Seq::empty(),
    }
}

/// A run of one operation over a list of clusters.
#[derive(Debug)]
pub struct Run {
    operation: Operation,
    identifiers: Vec<String>,
    position: usize,
    timeout: u64,
    phase: Phase,
    results: Vec<BucketRecord>,
}

impl View for Run {
    type V = RunView;

    closed spec fn view(&self) -> RunView {
        RunView {
            operation: self.operation@,
            identifiers: self.identifiers.deep_view(),
            position: self.position as nat,
            timeout: self.timeout,
            phase: self.phase@,
            results: self.results.deep_view(),
        }
    }
}

/// The operation that reads the bucket called `bucket`, or every bucket
/// where `bucket` is empty.
pub fn fetch_operation(bucket: String) -> (operation: Operation)
    ensures
        operation@ == if bucket@.len() == 0 {
            OperationView::GetAll
        } else {
            OperationView::GetOne { name: bucket@ }
        },
{
    if bucket.as_str().unicode_len() == 0 {
        Operation::GetAll
    } else {
        Operation::GetOne { name: bucket }
    }
}

/// The records of the settings in `listing`, all of the cluster `cluster`.
pub fn records(listing: &Vec<BucketSettings>, cluster: &str, cloud: bool) -> (r: Vec<
    BucketRecord,
>)
    ensures
        r.deep_view() == records_of(listing.deep_view(), cluster@, cloud),
{
    let mut r: Vec<BucketRecord> = Vec::new();
    let mut i: usize = 0;
    while i < listing.len()
        invariant
            i <= listing.len(),
            r.len() == i,
            forall|j: int|
                0 <= j < i ==> (#[trigger] r[j])@ == (BucketRecordView {
                    cluster: cluster@,
                    settings: listing[j]@,
                    cloud,
                }),
        decreases listing.len() - i,
    {
        r.push(
            BucketRecord {
                cluster: String::from_str(cluster),
                settings: listing[i].clone(),
                cloud,
            },
        );
        i = i + 1;
    }
    r
}

/// What is sent to the self-hosted cluster `identifier` to give the bucket
/// `name` new settings, once their form is encoded; or the error with which
/// the encoder refused.
pub fn update_request_for(
    identifier: &str,
    name: &str,
    encoded: Result<String, CoreError>,
    timeout: u64,
) -> (r: Result<Action, CoreError>)
    ensures
        match encoded {
            Ok(payload) => r is Ok && r->Ok_0@ == (ActionView::Send {
                target: TargetView::Cluster { identifier: identifier@ },
                request: update_bucket_request(name@, payload@),
                timeout,
            }),
            Err(e) => r is Err && r->Err_0@ == e@,
        },
{
    match encoded {
        Ok(payload) => {
            let request = ManagementRequest::UpdateBucket {
                name: String::from_str(name),
                payload,
            };
            Ok(
                Action::Send {
                    target: Target::Cluster { identifier: String::from_str(identifier) },
                    request: request.request(),
                    timeout,
                },
            )
        },
        Err(e) => Err(e),
    }
}

impl Run {
    #[verifier::type_invariant]
    spec fn well_formed(self) -> bool {
        self.phase@.active() ==> self.position < self.identifiers.len()
    }

    /// A run of `operation` over the clusters `identifiers`, not begun.
    pub fn new(operation: Operation, identifiers: Vec<String>) -> (run: Run)
        ensures
            run@ == starting(operation@, identifiers.deep_view()),
    {
        let run = Run {
            operation,
            identifiers,
            position: 0,
            timeout: 0,
            phase: Phase::Idle,
            results: Vec::new(),
        };
        assert(run.results.deep_view() =~= Seq::<BucketRecordView>::empty());
        run
    }

    /// A run that applies `edit` to the bucket called `name` on each of the
    /// clusters `identifiers`.
    pub fn update(name: String, edit: BucketEdit, identifiers: Vec<String>) -> (run: Run)
        ensures
            run@ == starting(
                OperationView::Update { name: name@, edit: edit@ },
                identifiers.deep_view(),
            ),
    {
        Run::new(Operation::Update { name, edit }, identifiers)
    }

    /// Whether every cluster is done.
    pub fn is_done(&self) -> (r: bool)
        ensures
            r == self@.phase is Done,
    {
        match &self.phase {
            Phase::Done => true,
            _ => false,
        }
    }

    /// Whether the run failed.
    pub fn is_failed(&self) -> (r: bool)
        ensures
            r == self@.phase is Failed,
    {
        match &self.phase {
            Phase::Failed => true,
            _ => false,
        }
    }

    /// How many clusters are done.
    pub fn position(&self) -> (n: usize)
        ensures
            n == self@.position,
    {
        self.position
    }

    /// What the clusters that are done gave, in order.
    pub fn results(&self) -> (results: &Vec<BucketRecord>)
        ensures
            results.deep_view() == self@.results,
    {
        &self.results
    }

    /// Ends the run and hands out what the clusters that are done gave.
    pub fn into_results(self) -> (results: Vec<BucketRecord>)
        ensures
            results.deep_view() == self@.results,
    {
        self.results
    }

    fn current(&self) -> (identifier: String)
        requires
            self.position < self.identifiers.len(),
        ensures
            identifier@ == self@.current(),
    {
        self.identifiers[self.position].clone()
    }

    fn fail(self, error: CoreError) -> (next: (Run, Action))
        ensures
            (Step { run: next.0@, action: next.1@ }) == fails(self@, error@),
    {
        let run = Run {
            operation: self.operation,
            identifiers: self.identifiers,
            position: self.position,
            timeout: self.timeout,
            phase: Phase::Failed,
            results: self.results,
        };
        (run, Action::Fail { error })
    }

    fn stray(self) -> (next: (Run, Action))
        ensures
            (Step { run: next.0@, action: next.1@ }) == fails(
                self@,
                CoreErrorView::Generic { message: stray_event(), help: None },
            ),
    {
        self.fail(
            CoreError::Generic {
                message: String::from_str("the event does not answer the last action"),
                help: None,
            },
        )
    }

    fn enter(self, phase: Phase) -> (run: Run)
        requires
            phase@.active() ==> self.position < self.identifiers.len(),
        ensures
            run@ == (RunView { phase: phase@, ..self@ }),
    {
        Run {
            operation: self.operation,
            identifiers: self.identifiers,
            position: self.position,
            timeout: self.timeout,
            phase,
            results: self.results,
        }
    }

    fn begin(self, registry: &State) -> (next: (Run, Action))
        ensures
            (Step { run: next.0@, action: next.1@ }) == begins(self@, registry@),
    {
        if self.position >= self.identifiers.len() {
            return (self.enter(Phase::Done), Action::Finish);
        }
        let identifier = self.current();
        let cluster = match registry.get(identifier.as_str()) {
            Ok(cluster) => cluster,
            Err(e) => {
                return self.fail(e);
            },
        };
        let category = match &self.operation {
            Operation::Update { .. } => TimeoutCategory::Management,
            _ => TimeoutCategory::Query,
        };
        let timeout = cluster.timeouts.timeout(category);
        match &cluster.cloud_ref {
            Some(organization) => {
                let restricted = match &self.operation {
                    Operation::Update { edit, .. } => edit.touches_restricted(),
                    _ => false,
                };
                if restricted {
                    return self.fail(
                        CoreError::CapabilityConflict {
                            reason: String::from_str(
                                "flush, durability and expiry cannot be set on a cluster that is managed through the cloud control plane",
                            ),
                        },
                    );
                }
                match registry.organization(organization.as_str()) {
                    Ok(_) => {},
                    Err(e) => {
                        return self.fail(e);
                    },
                }
                let action = Action::Send {
                    target: Target::Organization { id: organization.clone() },
                    request: (CapellaRequest::GetClusters { name: identifier }).request(),
                    timeout,
                };
                let run = Run {
                    operation: self.operation,
                    identifiers: self.identifiers,
                    position: self.position,
                    timeout,
                    phase: Phase::Lookup { organization: organization.clone() },
                    results: self.results,
                };
                (run, action)
            },
            None => {
                let request = match &self.operation {
                    Operation::GetAll => ManagementRequest::GetBuckets.request(),
                    Operation::GetOne { name } => (ManagementRequest::GetBucket {
                        name: name.clone(),
                    }).request(),
                    Operation::Update { name, .. } => (ManagementRequest::GetBucket {
                        name: name.clone(),
                    }).request(),
                };
                let action = Action::Send {
                    target: Target::Cluster { identifier },
                    request,
                    timeout,
                };
                let run = Run {
                    operation: self.operation,
                    identifiers: self.identifiers,
                    position: self.position,
                    timeout,
                    phase: Phase::Fetch { route: Route::OnPrem },
                    results: self.results,
                };
                (run, action)
            },
        }
    }

    fn advance(self, registry: &State, records: Vec<BucketRecord>) -> (next: (Run, Action))
        requires
            self.position < self.identifiers.len(),
        ensures
            (Step { run: next.0@, action: next.1@ }) == advances(
                self@,
                registry@,
                records.deep_view(),
            ),
    {
        let ghost before = self.results.deep_view();
        let ghost added = records.deep_view();
        let mut results = self.results;
        let mut records = records;
        results.append(&mut records);
        assert(results.deep_view() =~= before + added);
        let run = Run {
            operation: self.operation,
            identifiers: self.identifiers,
            position: self.position + 1,
            timeout: self.timeout,
            phase: Phase::Idle,
            results,
        };
        run.begin(registry)
    }

    fn advance_with(
        self,
        registry: &State,
        settings: BucketSettings,
        cloud: bool,
    ) -> (next: (Run, Action))
        requires
            self.position < self.identifiers.len(),
        ensures
            (Step { run: next.0@, action: next.1@ }) == advances(
                self@,
                registry@,
                record_of(settings@, self@.current(), cloud),
            ),
    {
        let mut one: Vec<BucketRecord> = Vec::new();
        one.push(BucketRecord { cluster: self.current(), settings, cloud });
        assert(one.deep_view() =~= record_of(settings@, self@.current(), cloud));
        self.advance(registry, one)
    }

    fn submit(self, name: &str, after: BucketSettings, encoded: Result<String, CoreError>) -> (next:
        (Run, Action))
        requires
            self.position < self.identifiers.len(),
        ensures
            match encoded {
                Ok(payload) => (Step { run: next.0@, action: next.1@ }) == submits(
                    self@,
                    name@,
                    after@,
                    Some(payload@),
                    Seq::empty(),
                ),
                Err(e) => (Step { run: next.0@, action: next.1@ }) == fails(self@, e@),
            },
    {
        let identifier = self.current();
        match update_request_for(identifier.as_str(), name, encoded, self.timeout) {
            Ok(action) => (self.enter(Phase::Write { cloud: false, pending: after }), action),
            Err(e) => self.fail(e),
        }
    }

    fn fetched(self, registry: &State, route: Route, decoded: Decoded) -> (next: (Run, Action))
        requires
            self.position < self.identifiers.len(),
        ensures
            (Step { run: next.0@, action: next.1@ }) == on_fetched(
                self@,
                registry@,
                route@,
                decoded@,
                refusal_in(next.1@),
            ),
    {
        match (route, decoded) {
            (Route::Cloud { organization, cluster_id }, Decoded::CloudBuckets(buckets)) => {
                match &self.operation {
                    Operation::GetAll => match list_cloud(&buckets) {
                        Err(e) => self.fail(e),
                        Ok(listing) => {
                            let identifier = self.current();
                            let found = records(&listing, identifier.as_str(), true);
                            self.advance(registry, found)
                        },
                    },
                    Operation::GetOne { name } => match select_bucket(&buckets, name.as_str()) {
                        Err(e) => self.fail(e),
                        Ok(settings) => self.advance_with(registry, settings, true),
                    },
                    Operation::Update { name, edit } => match update_in_collection(
                        buckets,
                        name.as_str(),
                        edit,
                    ) {
                        Err(e) => self.fail(e),
                        Ok((collection, after)) => {
                            let action = Action::Encode { buckets: collection };
                            (
                                self.enter(
                                    Phase::Encode { organization, cluster_id, pending: after },
                                ),
                                action,
                            )
                        },
                    },
                }
            },
            (Route::OnPrem, Decoded::Bucket(bucket)) => match &self.operation {
                Operation::GetAll => self.stray(),
                Operation::GetOne { .. } => match bucket.to_settings() {
                    Err(e) => self.fail(e),
                    Ok(settings) => self.advance_with(registry, settings, false),
                },
                Operation::Update { name, edit } => match bucket.to_settings() {
                    Err(e) => self.fail(e),
                    Ok(settings) => {
                        let mut settings = settings;
                        match update_bucket_settings(&mut settings, edit) {
                            Err(e) => self.fail(e),
                            Ok(_) => {
                                let encoded = encode_form(&settings.as_form());
                                let name = name.clone();
                                self.submit(name.as_str(), settings, encoded)
                            },
                        }
                    },
                },
            },
            (Route::OnPrem, Decoded::Buckets(buckets)) => match &self.operation {
                Operation::GetAll => match list_onprem(&buckets) {
                    Err(e) => self.fail(e),
                    Ok(listing) => {
                        let identifier = self.current();
                        let found = records(&listing, identifier.as_str(), false);
                        self.advance(registry, found)
                    },
                },
                _ => self.stray(),
            },
            _ => self.stray(),
        }
    }

    /// Takes what came of the last action and says what to do next. The
    /// first step of a run takes `Event::Start`. `registry` is read at this
    /// moment and not kept. A step sends at most one request, once; after a
    /// failure no step sends anything.
    ///
    /// The step is the one that `step_of` describes. Where the form encoder
    /// refuses the new settings of a self-hosted bucket, the failure carries
    /// the encoder's own message, whatever it is.
    pub fn step(self, registry: &State, event: Event) -> (next: (Run, Action))
        ensures
            (Step { run: next.0@, action: next.1@ }) == step_of(
                self@,
                registry@,
                event@,
                refusal_in(next.1@),
            ),
    {
        proof {
            use_type_invariant(&self);
        }
        let Run { operation, identifiers, position, timeout, phase, results } = self;
        let run = Run { operation, identifiers, position, timeout, phase: Phase::Idle, results };
        match (phase, event) {
            (Phase::Done, _) => (run.enter(Phase::Done), Action::Halt),
            (Phase::Failed, _) => (run.enter(Phase::Failed), Action::Halt),
            (Phase::Idle, Event::Start) => run.begin(registry),
            (Phase::Lookup { organization }, Event::Completed(outcome)) => match settle(outcome) {
                Err(e) => run.fail(e),
                Ok(content) => (
                    run.enter(Phase::LookupDecode { organization }),
                    Action::Decode { schema: Schema::Clusters, content },
                ),
            },
            (Phase::LookupDecode { organization }, Event::Decoded(Decoded::Clusters(clusters))) => {
                let identifier = run.current();
                let found = match find_cluster(&clusters, identifier.as_str()) {
                    Ok(cluster) => Ok((cluster.id.clone(), cluster.is_hosted())),
                    Err(e) => Err(e),
                };
                let updating = match &run.operation {
                    Operation::Update { .. } => true,
                    _ => false,
                };
                match found {
                    Err(e) => run.fail(e),
                    Ok((cluster_id, hosted)) => {
                        if updating && hosted {
                            run.fail(
                                CoreError::CapabilityConflict {
                                    reason: String::from_str(
                                        "buckets cannot be updated on a cluster of the hosted tier",
                                    ),
                                },
                            )
                        } else {
                            let action = Action::Send {
                                target: Target::Organization { id: organization.clone() },
                                request: (CapellaRequest::GetBuckets {
                                    cluster_id: cluster_id.clone(),
                                }).request(),
                                timeout: run.timeout,
                            };
                            (
                                run.enter(
                                    Phase::Fetch {
                                        route: Route::Cloud { organization, cluster_id },
                                    },
                                ),
                                action,
                            )
                        }
                    },
                }
            },
            (Phase::LookupDecode { .. }, Event::DecodeFailed { detail }) => run.fail(
                CoreError::DeserializeError { detail },
            ),
            (Phase::Fetch { route }, Event::Completed(outcome)) => match settle(outcome) {
                Err(e) => run.fail(e),
                Ok(content) => {
                    let schema = match &route {
                        Route::Cloud { .. } => Schema::CloudBuckets,
                        Route::OnPrem => match &run.operation {
                            Operation::GetAll => Schema::Buckets,
                            _ => Schema::Bucket,
                        },
                    };
                    (run.enter(Phase::FetchDecode { route }), Action::Decode { schema, content })
                },
            },
            (Phase::FetchDecode { route }, Event::Decoded(decoded)) => run.fetched(
                registry,
                route,
                decoded,
            ),
            (Phase::FetchDecode { .. }, Event::DecodeFailed { detail }) => run.fail(
                CoreError::DeserializeError { detail },
            ),
            (Phase::Encode { organization, cluster_id, pending }, Event::Encoded { payload }) => {
                let action = Action::Send {
                    target: Target::Organization { id: organization },
                    request: (CapellaRequest::UpdateBucket { cluster_id, payload }).request(),
                    timeout: run.timeout,
                };
                (run.enter(Phase::Write { cloud: true, pending }), action)
            },
            (Phase::Encode { .. }, Event::EncodeFailed { detail }) => run.fail(
                CoreError::SerializeError { detail },
            ),
            (Phase::Write { cloud, pending }, Event::Completed(outcome)) => match settle(outcome) {
                Err(e) => run.fail(e),
                Ok(_) => run.advance_with(registry, pending, cloud),
            },
            _ => run.stray(),
        }
    }
}

} // verus!
