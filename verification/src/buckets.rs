//! What the bucket and cluster commands do with their arguments before
//! anything is sent, and how a bucket is shown.

use crate::error::CoreError;
use crate::error::CoreErrorView;
use crate::reconcile::fetch_operation;
use crate::reconcile::starting;
use crate::reconcile::BucketRecord;
use crate::reconcile::BucketRecordView;
use crate::reconcile::OperationView;
use crate::reconcile::Run;
use crate::registry::State;
use crate::registry::StateView;
use crate::resolver::cluster_identifiers_from;
use crate::resolver::resolved;
use crate::settings::bucket_type_name;
use crate::settings::durability_name;
use crate::settings::BucketEdit;
use vstd::prelude::*;
use vstd::string::*;

verus! {

/// Prepares `buckets get`: resolves the clusters that the command names,
/// or the active one, and sets up a run that reads the bucket called `bucket`
/// from each, or every bucket where `bucket` is empty.
pub fn buckets_get(state: &State, clusters: Option<&str>, bucket: String) -> (r: Result<
    Run,
    CoreError,
>)
    ensures
        match resolved(state@, clusters.deep_view(), true) {
            Ok(identifiers) => r is Ok && r->Ok_0@ == starting(
                if bucket@.len() == 0 {
                    OperationView::GetAll
                } else {
                    OperationView::GetOne { name: bucket@ }
                },
                identifiers,
            ),
            Err(e) => r is Err && r->Err_0@ == e,
        },
{
    match cluster_identifiers_from(state, clusters, true) {
        Ok(identifiers) => Ok(Run::new(fetch_operation(bucket), identifiers)),
        Err(e) => Err(e),
    }
}

/// Prepares `buckets update`: resolves the clusters that the command names,
/// or the active one, and sets up a run that applies `edit` to the bucket
/// called `name` on each.
pub fn buckets_update(
    state: &State,
    name: String,
    edit: BucketEdit,
    clusters: Option<&str>,
) -> (r: Result<Run, CoreError>)
    ensures
        match resolved(state@, clusters.deep_view(), true) {
            Ok(identifiers) => r is Ok && r->Ok_0@ == starting(
                OperationView::Update { name: name@, edit: edit@ },
                identifiers,
            ),
            Err(e) => r is Err && r->Err_0@ == e,
        },
{
    match cluster_identifiers_from(state, clusters, true) {
        Ok(identifiers) => Ok(Run::update(name, edit, identifiers)),
        Err(e) => Err(e),
    }
}

/// What an error says where `clusters unregister` is given no identifier.
pub open spec fn identifier_required() -> Seq<char> {
    "identifier is required"@
}

/// Runs `clusters unregister`: takes the cluster called `identifier` out of
/// the registry. It is an error to give no identifier, or one that is not
/// registered; the registry then stays as it is.
pub fn clusters_unregister(state: &mut State, identifier: Option<&str>) -> (r: Result<
    (),
    CoreError,
>)
    ensures
        match identifier {
            None => r is Err && r->Err_0@ == (CoreErrorView::Generic {
                message: identifier_required(),
                help: None,
            }) && final(state)@ == old(state)@,
            Some(id) => if old(state)@.clusters.dom().contains(id@) {
                r is Ok && final(state)@ == (StateView {
                    clusters: old(state)@.clusters.remove(id@),
                    ..old(state)@
                })
            } else {
                r is Err && r->Err_0@ == (CoreErrorView::ClusterNotFound { identifier: id@ })
                    && final(state)@ == old(state)@
            },
        },
{
    match identifier {
        None => Err(
            CoreError::Generic { message: String::from_str("identifier is required"), help: None },
        ),
        Some(id) => {
            if state.remove_cluster(id).is_some() {
                Ok(())
            } else {
                Err(CoreError::ClusterNotFound { identifier: String::from_str(id) })
            }
        },
    }
}

/// A bucket as the shell shows it.
#[derive(Debug, Clone, PartialEq, Eq)]
pub struct BucketRow {
    pub cluster: String,
    pub name: String,
    pub bucket_type: String,
    pub replicas: u32,
    pub min_durability_level: String,
    /// The memory quota in bytes.
    pub ram_quota: u128,
    pub flush_enabled: bool,
    /// Empty where the server said nothing of the bucket's health.
    pub status: String,
    pub cloud: bool,
}

/// The mathematical content of a [`BucketRow`].
pub struct BucketRowView {
    pub cluster: Seq<char>,
    pub name: Seq<char>,
    pub bucket_type: Seq<char>,
    pub replicas: nat,
    pub min_durability_level: Seq<char>,
    pub ram_quota: nat,
    pub flush_enabled: bool,
    pub status: Seq<char>,
    pub cloud: bool,
}

impl View for BucketRow {
    type V = BucketRowView;

    open spec fn view(&self) -> BucketRowView {
        BucketRowView {
            cluster: self.cluster@,
            name: self.name@,
            bucket_type: self.bucket_type@,
            replicas: self.replicas as nat,
            min_durability_level: self.min_durability_level@,
            ram_quota: self.ram_quota as nat,
            flush_enabled: self.flush_enabled,
            status: self.status@,
            cloud: self.cloud,
        }
    }
}

/// How a bucket's record is shown: type and durability by their names, the
/// memory quota in bytes, a missing status as empty text.
pub open spec fn row_of(record: BucketRecordView) -> BucketRowView {
    BucketRowView {
        cluster: record.cluster,
        name: record.settings.name,
        bucket_type: bucket_type_name(record.settings.bucket_type),
        replicas: record.settings.num_replicas,
        min_durability_level: durability_name(record.settings.minimum_durability_level),
        ram_quota: record.settings.ram_quota_mb * 1024 * 1024,
        flush_enabled: record.settings.flush_enabled,
        status: match record.settings.status {
            Some(s) => s,
            None => Seq::empty(),
        },
        cloud: record.cloud,
    }
}

/// The row that shows a bucket's record.
pub fn bucket_row(record: &BucketRecord) -> (row: BucketRow)
    ensures
        row@ == row_of(record@),
{
    let megabytes: u128 = record.settings.ram_quota_mb() as u128;
    BucketRow {
        cluster: record.cluster.clone(),
        name: record.settings.name().clone(),
        bucket_type: String::from_str(record.settings.bucket_type().as_str()),
        replicas: record.settings.num_replicas(),
        min_durability_level: String::from_str(
            record.settings.minimum_durability_level().as_str(),
        ),
        ram_quota: megabytes * 1048576u128,
        flush_enabled: record.settings.flush_enabled(),
        status: match record.settings.status() {
            Some(s) => s.clone(),
            None => String::new(),
        },
        cloud: record.cloud,
    }
}

} // verus!
