//! Work on what the cloud control plane and a self-hosted cluster list: the
//! clusters of an organization, and the buckets of a cluster. The control
//! plane hands out and takes back the buckets of a cluster only as a whole,
//! so an edit to one bucket is made inside the collection.

use crate::error::CoreError;
use crate::error::CoreErrorView;
use crate::settings::edited;
use crate::settings::update_bucket_settings;
use crate::settings::BucketEdit;
use crate::settings::BucketEditView;
use crate::settings::BucketSettings;
use crate::settings::BucketSettingsView;
use crate::table::position;
use crate::text::same_text;
use crate::wire::cloud_of;
use crate::wire::settings_of_cloud;
use crate::wire::settings_of_onprem;
use crate::wire::JSONBucketSettings;
use crate::wire::JSONBucketSettingsView;
use crate::wire::JSONCloudBucketSettings;
use crate::wire::JSONCloudBucketSettingsView;
use vstd::prelude::*;
use vstd::string::*;

verus! {

/// A cluster as the cloud control plane lists it.
#[derive(Debug, Clone, PartialEq, Eq)]
pub struct JSONCloudCluster {
    /// The id by which the control plane knows the cluster.
    pub id: String,
    /// The name that its operator gave it.
    pub name: String,
    /// The environment in which the cluster runs; `hosted` for one that the
    /// cloud provider runs in full.
    pub environment: String,
}

/// The mathematical content of a [`JSONCloudCluster`].
pub struct JSONCloudClusterView {
    pub id: Seq<char>,
    pub name: Seq<char>,
    pub environment: Seq<char>,
}

impl View for JSONCloudCluster {
    type V = JSONCloudClusterView;

    open spec fn view(&self) -> JSONCloudClusterView {
        JSONCloudClusterView { id: self.id@, name: self.name@, environment: self.environment@ }
    }
}

impl JSONCloudClusterView {
    /// Whether the cluster is of the hosted tier.
    pub open spec fn hosted(self) -> bool {
        self.environment == "hosted"@
    }
}

impl JSONCloudCluster {
    /// Whether the cluster is of the hosted tier.
    pub fn is_hosted(&self) -> (r: bool)
        ensures
            r == self@.hosted(),
    {
        same_text(self.environment.as_str(), "hosted")
    }
}

impl DeepView for JSONCloudCluster {
    type V = JSONCloudClusterView;

    open spec fn deep_view(&self) -> JSONCloudClusterView {
        self@
    }
}

/// The listed clusters, each under its name.
pub open spec fn clusters_by_name(clusters: Seq<JSONCloudClusterView>) -> Seq<
    (Seq<char>, JSONCloudClusterView),
> {
    Seq::new(clusters.len(), |i: int| (clusters[i].name, clusters[i]))
}

/// The first listed cluster called `name`, or the error that there is
/// none.
pub open spec fn cluster_of(clusters: Seq<JSONCloudClusterView>, name: Seq<char>) -> Result<
    JSONCloudClusterView,
    CoreErrorView,
> {
    match position(clusters_by_name(clusters), name) {
        Some(i) => Ok(clusters[i]),
        None => Err(CoreErrorView::ClusterNotFound { identifier: name }),
    }
}

/// The id of the first listed cluster called `name`, or the error that
/// there is none.
pub open spec fn cluster_id_of(clusters: Seq<JSONCloudClusterView>, name: Seq<char>) -> Result<
    Seq<char>,
    CoreErrorView,
> {
    match cluster_of(clusters, name) {
        Ok(cluster) => Ok(cluster.id),
        Err(e) => Err(e),
    }
}

/// Finds the control plane's id of the cluster that its operator calls
/// `identifier`.
pub fn find_cluster_id(clusters: &Vec<JSONCloudCluster>, identifier: &str) -> (r: Result<
    String,
    CoreError,
>)
    ensures
        match cluster_id_of(clusters.deep_view(), identifier@) {
            Ok(id) => r is Ok && r->Ok_0@ == id,
            Err(e) => r is Err && r->Err_0@ == e,
        },
{
    match find_cluster(clusters, identifier) {
        Ok(cluster) => Ok(cluster.id.clone()),
        Err(e) => Err(e),
    }
}

/// Finds the cluster that its operator calls `identifier` among those that
/// the control plane lists.
pub fn find_cluster<'a>(clusters: &'a Vec<JSONCloudCluster>, identifier: &str) -> (r: Result<
    &'a JSONCloudCluster,
    CoreError,
>)
    ensures
        match cluster_of(clusters.deep_view(), identifier@) {
            Ok(cluster) => r is Ok && r->Ok_0@ == cluster,
            Err(e) => r is Err && r->Err_0@ == e,
        },
{
    let ghost entries = clusters_by_name(clusters.deep_view());
    let mut i: usize = 0;
    while i < clusters.len()
        invariant
            i <= clusters.len(),
            entries == clusters_by_name(clusters.deep_view()),
            forall|j: int| 0 <= j < i ==> (#[trigger] entries[j]).0 != identifier@,
        decreases clusters.len() - i,
    {
        if same_text(clusters[i].name.as_str(), identifier) {
            proof {
                crate::table::lemma_position(entries, identifier@);
                assert(entries[i as int].0 == identifier@);
            }
            return Ok(&clusters[i]);
        }
        i = i + 1;
    }
    proof {
        crate::table::lemma_position(entries, identifier@);
    }
    Err(CoreError::ClusterNotFound { identifier: String::from_str(identifier) })
}

/// The listed buckets, each under its name.
pub open spec fn buckets_by_name(buckets: Seq<JSONCloudBucketSettingsView>) -> Seq<
    (Seq<char>, JSONCloudBucketSettingsView),
> {
    Seq::new(buckets.len(), |i: int| (buckets[i].name, buckets[i]))
}

/// The place of the first listed bucket called `name`.
pub open spec fn bucket_position(
    buckets: Seq<JSONCloudBucketSettingsView>,
    name: Seq<char>,
) -> Option<int> {
    position(buckets_by_name(buckets), name)
}

/// `bucket_position` finds the first bucket called `name`, and finds none
/// only where no bucket is called so.
pub proof fn lemma_bucket_position(buckets: Seq<JSONCloudBucketSettingsView>, name: Seq<char>)
    ensures
        match bucket_position(buckets, name) {
            Some(i) => {
                &&& 0 <= i < buckets.len()
                &&& buckets[i].name == name
                &&& forall|j: int| 0 <= j < i ==> (#[trigger] buckets[j]).name != name
            },
            None => forall|j: int| 0 <= j < buckets.len() ==> (#[trigger] buckets[j]).name != name,
        },
{
    let entries = buckets_by_name(buckets);
    crate::table::lemma_position(entries, name);
    match position(entries, name) {
        Some(i) => {
            assert forall|j: int| 0 <= j < i implies (#[trigger] buckets[j]).name != name by {
                assert(entries[j].0 != name);
            }
        },
        None => {
            assert forall|j: int| 0 <= j < buckets.len() implies (#[trigger] buckets[j]).name
                != name by {
                assert(entries[j].0 != name);
            }
        },
    }
}

/// Finds the first listed bucket called `name`.
pub fn find_bucket(buckets: &Vec<JSONCloudBucketSettings>, name: &str) -> (found: Option<usize>)
    ensures
        match found {
            Some(i) => bucket_position(buckets.deep_view(), name@) == Some(i as int) && i
                < buckets.len(),
            None => bucket_position(buckets.deep_view(), name@) is None,
        },
{
    let ghost entries = buckets_by_name(buckets.deep_view());
    let mut i: usize = 0;
    while i < buckets.len()
        invariant
            i <= buckets.len(),
            entries == buckets_by_name(buckets.deep_view()),
            forall|j: int| 0 <= j < i ==> (#[trigger] entries[j]).0 != name@,
        decreases buckets.len() - i,
    {
        if same_text(buckets[i].name.as_str(), name) {
            proof {
                crate::table::lemma_position(entries, name@);
                assert(entries[i as int].0 == name@);
            }
            return Some(i);
        }
        i = i + 1;
    }
    proof {
        crate::table::lemma_position(entries, name@);
    }
    None
}

/// The settings of the first listed bucket called `name`, or the error that
/// there is none, or that its description is not one of settings.
pub open spec fn selected(buckets: Seq<JSONCloudBucketSettingsView>, name: Seq<char>) -> Result<
    BucketSettingsView,
    CoreErrorView,
> {
    match bucket_position(buckets, name) {
        Some(i) => settings_of_cloud(buckets[i]),
        None => Err(CoreErrorView::BucketNotFound { name }),
    }
}

/// Picks the settings of the bucket called `name` out of a cluster's
/// collection.
pub fn select_bucket(buckets: &Vec<JSONCloudBucketSettings>, name: &str) -> (r: Result<
    BucketSettings,
    CoreError,
>)
    ensures
        crate::error::result_view(r) == selected(buckets.deep_view(), name@),
        r is Ok ==> r->Ok_0@.valid(),
{
    match find_bucket(buckets, name) {
        Some(i) => {
            buckets[i].to_settings()
        },
        None => Err(CoreError::BucketNotFound { name: String::from_str(name) }),
    }
}

/// The collection to write back, and the new settings of the bucket called
/// `name`, when `edit` is applied to that bucket inside `buckets`: the bucket
/// is taken out where it first occurs, the others keep their order, and the
/// edited bucket is put at the end. There is an error instead where no bucket
/// is called `name`, where its description is not one of settings, or where
/// the edit cannot be applied.
pub open spec fn reconciled(
    buckets: Seq<JSONCloudBucketSettingsView>,
    name: Seq<char>,
    edit: BucketEditView,
) -> Result<(Seq<JSONCloudBucketSettingsView>, BucketSettingsView), CoreErrorView> {
    match bucket_position(buckets, name) {
        None => Err(CoreErrorView::BucketNotFound { name }),
        Some(i) => match settings_of_cloud(buckets[i]) {
            Err(e) => Err(e),
            Ok(settings) => match edited(settings, edit) {
                Err(e) => Err(e),
                Ok(after) => Ok(
                    (buckets.remove(i).push(cloud_of(after, buckets[i].environment)), after),
                ),
            },
        },
    }
}

/// What is written back after an edit holds as many buckets as were read.
/// Its last bucket is the edited one: it has the name that was asked for, the
/// edited settings, and the environment of the bucket that it replaces. Every
/// other bucket that was read is written back as it was, in the same order.
/// Where the name occurred once among the buckets read, it occurs once among
/// those written back.
pub proof fn lemma_reconciled_collection(
    buckets: Seq<JSONCloudBucketSettingsView>,
    name: Seq<char>,
    edit: BucketEditView,
)
    requires
        reconciled(buckets, name, edit) is Ok,
    ensures
        ({
            let (collection, after) = reconciled(buckets, name, edit)->Ok_0;
            let i = bucket_position(buckets, name)->0;
            &&& 0 <= i < buckets.len()
            &&& collection.len() == buckets.len()
            &&& Ok::<BucketSettingsView, CoreErrorView>(after) == edited(
                settings_of_cloud(buckets[i])->Ok_0,
                edit,
            )
            &&& collection.last() == cloud_of(after, buckets[i].environment)
            &&& collection.last().name == name
            &&& forall|j: int| 0 <= j < i ==> #[trigger] collection[j] == buckets[j]
            &&& forall|j: int| i < j < buckets.len() ==> collection[j - 1] == #[trigger] buckets[j]
            &&& (forall|j: int| 0 <= j < buckets.len() && j != i ==> (#[trigger] buckets[j]).name
                != name) ==> (forall|j: int|
                0 <= j < collection.len() - 1 ==> (#[trigger] collection[j]).name != name)
        }),
{
    lemma_bucket_position(buckets, name);
    let (collection, after) = reconciled(buckets, name, edit)->Ok_0;
    let i = bucket_position(buckets, name)->0;
    if forall|j: int| 0 <= j < buckets.len() && j != i ==> (#[trigger] buckets[j]).name != name {
        assert forall|j: int| 0 <= j < collection.len() - 1 implies (#[trigger] collection[j]).name
            != name by {
            if j < i {
                assert(collection[j] == buckets[j]);
            } else {
                assert(collection[j] == buckets[j + 1]);
            }
        }
    }
}

/// An edit fails for want of the bucket exactly where no bucket that was
/// read has the name that was asked for.
pub proof fn lemma_reconciled_not_found(
    buckets: Seq<JSONCloudBucketSettingsView>,
    name: Seq<char>,
    edit: BucketEditView,
)
    ensures
        reconciled(buckets, name, edit) == Err::<
            (Seq<JSONCloudBucketSettingsView>, BucketSettingsView),
            CoreErrorView,
        >(CoreErrorView::BucketNotFound { name }) <==> forall|j: int|
            0 <= j < buckets.len() ==> (#[trigger] buckets[j]).name != name,
{
    lemma_bucket_position(buckets, name);
    if bucket_position(buckets, name) is Some {
        let i = bucket_position(buckets, name)->0;
    }
}

/// Applies `edit` to the bucket called `name` inside a cluster's
/// collection, and returns the collection to write back together with the
/// bucket's new settings.
pub fn update_in_collection(
    buckets: Vec<JSONCloudBucketSettings>,
    name: &str,
    edit: &BucketEdit,
) -> (r: Result<(Vec<JSONCloudBucketSettings>, BucketSettings), CoreError>)
    ensures
        match reconciled(buckets.deep_view(), name@, edit@) {
            Ok((collection, after)) => r is Ok && r->Ok_0.0.deep_view() == collection
                && r->Ok_0.1@ == after && after.valid(),
            Err(e) => r is Err && r->Err_0@ == e,
        },
{
    let mut buckets = buckets;
    let i = match find_bucket(&buckets, name) {
        Some(i) => i,
        None => {
            return Err(CoreError::BucketNotFound { name: String::from_str(name) });
        },
    };
    let target = buckets.remove(i);
    let mut settings = match target.to_settings() {
        Ok(settings) => settings,
        Err(e) => {
            return Err(e);
        },
    };
    match update_bucket_settings(&mut settings, edit) {
        Ok(_) => {},
        Err(e) => {
            return Err(e);
        },
    }
    let element = JSONCloudBucketSettings::from_settings(&settings, target.environment.as_str());
    buckets.push(element);
    Ok((buckets, settings))
}

/// The settings that the listed buckets describe, in order, or the error of
/// the first whose description is not one of settings.
pub open spec fn cloud_listing(buckets: Seq<JSONCloudBucketSettingsView>) -> Result<
    Seq<BucketSettingsView>,
    CoreErrorView,
>
    decreases buckets.len(),
{
    if buckets.len() == 0 {
        Ok(Seq::empty())
    } else {
        match cloud_listing(buckets.drop_last()) {
            Err(e) => Err(e),
            Ok(front) => match settings_of_cloud(buckets.last()) {
                Err(e) => Err(e),
                Ok(settings) => Ok(front.push(settings)),
            },
        }
    }
}

/// An error among the first buckets of a list is the error of the list.
pub proof fn lemma_cloud_listing_prefix(buckets: Seq<JSONCloudBucketSettingsView>, n: int)
    requires
        0 <= n <= buckets.len(),
        cloud_listing(buckets.take(n)) is Err,
    ensures
        cloud_listing(buckets) == cloud_listing(buckets.take(n)),
    decreases buckets.len(),
{
    if n < buckets.len() {
        assert(buckets.drop_last().take(n) =~= buckets.take(n));
        lemma_cloud_listing_prefix(buckets.drop_last(), n);
    } else {
        assert(buckets.take(n) =~= buckets);
    }
}

/// Reads the settings of every bucket of a cluster's collection.
pub fn list_cloud(buckets: &Vec<JSONCloudBucketSettings>) -> (r: Result<
    Vec<BucketSettings>,
    CoreError,
>)
    ensures
        match cloud_listing(buckets.deep_view()) {
            Ok(listing) => r is Ok && r->Ok_0.deep_view() == listing,
            Err(e) => r is Err && r->Err_0@ == e,
        },
{
    let ghost views = buckets.deep_view();
    let mut listing: Vec<BucketSettings> = Vec::new();
    let mut i: usize = 0;
    assert(listing.deep_view() =~= Seq::<BucketSettingsView>::empty());
    while i < buckets.len()
        invariant
            i <= buckets.len(),
            views == buckets.deep_view(),
            cloud_listing(views.take(i as int)) == Ok::<Seq<BucketSettingsView>, CoreErrorView>(
                listing.deep_view(),
            ),
        decreases buckets.len() - i,
    {
        let ghost so_far = listing.deep_view();
        proof {
            assert(views.take(i + 1).drop_last() =~= views.take(i as int));
        }
        match buckets[i].to_settings() {
            Ok(settings) => {
                listing.push(settings);
                assert(listing.deep_view() =~= so_far.push(settings@));
            },
            Err(e) => {
                proof {
                    lemma_cloud_listing_prefix(views, i + 1);
                }
                return Err(e);
            },
        }
        i = i + 1;
    }
    assert(views.take(i as int) =~= views);
    Ok(listing)
}

/// The settings that the listed buckets describe, in order, or the error of
/// the first whose description is not one of settings.
pub open spec fn onprem_listing(buckets: Seq<JSONBucketSettingsView>) -> Result<
    Seq<BucketSettingsView>,
    CoreErrorView,
>
    decreases buckets.len(),
{
    if buckets.len() == 0 {
        Ok(Seq::empty())
    } else {
        match onprem_listing(buckets.drop_last()) {
            Err(e) => Err(e),
            Ok(front) => match settings_of_onprem(buckets.last()) {
                Err(e) => Err(e),
                Ok(settings) => Ok(front.push(settings)),
            },
        }
    }
}

/// An error among the first buckets of a list is the error of the list.
pub proof fn lemma_onprem_listing_prefix(buckets: Seq<JSONBucketSettingsView>, n: int)
    requires
        0 <= n <= buckets.len(),
        onprem_listing(buckets.take(n)) is Err,
    ensures
        onprem_listing(buckets) == onprem_listing(buckets.take(n)),
    decreases buckets.len(),
{
    if n < buckets.len() {
        assert(buckets.drop_last().take(n) =~= buckets.take(n));
        lemma_onprem_listing_prefix(buckets.drop_last(), n);
    } else {
        assert(buckets.take(n) =~= buckets);
    }
}

/// Reads the settings of every bucket that a self-hosted cluster lists.
pub fn list_onprem(buckets: &Vec<JSONBucketSettings>) -> (r: Result<
    Vec<BucketSettings>,
    CoreError,
>)
    ensures
        match onprem_listing(buckets.deep_view()) {
            Ok(listing) => r is Ok && r->Ok_0.deep_view() == listing,
            Err(e) => r is Err && r->Err_0@ == e,
        },
{
    let ghost views = buckets.deep_view();
    let mut listing: Vec<BucketSettings> = Vec::new();
    let mut i: usize = 0;
    assert(listing.deep_view() =~= Seq::<BucketSettingsView>::empty());
    while i < buckets.len()
        invariant
            i <= buckets.len(),
            views == buckets.deep_view(),
            onprem_listing(views.take(i as int)) == Ok::<Seq<BucketSettingsView>, CoreErrorView>(
                listing.deep_view(),
            ),
        decreases buckets.len() - i,
    {
        let ghost so_far = listing.deep_view();
        proof {
            assert(views.take(i + 1).drop_last() =~= views.take(i as int));
        }
        match buckets[i].to_settings() {
            Ok(settings) => {
                listing.push(settings);
                assert(listing.deep_view() =~= so_far.push(settings@));
            },
            Err(e) => {
                proof {
                    lemma_onprem_listing_prefix(views, i + 1);
                }
                return Err(e);
            },
        }
        i = i + 1;
    }
    assert(views.take(i as int) =~= views);
    Ok(listing)
}

} // verus!
