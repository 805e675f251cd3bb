//! The cluster registry: the clusters that the shell knows by name, the one
//! that commands address by default, and the cloud organizations through
//! which some of them are reached. The resolver turns what a command names
//! into registry keys.

use crate::error::CoreError;
use crate::error::CoreErrorView;
use crate::table::distinct_keys;
use crate::table::position;
use crate::table::table;
use crate::text::same_text;
use vstd::prelude::*;
use vstd::string::*;

verus! {

/// How long a request of each category may take, in milliseconds.
#[derive(Debug, Clone, Copy, PartialEq, Eq, Structural)]
pub struct Timeouts {
    pub management: u64,
    pub query: u64,
    pub analytics: u64,
    pub search: u64,
}

/// The category of a request, by which its timeout is chosen.
#[derive(Debug, Clone, Copy, PartialEq, Eq, Structural)]
pub enum TimeoutCategory {
    Management,
    Query,
    Analytics,
    Search,
}

impl Timeouts {
    /// The timeout of the given category.
    pub open spec fn of(self, category: TimeoutCategory) -> u64 {
        match category {
            TimeoutCategory::Management => self.management,
            TimeoutCategory::Query => self.query,
            TimeoutCategory::Analytics => self.analytics,
            TimeoutCategory::Search => self.search,
        }
    }

    /// The timeout of the given category.
    pub fn timeout(&self, category: TimeoutCategory) -> (millis: u64)
        ensures
            millis == self.of(category),
    {
        match category {
            TimeoutCategory::Management => self.management,
            TimeoutCategory::Query => self.query,
            TimeoutCategory::Analytics => self.analytics,
            TimeoutCategory::Search => self.search,
        }
    }
}

/// How one cluster is reached.
#[derive(Debug, Clone, PartialEq, Eq)]
pub struct RemoteCluster {
    /// The name under which the cluster is registered.
    pub identifier: String,
    pub hosts: Vec<String>,
    pub username: String,
    pub password: String,
    pub timeouts: Timeouts,
    /// The cloud organization through which the cluster is managed, if it is
    /// not self-hosted.
    pub cloud_ref: Option<String>,
}

/// The mathematical content of a [`RemoteCluster`].
pub struct RemoteClusterView {
    pub identifier: Seq<char>,
    pub hosts: Seq<Seq<char>>,
    pub username: Seq<char>,
    pub password: Seq<char>,
    pub timeouts: Timeouts,
    pub cloud_ref: Option<Seq<char>>,
}

impl View for RemoteCluster {
    type V = RemoteClusterView;

    open spec fn view(&self) -> RemoteClusterView {
        RemoteClusterView {
            identifier: self.identifier@,
            hosts: self.hosts.deep_view(),
            username: self.username@,
            password: self.password@,
            timeouts: self.timeouts,
            cloud_ref: match self.cloud_ref {
                Some(o) => Some(o@),
                None => None,
            },
        }
    }
}

impl DeepView for RemoteCluster {
    type V = RemoteClusterView;

    open spec fn deep_view(&self) -> RemoteClusterView {
        self@
    }
}

impl RemoteCluster {
    /// Copies the descriptor.
    pub fn duplicate(&self) -> (copy: RemoteCluster)
        ensures
            copy@ == self@,
    {
        let mut hosts: Vec<String> = Vec::new();
        let mut i: usize = 0;
        while i < self.hosts.len()
            invariant
                i <= self.hosts.len(),
                hosts.len() == i,
                forall|j: int| 0 <= j < i ==> hosts[j]@ == self.hosts[j]@,
            decreases self.hosts.len() - i,
        {
            hosts.push(self.hosts[i].clone());
            i = i + 1;
        }
        assert(hosts.deep_view() =~= self.hosts.deep_view());
        RemoteCluster {
            identifier: self.identifier.clone(),
            hosts,
            username: self.username.clone(),
            password: self.password.clone(),
            timeouts: self.timeouts,
            cloud_ref: match &self.cloud_ref {
                Some(o) => Some(o.clone()),
                None => None,
            },
        }
    }

    /// Whether the cluster is managed through the cloud control plane.
    pub fn is_cloud(&self) -> (r: bool)
        ensures
            r == self@.cloud_ref is Some,
    {
        self.cloud_ref.is_some()
    }
}

/// A cloud organization and the keys with which its control plane is
/// addressed.
#[derive(Debug, Clone, PartialEq, Eq)]
pub struct CloudOrganization {
    pub id: String,
    pub access_key: String,
    pub secret_key: String,
    /// How long a request to the control plane may take, in milliseconds.
    pub timeout: u64,
}

/// The mathematical content of a [`CloudOrganization`].
pub struct CloudOrganizationView {
    pub id: Seq<char>,
    pub access_key: Seq<char>,
    pub secret_key: Seq<char>,
    pub timeout: u64,
}

impl View for CloudOrganization {
    type V = CloudOrganizationView;

    open spec fn view(&self) -> CloudOrganizationView {
        CloudOrganizationView {
            id: self.id@,
            access_key: self.access_key@,
            secret_key: self.secret_key@,
            timeout: self.timeout,
        }
    }
}

/// The mathematical content of a [`State`].
pub struct StateView {
    /// The registered clusters, by identifier.
    pub clusters: Map<Seq<char>, RemoteClusterView>,
    /// The identifier that commands address by default.
    pub active: Option<Seq<char>>,
    /// The registered cloud organizations, by id.
    pub organizations: Map<Seq<char>, CloudOrganizationView>,
}

impl StateView {
    /// What holds of every registry: each cluster stands under its own
    /// identifier, each organization under its own id.
    pub open spec fn valid(self) -> bool {
        &&& forall|k: Seq<char>| #[trigger]
            self.clusters.dom().contains(k) ==> self.clusters[k].identifier == k
        &&& forall|k: Seq<char>| #[trigger]
            self.organizations.dom().contains(k) ==> self.organizations[k].id == k
    }
}

/// The registry of known clusters.
#[derive(Debug)]
pub struct State {
    clusters: Vec<RemoteCluster>,
    active: Option<String>,
    organizations: Vec<CloudOrganization>,
}

spec fn cluster_entries(clusters: Seq<RemoteCluster>) -> Seq<(Seq<char>, RemoteClusterView)> {
    Seq::new(clusters.len(), |i: int| (clusters[i].identifier@, clusters[i]@))
}

spec fn organization_entries(organizations: Seq<CloudOrganization>) -> Seq<
    (Seq<char>, CloudOrganizationView),
> {
    Seq::new(organizations.len(), |i: int| (organizations[i].id@, organizations[i]@))
}

impl View for State {
    type V = StateView;

    closed spec fn view(&self) -> StateView {
        StateView {
            clusters: table(cluster_entries(self.clusters@)),
            active: match self.active {
                Some(a) => Some(a@),
                None => None,
            },
            organizations: table(organization_entries(self.organizations@)),
        }
    }
}

proof fn lemma_entries_valid(
    clusters: Seq<RemoteCluster>,
    organizations: Seq<CloudOrganization>,
    active: Option<Seq<char>>,
)
    requires
        distinct_keys(cluster_entries(clusters)),
        distinct_keys(organization_entries(organizations)),
    ensures
        (StateView {
            clusters: table(cluster_entries(clusters)),
            active,
            organizations: table(organization_entries(organizations)),
        }).valid(),
{
    let cs = cluster_entries(clusters);
    let os = organization_entries(organizations);
    assert forall|k: Seq<char>| #[trigger] table(cs).dom().contains(k) implies table(
        cs,
    )[k].identifier == k by {
        crate::table::lemma_table_contains(cs, k);
        let i = choose|i: int| 0 <= i < cs.len() && (#[trigger] cs[i]).0 == k;
        crate::table::lemma_table_value(cs, i);
    }
    assert forall|k: Seq<char>| #[trigger] table(os).dom().contains(k) implies table(os)[k].id
        == k by {
        crate::table::lemma_table_contains(os, k);
        let i = choose|i: int| 0 <= i < os.len() && (#[trigger] os[i]).0 == k;
        crate::table::lemma_table_value(os, i);
    }
}

impl State {
    #[verifier::type_invariant]
    spec fn well_formed(self) -> bool {
        &&& distinct_keys(cluster_entries(self.clusters@))
        &&& distinct_keys(organization_entries(self.organizations@))
    }

    /// A registry without clusters, organizations or active cluster.
    pub fn new() -> (state: State)
        ensures
            state@.clusters == Map::<Seq<char>, RemoteClusterView>::empty(),
            state@.organizations == Map::<Seq<char>, CloudOrganizationView>::empty(),
            state@.active is None,
    {
        State { clusters: Vec::new(), active: None, organizations: Vec::new() }
    }

    fn find(&self, identifier: &str) -> (found: Option<usize>)
        ensures
            match found {
                Some(i) => position(cluster_entries(self.clusters@), identifier@) == Some(
                    i as int,
                ) && i < self.clusters.len(),
                None => position(cluster_entries(self.clusters@), identifier@) is None,
            },
    {
        let ghost entries = cluster_entries(self.clusters@);
        let mut i: usize = 0;
        while i < self.clusters.len()
            invariant
                i <= self.clusters.len(),
                entries == cluster_entries(self.clusters@),
                forall|j: int| 0 <= j < i ==> (#[trigger] entries[j]).0 != identifier@,
            decreases self.clusters.len() - i,
        {
            if same_text(self.clusters[i].identifier.as_str(), identifier) {
                proof {
                    crate::table::lemma_position(entries, identifier@);
                    assert(entries[i as int].0 == identifier@);
                }
                return Some(i);
            }
            i = i + 1;
        }
        proof {
            crate::table::lemma_position(entries, identifier@);
        }
        None
    }

    fn find_organization(&self, id: &str) -> (found: Option<usize>)
        ensures
            match found {
                Some(i) => position(organization_entries(self.organizations@), id@) == Some(
                    i as int,
                ) && i < self.organizations.len(),
                None => position(organization_entries(self.organizations@), id@) is None,
            },
    {
        let ghost entries = organization_entries(self.organizations@);
        let mut i: usize = 0;
        while i < self.organizations.len()
            invariant
                i <= self.organizations.len(),
                entries == organization_entries(self.organizations@),
                forall|j: int| 0 <= j < i ==> (#[trigger] entries[j]).0 != id@,
            decreases self.organizations.len() - i,
        {
            if same_text(self.organizations[i].id.as_str(), id) {
                proof {
                    crate::table::lemma_position(entries, id@);
                    assert(entries[i as int].0 == id@);
                }
                return Some(i);
            }
            i = i + 1;
        }
        proof {
            crate::table::lemma_position(entries, id@);
        }
        None
    }

    /// Whether a cluster is registered under `identifier`.
    pub fn contains(&self, identifier: &str) -> (r: bool)
        ensures
            r == self@.clusters.dom().contains(identifier@),
            self@.valid(),
    {
        proof {
            use_type_invariant(self);
            crate::table::lemma_table_position(cluster_entries(self.clusters@), identifier@);
            lemma_entries_valid(self.clusters@, self.organizations@, self@.active);
        }
        self.find(identifier).is_some()
    }

    /// The cluster registered under `identifier`.
    pub fn get(&self, identifier: &str) -> (r: Result<&RemoteCluster, CoreError>)
        ensures
            match r {
                Ok(cluster) => self@.clusters.dom().contains(identifier@) && cluster@
                    == self@.clusters[identifier@] && cluster@.identifier == identifier@,
                Err(e) => !self@.clusters.dom().contains(identifier@) && e@
                    == (CoreErrorView::ClusterNotFound { identifier: identifier@ }),
            },
    {
        proof {
            use_type_invariant(self);
            crate::table::lemma_table_position(cluster_entries(self.clusters@), identifier@);
            crate::table::lemma_position(cluster_entries(self.clusters@), identifier@);
        }
        match self.find(identifier) {
            Some(i) => Ok(&self.clusters[i]),
            None => Err(CoreError::ClusterNotFound { identifier: String::from_str(identifier) }),
        }
    }

    /// Registers `descriptor` under `identifier`, in place of what was
    /// registered there before. The descriptor's own identifier is set to
    /// the key.
    pub fn register(&mut self, identifier: String, descriptor: RemoteCluster)
        ensures
            final(self)@ == (StateView {
                clusters: old(self)@.clusters.insert(
                    identifier@,
                    RemoteClusterView { identifier: identifier@, ..descriptor@ },
                ),
                ..old(self)@
            }),
    {
        proof {
            use_type_invariant(&*self);
        }
        let ghost before = cluster_entries(self.clusters@);
        let ghost key = identifier@;
        let mut descriptor = descriptor;
        descriptor.identifier = identifier;
        let found = self.find(descriptor.identifier.as_str());
        proof {
            crate::table::lemma_table_position(before, key);
            crate::table::lemma_position(before, key);
        }
        let mut clusters: Vec<RemoteCluster> = Vec::new();
        std::mem::swap(&mut clusters, &mut self.clusters);
        match found {
            Some(i) => {
                proof {
                    crate::table::lemma_table_remove(before, i as int);
                    assert(cluster_entries(clusters@.remove(i as int)) =~= before.remove(i as int));
                }
                clusters.remove(i);
            },
            None => {},
        }
        let ghost middle = cluster_entries(clusters@);
        proof {
            assert(table(middle) =~= table(before).remove(key));
            crate::table::lemma_distinct_push(middle, key, descriptor@);
            crate::table::lemma_table_push(middle, key, descriptor@);
            assert(cluster_entries(clusters@.push(descriptor)) =~= middle.push((key, descriptor@)));
            assert(table(middle).insert(key, descriptor@) =~= table(before).insert(
                key,
                descriptor@,
            ));
        }
        clusters.push(descriptor);
        self.clusters = clusters;
    }

    /// Takes the cluster registered under `identifier` out of the registry
    /// and returns it.
    pub fn remove_cluster(&mut self, identifier: &str) -> (removed: Option<RemoteCluster>)
        ensures
            match removed {
                Some(cluster) => {
                    &&& old(self)@.clusters.dom().contains(identifier@)
                    &&& cluster@ == old(self)@.clusters[identifier@]
                    &&& final(self)@ == (StateView {
                        clusters: old(self)@.clusters.remove(identifier@),
                        ..old(self)@
                    })
                },
                None => !old(self)@.clusters.dom().contains(identifier@) && final(self)@ == old(
                    self,
                )@,
            },
    {
        proof {
            use_type_invariant(&*self);
        }
        let ghost before = cluster_entries(self.clusters@);
        let found = self.find(identifier);
        proof {
            crate::table::lemma_table_position(before, identifier@);
            crate::table::lemma_position(before, identifier@);
        }
        match found {
            Some(i) => {
                proof {
                    crate::table::lemma_table_remove(before, i as int);
                    assert(cluster_entries(self.clusters@.remove(i as int)) =~= before.remove(
                        i as int,
                    ));
                }
                let mut clusters: Vec<RemoteCluster> = Vec::new();
                std::mem::swap(&mut clusters, &mut self.clusters);
                let cluster = clusters.remove(i);
                self.clusters = clusters;
                Some(cluster)
            },
            None => None,
        }
    }

    /// Removes the cluster registered under `identifier` and says whether
    /// there was one.
    pub fn unregister(&mut self, identifier: &str) -> (existed: bool)
        ensures
            existed == old(self)@.clusters.dom().contains(identifier@),
            final(self)@ == (StateView {
                clusters: old(self)@.clusters.remove(identifier@),
                ..old(self)@
            }),
    {
        let removed = self.remove_cluster(identifier);
        proof {
            if removed is None {
                assert(old(self)@.clusters.remove(identifier@) =~= old(self)@.clusters);
            }
        }
        removed.is_some()
    }

    /// The identifier that commands address by default.
    pub fn active(&self) -> (active: Option<&String>)
        ensures
            active.deep_view() == self@.active,
    {
        match &self.active {
            Some(a) => Some(a),
            None => None,
        }
    }

    /// Makes the cluster registered under `identifier` the default. An
    /// identifier that is not registered is refused and changes nothing.
    pub fn set_active(&mut self, identifier: String) -> (r: Result<(), CoreError>)
        ensures
            match r {
                Ok(_) => old(self)@.clusters.dom().contains(identifier@) && final(self)@
                    == (StateView { active: Some(identifier@), ..old(self)@ }),
                Err(e) => !old(self)@.clusters.dom().contains(identifier@) && final(self)@ == old(
                    self,
                )@ && e@ == (CoreErrorView::ClusterNotFound { identifier: identifier@ }),
            },
    {
        proof {
            use_type_invariant(&*self);
        }
        if self.contains(identifier.as_str()) {
            self.active = Some(identifier);
            Ok(())
        } else {
            Err(CoreError::ClusterNotFound { identifier })
        }
    }

    /// The cluster that commands address by default.
    pub fn active_cluster(&self) -> (r: Result<&RemoteCluster, CoreError>)
        ensures
            match r {
                Ok(cluster) => self@.active is Some && self@.clusters.dom().contains(
                    self@.active->0,
                ) && cluster@ == self@.clusters[self@.active->0],
                Err(e) => match self@.active {
                    None => e@ == CoreErrorView::EmptyTarget,
                    Some(a) => !self@.clusters.dom().contains(a) && e@
                        == (CoreErrorView::ClusterNotFound { identifier: a }),
                },
            },
    {
        match &self.active {
            Some(a) => self.get(a.as_str()),
            None => Err(CoreError::EmptyTarget),
        }
    }

    /// The number of registered clusters.
    pub fn len(&self) -> (n: usize)
        ensures
            n == self@.clusters.dom().len(),
            self@.clusters.dom().finite(),
    {
        proof {
            use_type_invariant(self);
            crate::table::lemma_table_size(cluster_entries(self.clusters@));
        }
        self.clusters.len()
    }

    /// Registers `organization` under its id, in place of what was
    /// registered there before.
    pub fn register_organization(&mut self, organization: CloudOrganization)
        ensures
            final(self)@ == (StateView {
                organizations: old(self)@.organizations.insert(organization.id@, organization@),
                ..old(self)@
            }),
    {
        proof {
            use_type_invariant(&*self);
        }
        let ghost before = organization_entries(self.organizations@);
        let ghost key = organization.id@;
        let found = self.find_organization(organization.id.as_str());
        proof {
            crate::table::lemma_table_position(before, key);
            crate::table::lemma_position(before, key);
        }
        let mut organizations: Vec<CloudOrganization> = Vec::new();
        std::mem::swap(&mut organizations, &mut self.organizations);
        match found {
            Some(i) => {
                proof {
                    crate::table::lemma_table_remove(before, i as int);
                    assert(organization_entries(organizations@.remove(i as int)) =~= before.remove(
                        i as int,
                    ));
                }
                organizations.remove(i);
            },
            None => {},
        }
        let ghost middle = organization_entries(organizations@);
        proof {
            assert(table(middle) =~= table(before).remove(key));
            crate::table::lemma_distinct_push(middle, key, organization@);
            crate::table::lemma_table_push(middle, key, organization@);
            assert(organization_entries(organizations@.push(organization)) =~= middle.push(
                (key, organization@),
            ));
            assert(table(middle).insert(key, organization@) =~= table(before).insert(
                key,
                organization@,
            ));
        }
        organizations.push(organization);
        self.organizations = organizations;
    }

    /// The cloud organization registered under `id`.
    pub fn organization(&self, id: &str) -> (r: Result<&CloudOrganization, CoreError>)
        ensures
            match r {
                Ok(organization) => self@.organizations.dom().contains(id@) && organization@
                    == self@.organizations[id@],
                Err(e) => !self@.organizations.dom().contains(id@) && e@
                    == (CoreErrorView::OrganizationNotFound { identifier: id@ }),
            },
    {
        proof {
            use_type_invariant(self);
            crate::table::lemma_table_position(organization_entries(self.organizations@), id@);
            crate::table::lemma_position(organization_entries(self.organizations@), id@);
        }
        match self.find_organization(id) {
            Some(i) => Ok(&self.organizations[i]),
            None => Err(CoreError::OrganizationNotFound { identifier: String::from_str(id) }),
        }
    }
}

} // verus!
