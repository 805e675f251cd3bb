//! The identifier resolver: from what a command names as its targets to an
//! ordered list of registry keys.

use crate::error::CoreError;
use crate::error::CoreErrorView;
use crate::registry::State;
use crate::registry::StateView;
use crate::text::split;
use crate::text::split_on;
use vstd::prelude::*;
use vstd::string::*;

verus! {

/// The character that separates identifiers in a command's list of targets.
pub const SEPARATOR: char = ',';

/// The first place in `names` that holds a name outside `known`.
pub open spec fn first_unknown(known: Set<Seq<char>>, names: Seq<Seq<char>>) -> Option<int>
    decreases names.len(),
{
    if names.len() == 0 {
        None
    } else {
        match first_unknown(known, names.drop_last()) {
            Some(i) => Some(i),
            None => if known.contains(names.last()) {
                None
            } else {
                Some(names.len() - 1)
            },
        }
    }
}

/// `first_unknown` finds the first name that is not known, and finds none
/// only where all are known.
pub proof fn lemma_first_unknown(known: Set<Seq<char>>, names: Seq<Seq<char>>)
    ensures
        match first_unknown(known, names) {
            Some(i) => {
                &&& 0 <= i < names.len()
                &&& !known.contains(names[i])
                &&& forall|j: int| 0 <= j < i ==> known.contains(#[trigger] names[j])
            },
            None => forall|j: int| 0 <= j < names.len() ==> known.contains(#[trigger] names[j]),
        },
    decreases names.len(),
{
    if names.len() > 0 {
        let front = names.drop_last();
        lemma_first_unknown(known, front);
        match first_unknown(known, front) {
            Some(i) => {
                assert forall|j: int| 0 <= j < i implies known.contains(#[trigger] names[j]) by {
                    assert(known.contains(front[j]));
                }
            },
            None => {
                assert forall|j: int| 0 <= j < front.len() implies known.contains(
                    #[trigger] names[j],
                ) by {
                    assert(known.contains(front[j]));
                }
            },
        }
    }
}

/// The names, if the registry knows them all; else the error for the first
/// that it does not know.
pub open spec fn all_known(state: StateView, names: Seq<Seq<char>>) -> Result<
    Seq<Seq<char>>,
    CoreErrorView,
> {
    match first_unknown(state.clusters.dom(), names) {
        Some(i) => Err(CoreErrorView::ClusterNotFound { identifier: names[i] }),
        None => Ok(names),
    }
}

/// The clusters that a command addresses. `clusters` is the command's list
/// of targets, identifiers joined by commas, where it gave one; without a
/// list the active cluster is addressed, if `default_active` allows it.
pub open spec fn resolved(
    state: StateView,
    clusters: Option<Seq<char>>,
    default_active: bool,
) -> Result<Seq<Seq<char>>, CoreErrorView> {
    match clusters {
        Some(list) => all_known(state, split_on(list, SEPARATOR)),
        None => if default_active && state.active is Some {
            all_known(state, seq![state.active->0])
        } else {
            Err(CoreErrorView::EmptyTarget)
        },
    }
}

/// What is resolved is never empty, and the registry holds every identifier
/// of it.
pub proof fn lemma_resolved_are_registered(
    state: StateView,
    clusters: Option<Seq<char>>,
    default_active: bool,
)
    requires
        resolved(state, clusters, default_active) is Ok,
    ensures
        resolved(state, clusters, default_active)->Ok_0.len() >= 1,
        forall|i: int|
            0 <= i < resolved(state, clusters, default_active)->Ok_0.len()
                ==> state.clusters.dom().contains(
                #[trigger] resolved(state, clusters, default_active)->Ok_0[i],
            ),
{
    if clusters is Some {
        crate::text::lemma_split_on_nonempty(clusters->0, SEPARATOR);
        lemma_first_unknown(state.clusters.dom(), split_on(clusters->0, SEPARATOR));
    }
}

/// Checks that the registry knows every name, in order.
pub fn require_registered(state: &State, names: Vec<String>) -> (r: Result<Vec<String>, CoreError>)
    ensures
        match all_known(state@, names.deep_view()) {
            Ok(known) => r is Ok && r->Ok_0.deep_view() == known,
            Err(e) => r is Err && r->Err_0@ == e,
        },
{
    let ghost views = names.deep_view();
    let ghost known = state@.clusters.dom();
    let mut i: usize = 0;
    while i < names.len()
        invariant
            i <= names.len(),
            views == names.deep_view(),
            known == state@.clusters.dom(),
            forall|j: int| 0 <= j < i ==> known.contains(#[trigger] views[j]),
        decreases names.len() - i,
    {
        if !state.contains(names[i].as_str()) {
            proof {
                lemma_first_unknown(known, views);
                assert(views[i as int] == names[i as int]@);
            }
            return Err(CoreError::ClusterNotFound { identifier: names[i].clone() });
        }
        i = i + 1;
    }
    proof {
        lemma_first_unknown(known, views);
    }
    Ok(names)
}

/// Resolves the clusters that a command addresses: the identifiers of its
/// comma-separated list `clusters`, or the active cluster where it gave no
/// list and `default_active` is set. Every identifier must be registered.
pub fn cluster_identifiers_from(
    state: &State,
    clusters: Option<&str>,
    default_active: bool,
) -> (r: Result<Vec<String>, CoreError>)
    ensures
        match resolved(state@, clusters.deep_view(), default_active) {
            Ok(identifiers) => r is Ok && r->Ok_0.deep_view() == identifiers,
            Err(e) => r is Err && r->Err_0@ == e,
        },
        r is Ok ==> r->Ok_0.len() >= 1,
        r is Ok ==> forall|i: int|
            0 <= i < r->Ok_0.len() ==> state@.clusters.dom().contains(#[trigger] r->Ok_0[i]@),
{
    proof {
        if resolved(state@, clusters.deep_view(), default_active) is Ok {
            lemma_resolved_are_registered(state@, clusters.deep_view(), default_active);
        }
    }
    let r = match clusters {
        Some(list) => require_registered(state, split(list, SEPARATOR)),
        None => {
            if default_active {
                match state.active() {
                    Some(active) => {
                        let mut names: Vec<String> = Vec::new();
                        names.push(active.clone());
                        assert(names.deep_view() =~= seq![state@.active->0]);
                        require_registered(state, names)
                    },
                    None => Err(CoreError::EmptyTarget),
                }
            } else {
                Err(CoreError::EmptyTarget)
            }
        },
    };
    proof {
        if r is Ok {
            let ids = r->Ok_0;
            assert forall|i: int| 0 <= i < ids.len() implies state@.clusters.dom().contains(
                #[trigger] ids[i]@,
            ) by {
                assert(ids.deep_view()[i] == ids[i]@);
            }
        }
    }
    r
}

} // verus!
