//! What holds of every step of a run, whatever the registry holds and
//! whatever the host reports.

use crate::dispatch::settled;
use crate::dispatch::OutcomeView;
use crate::error::CoreErrorView;
use crate::reconcile::advances;
use crate::reconcile::begins;
use crate::reconcile::fails;
use crate::reconcile::on_fetched;
use crate::reconcile::restricted_reason;
use crate::reconcile::step_of;
use crate::reconcile::ActionView;
use crate::reconcile::BucketRecordView;
use crate::reconcile::DecodedView;
use crate::reconcile::EventView;
use crate::reconcile::PhaseView;
use crate::reconcile::RouteView;
use crate::reconcile::RunView;
use crate::reconcile::Step;
use crate::registry::StateView;
use vstd::prelude::*;

verus! {

/// Whether `next` continues `run`: the same operation over the same
/// clusters, no cluster fewer done, and every result kept, in order.
pub open spec fn continues(run: RunView, next: RunView) -> bool {
    &&& next.operation == run.operation
    &&& next.identifiers == run.identifiers
    &&& next.position >= run.position
    &&& run.results.is_prefix_of(next.results)
}

/// Whether an action and the phase that a step leaves agree: a failure is
/// reported exactly when the run ends as failed, the end exactly when it ends
/// as done, and the host is given work exactly while the run is under way.
pub open spec fn consistent(step: Step) -> bool {
    match step.action {
        ActionView::Fail { .. } => step.run.phase is Failed,
        ActionView::Finish => step.run.phase is Done,
        ActionView::Halt => step.run.phase.ended(),
        _ => step.run.phase.active(),
    }
}

/// A cloud-managed cluster takes no update of flush, durability or expiry:
/// when the run comes to such a cluster, it fails with a capability conflict,
/// and sends nothing for that cluster.
pub proof fn lemma_restricted_edit_refused(run: RunView, registry: StateView)
    requires
        run.position < run.identifiers.len(),
        registry.clusters.dom().contains(run.current()),
        registry.clusters[run.current()].cloud_ref is Some,
        run.operation is Update,
        run.operation->Update_edit.touches_restricted(),
    ensures
        begins(run, registry) == fails(
            run,
            CoreErrorView::CapabilityConflict { reason: restricted_reason() },
        ),
        run.phase is Idle ==> forall|refusal: Seq<char>| #[trigger]
            step_of(run, registry, EventView::Start, refusal) == fails(
                run,
                CoreErrorView::CapabilityConflict { reason: restricted_reason() },
            ),
{
}

/// A cluster of the hosted tier takes no update of its buckets: when the
/// control plane lists the cluster as hosted, the run fails with a capability
/// conflict, and neither reads nor writes the buckets.
pub proof fn lemma_hosted_cluster_takes_no_update(
    run: RunView,
    registry: StateView,
    organization: Seq<char>,
    clusters: Seq<crate::collection::JSONCloudClusterView>,
    refusal: Seq<char>,
)
    requires
        run.phase == (PhaseView::LookupDecode { organization }),
        run.operation is Update,
        crate::collection::cluster_of(clusters, run.current()) is Ok,
        crate::collection::cluster_of(clusters, run.current())->Ok_0.hosted(),
    ensures
        step_of(run, registry, EventView::Decoded(DecodedView::Clusters(clusters)), refusal)
            == fails(
            run,
            CoreErrorView::CapabilityConflict { reason: crate::reconcile::hosted_reason() },
        ),
{
}

/// Taking up a cluster continues the run and leaves action and phase in
/// agreement.
pub proof fn lemma_begins_shape(run: RunView, registry: StateView)
    ensures
        continues(run, begins(run, registry).run),
        consistent(begins(run, registry)),
        begins(run, registry).run.results == run.results,
        begins(run, registry).run.position == run.position,
{
}

/// Going on to the next cluster continues the run and leaves action and
/// phase in agreement; what the finished cluster gave is kept.
pub proof fn lemma_advances_shape(
    run: RunView,
    registry: StateView,
    records: Seq<BucketRecordView>,
)
    ensures
        continues(run, advances(run, registry, records).run),
        consistent(advances(run, registry, records)),
        advances(run, registry, records).run.results == run.results + records,
        advances(run, registry, records).run.position == run.position + 1,
{
}

/// Every step continues the run, and leaves action and phase in agreement.
/// So a failure is final: it is reported once, with the run ended.
pub proof fn lemma_step_shape(
    run: RunView,
    registry: StateView,
    event: EventView,
    refusal: Seq<char>,
)
    ensures
        continues(run, step_of(run, registry, event, refusal).run),
        consistent(step_of(run, registry, event, refusal)),
{
}

/// The step on what was fetched continues the run, and leaves action and
/// phase in agreement.
pub proof fn lemma_fetched_shape(
    run: RunView,
    registry: StateView,
    route: RouteView,
    decoded: DecodedView,
    refusal: Seq<char>,
)
    ensures
        continues(run, on_fetched(run, registry, route, decoded, refusal).run),
        consistent(on_fetched(run, registry, route, decoded, refusal)),
{
}

/// An update of a bucket that a cloud cluster's collection does not hold
/// fails the run for want of the bucket: nothing is written back.
pub proof fn lemma_missing_bucket_fails_run(
    run: RunView,
    registry: StateView,
    organization: Seq<char>,
    cluster_id: Seq<char>,
    buckets: Seq<crate::wire::JSONCloudBucketSettingsView>,
    refusal: Seq<char>,
)
    requires
        run.phase == (PhaseView::FetchDecode {
            route: RouteView::Cloud { organization, cluster_id },
        }),
        run.operation is Update,
        forall|j: int| 0 <= j < buckets.len() ==> (#[trigger] buckets[j]).name != run.operation->Update_name,
    ensures
        step_of(
            run,
            registry,
            EventView::Decoded(DecodedView::CloudBuckets(buckets)),
            refusal,
        ) == fails(run, CoreErrorView::BucketNotFound { name: run.operation->Update_name }),
{
    crate::collection::lemma_reconciled_not_found(
        buckets,
        run.operation->Update_name,
        run.operation->Update_edit,
    );
}

/// An update of a bucket that a cloud cluster's collection holds asks the
/// host to write back the collection with that bucket edited, and nothing
/// else: the other buckets are as they were read.
pub proof fn lemma_found_bucket_is_written_back(
    run: RunView,
    registry: StateView,
    organization: Seq<char>,
    cluster_id: Seq<char>,
    buckets: Seq<crate::wire::JSONCloudBucketSettingsView>,
    refusal: Seq<char>,
)
    requires
        run.phase == (PhaseView::FetchDecode {
            route: RouteView::Cloud { organization, cluster_id },
        }),
        run.operation is Update,
        crate::collection::reconciled(buckets, run.operation->Update_name, run.operation->Update_edit) is Ok,
    ensures
        step_of(
            run,
            registry,
            EventView::Decoded(DecodedView::CloudBuckets(buckets)),
            refusal,
        ).action == (ActionView::Encode {
            buckets: crate::collection::reconciled(
                buckets,
                run.operation->Update_name,
                run.operation->Update_edit,
            )->Ok_0.0,
        }),
{
}

/// A run that has ended stays as it is, and its host is given nothing to
/// do: after a failure no further cluster is addressed.
pub proof fn lemma_ended_run_halts(
    run: RunView,
    registry: StateView,
    event: EventView,
    refusal: Seq<char>,
)
    requires
        run.phase.ended(),
    ensures
        step_of(run, registry, event, refusal) == (Step { run, action: ActionView::Halt }),
{
}

/// A request that does not end in a successful response fails the run with
/// the error of that outcome. What earlier clusters gave is kept, and the
/// request is not sent again.
pub proof fn lemma_failed_request_fails_run(
    run: RunView,
    registry: StateView,
    outcome: OutcomeView,
    refusal: Seq<char>,
)
    requires
        run.phase is Lookup || run.phase is Fetch || run.phase is Write,
        settled(outcome) is Err,
    ensures
        step_of(run, registry, EventView::Completed(outcome), refusal) == fails(
            run,
            settled(outcome)->Err_0,
        ),
        fails(run, settled(outcome)->Err_0).run.results == run.results,
        fails(run, settled(outcome)->Err_0).run.phase is Failed,
{
}

/// Where a run stands after a sequence of steps, each with what came of the
/// last action and the registry as it was at that moment.
pub open spec fn run_after(
    run: RunView,
    steps: Seq<(StateView, EventView)>,
    refusal: Seq<char>,
) -> RunView
    decreases steps.len(),
{
    if steps.len() == 0 {
        run
    } else {
        step_of(run_after(run, steps.drop_last(), refusal), steps.last().0, steps.last().1, refusal).run
    }
}

/// Once a run has ended, nothing that its host reports and nothing that
/// happens to the registry brings it back: it stays as it ended, with the
/// results of the clusters that were done.
pub proof fn lemma_ended_run_stays_ended(
    run: RunView,
    steps: Seq<(StateView, EventView)>,
    refusal: Seq<char>,
)
    requires
        run.phase.ended(),
    ensures
        run_after(run, steps, refusal) == run,
    decreases steps.len(),
{
    if steps.len() > 0 {
        lemma_ended_run_stays_ended(run, steps.drop_last(), refusal);
    }
}

/// However a run goes on, it keeps its operation and its clusters, no
/// cluster that was done is taken up again, and no result is lost.
pub proof fn lemma_run_continues(
    run: RunView,
    steps: Seq<(StateView, EventView)>,
    refusal: Seq<char>,
)
    ensures
        continues(run, run_after(run, steps, refusal)),
    decreases steps.len(),
{
    if steps.len() > 0 {
        let before = run_after(run, steps.drop_last(), refusal);
        lemma_run_continues(run, steps.drop_last(), refusal);
        lemma_step_shape(before, steps.last().0, steps.last().1, refusal);
    }
}

} // verus!
