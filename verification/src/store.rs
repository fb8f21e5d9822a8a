//! The resource store, as far as the apply protocol shows it.
//!
//! The operator never reads what it has applied, so nothing here runs: this is the
//! mathematical picture of the store against which the laws of the reconciler are
//! stated. A stored object holds, for each field owner, what that owner last applied;
//! an apply replaces the share of its own field owner and touches nothing else.

use crate::desired::CONTROLLER_ID;
use crate::reconciler::{
    begin, desired_child, full_plan, lemma_pass_fails, lemma_pass_succeeds, request_for, run,
    target_namespace, ApplyOutcomeView, ApplyRequestView, ChildKind, ChildObjectView, Directive,
    LookupView, ResourceIdentityView,
};
use crate::resource::TradingStrategySpecView;
use vstd::prelude::*;

verus! {

/// What names a stored object.
pub struct ObjectKey {
    pub kind: ChildKind,
    pub namespace: Seq<char>,
    pub name: Seq<char>,
}

/// A stored object: for each field owner, what it last applied.
pub type StoredObject = Map<Seq<char>, ChildObjectView>;

/// The store: the objects that exist, by what names them.
pub type Store = Map<ObjectKey, StoredObject>;

/// The object that a request writes to.
pub open spec fn request_key(request: ApplyRequestView) -> ObjectKey {
    ObjectKey { kind: request.child.kind(), namespace: request.namespace, name: request.name }
}

/// The child of kind `kind` of a strategy that declares the name `name`, as the store
/// names it: by the strategy's namespace and the declared name.
pub open spec fn child_key(
    identity: ResourceIdentityView,
    name: Seq<char>,
    kind: ChildKind,
) -> ObjectKey {
    ObjectKey { kind, namespace: target_namespace(identity), name }
}

/// The store after one request was applied: the object exists, the share of the
/// request's field owner is what the request says, and all else is as before.
pub open spec fn applied(store: Store, request: ApplyRequestView) -> Store {
    let key = request_key(request);
    let before = if store.dom().contains(key) {
        store[key]
    } else {
        Map::empty()
    };
    store.insert(key, before.insert(request.field_manager, request.child))
}

/// The store after a sequence of requests was applied, one after the other.
pub open spec fn applied_all(store: Store, requests: Seq<ApplyRequestView>) -> Store
    decreases requests.len(),
{
    if requests.len() == 0 {
        store
    } else {
        applied(applied_all(store, requests.drop_last()), requests.last())
    }
}

/// What the operator has applied to the object `key`, if anything.
pub open spec fn operator_share(store: Store, key: ObjectKey) -> Option<ChildObjectView> {
    if store.dom().contains(key) && store[key].dom().contains(CONTROLLER_ID@) {
        Some(store[key][CONTROLLER_ID@])
    } else {
        None
    }
}

/// The store holds, as the operator's share, exactly the children that should exist for
/// the declared state `spec` of the strategy `identity`.
pub open spec fn converged_on(
    store: Store,
    identity: ResourceIdentityView,
    spec: TradingStrategySpecView,
) -> bool {
    &&& operator_share(store, child_key(identity, spec.name, ChildKind::Workload)) == Some(
        desired_child(ChildKind::Workload, spec),
    )
    &&& operator_share(store, child_key(identity, spec.name, ChildKind::Exposure)) == Some(
        desired_child(ChildKind::Exposure, spec),
    )
}

/// The store after one full pass for each declared state of `history`, in order.
pub open spec fn after_passes(
    store: Store,
    identity: ResourceIdentityView,
    history: Seq<TradingStrategySpecView>,
) -> Store
    decreases history.len(),
{
    if history.len() == 0 {
        store
    } else {
        applied_all(
            after_passes(store, identity, history.drop_last()),
            full_plan(identity, history.last()),
        )
    }
}

/// Applying a request twice leaves the store as applying it once does.
pub proof fn lemma_apply_idempotent(store: Store, request: ApplyRequestView)
    ensures
        applied(applied(store, request), request) == applied(store, request),
{
    let once = applied(store, request);
    let twice = applied(once, request);
    let key = request_key(request);
    assert(once[key].insert(request.field_manager, request.child) =~= once[key]);
    assert(twice =~= once);
}

/// An apply creates or updates one object and no other, and within that object it
/// leaves the share of every other field owner as it was.
pub proof fn lemma_apply_scoped(store: Store, request: ApplyRequestView)
    ensures
        applied(store, request).dom() == store.dom().insert(request_key(request)),
        forall|key: ObjectKey|
            key != request_key(request) && store.dom().contains(key) ==> #[trigger] applied(
                store,
                request,
            )[key] == store[key],
        forall|owner: Seq<char>|
            owner != request.field_manager && store.dom().contains(request_key(request))
                && #[trigger] store[request_key(request)].dom().contains(owner) ==> applied(
                store,
                request,
            )[request_key(request)].dom().contains(owner) && applied(
                store,
                request,
            )[request_key(request)][owner] == store[request_key(request)][owner],
{
}

/// The children of a strategy are named by its namespace and by the name that it
/// declares, and by nothing else: every request of a pass writes to the object of its
/// kind under that name, which is the name that the object carries, and two declared
/// states with the same name write to the same two objects, one of each kind.
pub proof fn lemma_child_identity(
    identity: ResourceIdentityView,
    spec: TradingStrategySpecView,
    other: TradingStrategySpecView,
    kind: ChildKind,
)
    ensures
        request_key(request_for(identity, spec, kind)) == child_key(identity, spec.name, kind),
        request_key(request_for(identity, spec, kind)).name == request_for(
            identity,
            spec,
            kind,
        ).child.name(),
        request_for(identity, spec, kind).field_manager == CONTROLLER_ID@,
        other.name == spec.name ==> request_key(request_for(identity, other, kind))
            == request_key(request_for(identity, spec, kind)),
        child_key(identity, spec.name, ChildKind::Workload) != child_key(
            identity,
            spec.name,
            ChildKind::Exposure,
        ),
{
}

/// Applying the full plan is applying the workload and then the service.
pub proof fn lemma_plan_unrolled(
    store: Store,
    identity: ResourceIdentityView,
    spec: TradingStrategySpecView,
)
    ensures
        applied_all(store, full_plan(identity, spec)) == applied(
            applied(store, request_for(identity, spec, ChildKind::Workload)),
            request_for(identity, spec, ChildKind::Exposure),
        ),
{
    reveal_with_fuel(applied_all, 3);
    let plan = full_plan(identity, spec);
    assert(plan.drop_last() =~= seq![plan[0]]);
    assert(plan.drop_last().drop_last() =~= Seq::<ApplyRequestView>::empty());
    assert(plan.drop_last().last() == plan[0]);
    assert(plan.last() == plan[1]);
}

/// After a pass on which nothing fails, the store holds exactly the children of the
/// declared state, whatever it held before, and each of them stands under the name that
/// it carries.
pub proof fn lemma_pass_converges(
    store: Store,
    identity: ResourceIdentityView,
    spec: TradingStrategySpecView,
)
    ensures
        converged_on(applied_all(store, full_plan(identity, spec)), identity, spec),
        desired_child(ChildKind::Workload, spec).name() == spec.name,
        desired_child(ChildKind::Exposure, spec).name() == spec.name,
{
    lemma_plan_unrolled(store, identity, spec);
    lemma_child_identity(identity, spec, spec, ChildKind::Workload);
    lemma_child_identity(identity, spec, spec, ChildKind::Exposure);
}

/// A second pass on the same declared state changes nothing: no second object, no
/// drift.
pub proof fn lemma_pass_idempotent(
    store: Store,
    identity: ResourceIdentityView,
    spec: TradingStrategySpecView,
)
    ensures
        applied_all(applied_all(store, full_plan(identity, spec)), full_plan(identity, spec))
            == applied_all(store, full_plan(identity, spec)),
{
    let workload = request_for(identity, spec, ChildKind::Workload);
    let exposure = request_for(identity, spec, ChildKind::Exposure);
    lemma_plan_unrolled(store, identity, spec);
    let once = applied(applied(store, workload), exposure);
    lemma_plan_unrolled(once, identity, spec);
    lemma_child_identity(identity, spec, spec, ChildKind::Workload);
    lemma_child_identity(identity, spec, spec, ChildKind::Exposure);
    let mid = applied(once, workload);
    let k0 = request_key(workload);
    let k1 = request_key(exposure);
    assert(once[k0].insert(workload.field_manager, workload.child) =~= once[k0]);
    assert(mid =~= once);
    assert(once[k1].insert(exposure.field_manager, exposure.child) =~= once[k1]);
    assert(applied(mid, exposure) =~= once);
}

/// However the declared state changed, and whichever of the changes were reconciled,
/// the store follows the last declared state that a full pass saw: it holds exactly
/// the children of that state, under the name that the state declares. Passes that
/// were skipped or folded together make no difference.
pub proof fn lemma_converges_on_last(
    store: Store,
    identity: ResourceIdentityView,
    history: Seq<TradingStrategySpecView>,
)
    requires
        history.len() >= 1,
    ensures
        converged_on(after_passes(store, identity, history), identity, history.last()),
{
    lemma_pass_converges(
        after_passes(store, identity, history.drop_last()),
        identity,
        history.last(),
    );
}

/// A pass that ends well has brought the store to the declared state: once the
/// requests that it issued are applied, the store holds exactly the children of that
/// state.
pub proof fn lemma_finished_pass_converges(
    store: Store,
    identity: ResourceIdentityView,
    spec: TradingStrategySpecView,
    outcomes: Seq<ApplyOutcomeView>,
)
    requires
        outcomes.len() >= 2,
        outcomes[0] is Applied,
        outcomes[1] is Applied,
    ensures
        converged_on(
            applied_all(store, run(begin(identity, LookupView::Found(spec)), outcomes).requests),
            identity,
            spec,
        ),
{
    lemma_pass_succeeds(identity, spec, outcomes);
    lemma_pass_converges(store, identity, spec);
}

/// A pass that fails at the service leaves the workload that it applied in place: the
/// store then holds the workload of the declared state, and the service is as it was.
pub proof fn lemma_failed_pass_keeps_workload(
    store: Store,
    identity: ResourceIdentityView,
    spec: TradingStrategySpecView,
    outcomes: Seq<ApplyOutcomeView>,
    error: Seq<char>,
)
    requires
        outcomes.len() >= 2,
        outcomes[0] is Applied,
        outcomes[1] == ApplyOutcomeView::Failed(error),
    ensures
        applied_all(store, full_plan(identity, spec).take(1)) == applied(
            store,
            request_for(identity, spec, ChildKind::Workload),
        ),
        operator_share(
            applied(store, request_for(identity, spec, ChildKind::Workload)),
            child_key(identity, spec.name, ChildKind::Workload),
        ) == Some(desired_child(ChildKind::Workload, spec)),
        operator_share(
            applied(store, request_for(identity, spec, ChildKind::Workload)),
            child_key(identity, spec.name, ChildKind::Exposure),
        ) == operator_share(store, child_key(identity, spec.name, ChildKind::Exposure)),
        run(begin(identity, LookupView::Found(spec)), outcomes).result == Some(
            Err::<Directive, Seq<char>>(error),
        ),
{
    lemma_pass_fails(identity, spec, outcomes, 1, error);
    lemma_child_identity(identity, spec, spec, ChildKind::Workload);
    reveal_with_fuel(applied_all, 2);
    let first = full_plan(identity, spec).take(1);
    assert(first.last() == request_for(identity, spec, ChildKind::Workload));
    assert(first.drop_last() =~= Seq::<ApplyRequestView>::empty());
}

} // verus!
