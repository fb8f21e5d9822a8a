//! One reconcile pass, as a machine that decides and never waits.
//!
//! A pass reads the declared state of one strategy, builds both children from it and
//! has them applied, the workload first. The pass itself performs no request: each step
//! hands the caller the request to perform, and the caller hands back how it ended.
//! Every pass starts from the declared state as it is now, so a pass never depends on
//! which event caused it or on what an earlier pass did.

use crate::desired::{
    build_deployment, build_service, desired_exposure, desired_workload, ExposureSpec,
    ExposureSpecView, WorkloadSpec, WorkloadSpecView, CONTROLLER_ID,
};
use crate::resource::{text_opt, TradingStrategySpec, TradingStrategySpecView};
use vstd::prelude::*;

verus! {

/// Seconds until the next pass after a pass that succeeded.
pub const RESYNC_SECS: u64 = 30;

/// Seconds until the next pass after a pass that failed.
pub const ERROR_RETRY_SECS: u64 = 60;

/// The namespace of a strategy that names none.
pub const DEFAULT_NAMESPACE: &'static str = "default";

/// Why a pass failed, in words.
#[derive(Debug, PartialEq, Eq)]
pub struct OperatorError(pub String);

impl View for OperatorError {
    type V = Seq<char>;

    open spec fn view(&self) -> Seq<char> {
        self.0@
    }
}

impl OperatorError {
    /// The error's text.
    pub fn message(&self) -> (text: String)
        ensures
            text@ == self@,
    {
        self.0.clone()
    }
}

/// When to reconcile a strategy again.
#[derive(Debug, Clone, Copy, PartialEq, Eq, Structural)]
pub struct Directive {
    pub after_secs: u64,
}

/// The identity of a strategy in the resource store: where the resource itself is
/// found. The children are not named after the resource but after the name that it
/// declares.
#[derive(Debug, PartialEq, Eq)]
pub struct ResourceIdentity {
    pub namespace: Option<String>,
    pub name: String,
}

/// The mathematical value of a [`ResourceIdentity`].
pub struct ResourceIdentityView {
    pub namespace: Option<Seq<char>>,
    pub name: Seq<char>,
}

impl View for ResourceIdentity {
    type V = ResourceIdentityView;

    open spec fn view(&self) -> ResourceIdentityView {
        ResourceIdentityView { namespace: text_opt(self.namespace), name: self.name@ }
    }
}

/// The kinds of object that the operator derives from a strategy.
#[derive(Debug, Clone, Copy, PartialEq, Eq, Structural)]
pub enum ChildKind {
    Workload,
    Exposure,
}

/// The kind that is applied first in every pass.
pub open spec fn first_kind() -> ChildKind {
    ChildKind::Workload
}

/// The kind that is applied after `kind`, if any.
pub open spec fn kind_after(kind: ChildKind) -> Option<ChildKind> {
    match kind {
        ChildKind::Workload => Some(ChildKind::Exposure),
        ChildKind::Exposure => None,
    }
}

impl ChildKind {
    /// The kind that is applied after this one, if any.
    pub fn next(self) -> (res: Option<ChildKind>)
        ensures
            res == kind_after(self),
    {
        match self {
            ChildKind::Workload => Some(ChildKind::Exposure),
            ChildKind::Exposure => None,
        }
    }
}

/// A derived object, tagged with its kind.
#[derive(Debug, PartialEq, Eq)]
pub enum ChildObject {
    Workload(WorkloadSpec),
    Exposure(ExposureSpec),
}

/// The mathematical value of a [`ChildObject`].
pub enum ChildObjectView {
    Workload(WorkloadSpecView),
    Exposure(ExposureSpecView),
}

impl View for ChildObject {
    type V = ChildObjectView;

    open spec fn view(&self) -> ChildObjectView {
        match *self {
            ChildObject::Workload(w) => ChildObjectView::Workload(w@),
            ChildObject::Exposure(e) => ChildObjectView::Exposure(e@),
        }
    }
}

impl ChildObjectView {
    /// The kind of the object.
    pub open spec fn kind(self) -> ChildKind {
        match self {
            ChildObjectView::Workload(_) => ChildKind::Workload,
            ChildObjectView::Exposure(_) => ChildKind::Exposure,
        }
    }

    /// The name that the object gives itself.
    pub open spec fn name(self) -> Seq<char> {
        match self {
            ChildObjectView::Workload(w) => w.name,
            ChildObjectView::Exposure(e) => e.name,
        }
    }
}

impl ChildObject {
    /// The kind of the object.
    pub fn kind(&self) -> (kind: ChildKind)
        ensures
            kind == self@.kind(),
    {
        match self {
            ChildObject::Workload(_) => ChildKind::Workload,
            ChildObject::Exposure(_) => ChildKind::Exposure,
        }
    }

    /// The name that the object gives itself.
    pub fn name(&self) -> (name: String)
        ensures
            name@ == self@.name(),
    {
        match self {
            ChildObject::Workload(workload) => workload.name.clone(),
            ChildObject::Exposure(exposure) => exposure.name.clone(),
        }
    }
}

/// One create-or-update of a derived object: where it goes, under which field owner,
/// and what it should be.
#[derive(Debug, PartialEq, Eq)]
pub struct ApplyRequest {
    pub namespace: String,
    pub name: String,
    pub field_manager: String,
    pub child: ChildObject,
}

/// The mathematical value of an [`ApplyRequest`].
pub struct ApplyRequestView {
    pub namespace: Seq<char>,
    pub name: Seq<char>,
    pub field_manager: Seq<char>,
    pub child: ChildObjectView,
}

impl View for ApplyRequest {
    type V = ApplyRequestView;

    open spec fn view(&self) -> ApplyRequestView {
        ApplyRequestView {
            namespace: self.namespace@,
            name: self.name@,
            field_manager: self.field_manager@,
            child: self.child@,
        }
    }
}

/// What reading a strategy from the resource store gave.
#[derive(Debug, PartialEq, Eq)]
pub enum Lookup {
    /// The strategy exists, with this declared state.
    Found(TradingStrategySpec),
    /// No such strategy exists.
    Absent,
    /// What is stored could not be read as a declared state.
    Failed(OperatorError),
}

/// The mathematical value of a [`Lookup`].
pub enum LookupView {
    Found(TradingStrategySpecView),
    Absent,
    Failed(Seq<char>),
}

impl View for Lookup {
    type V = LookupView;

    open spec fn view(&self) -> LookupView {
        match *self {
            Lookup::Found(s) => LookupView::Found(s@),
            Lookup::Absent => LookupView::Absent,
            Lookup::Failed(e) => LookupView::Failed(e@),
        }
    }
}

/// How one apply request ended.
#[derive(Debug, PartialEq, Eq)]
pub enum ApplyOutcome {
    Applied,
    Failed(OperatorError),
}

/// The mathematical value of an [`ApplyOutcome`].
pub enum ApplyOutcomeView {
    Applied,
    Failed(Seq<char>),
}

impl View for ApplyOutcome {
    type V = ApplyOutcomeView;

    open spec fn view(&self) -> ApplyOutcomeView {
        match *self {
            ApplyOutcome::Applied => ApplyOutcomeView::Applied,
            ApplyOutcome::Failed(e) => ApplyOutcomeView::Failed(e@),
        }
    }
}

/// A pass that waits for the outcome of one apply request.
#[derive(Debug, PartialEq, Eq)]
pub struct ReconcilePass {
    identity: ResourceIdentity,
    spec: TradingStrategySpec,
    pending: ChildKind,
}

/// The mathematical value of a [`ReconcilePass`].
pub struct ReconcilePassView {
    pub identity: ResourceIdentityView,
    pub spec: TradingStrategySpecView,
    pub pending: ChildKind,
}

impl View for ReconcilePass {
    type V = ReconcilePassView;

    closed spec fn view(&self) -> ReconcilePassView {
        ReconcilePassView { identity: self.identity@, spec: self.spec@, pending: self.pending }
    }
}

/// How a pass ended: when to run the next one, or why it failed.
pub type PassResult = Result<Directive, OperatorError>;

/// The mathematical value of a [`PassResult`].
pub open spec fn result_view(r: PassResult) -> Result<Directive, Seq<char>> {
    match r {
        Ok(d) => Ok(d),
        Err(e) => Err(e@),
    }
}

/// Where a pass stands after a step.
#[derive(Debug, PartialEq, Eq)]
pub enum Progress {
    /// `request` is to be performed, and its outcome handed to `pass`.
    Apply { pass: ReconcilePass, request: ApplyRequest },
    /// The pass is over.
    Finished(PassResult),
}

/// The mathematical value of a [`Progress`].
pub enum ProgressView {
    Apply { pass: ReconcilePassView, request: ApplyRequestView },
    Finished(Result<Directive, Seq<char>>),
}

impl View for Progress {
    type V = ProgressView;

    open spec fn view(&self) -> ProgressView {
        match *self {
            Progress::Apply { pass, request } => ProgressView::Apply {
                pass: pass@,
                request: request@,
            },
            Progress::Finished(r) => ProgressView::Finished(result_view(r)),
        }
    }
}

/// The namespace in which the children of a strategy live: its own, or the default one
/// where it names none.
pub open spec fn target_namespace(identity: ResourceIdentityView) -> Seq<char> {
    match identity.namespace {
        Some(ns) => ns,
        None => DEFAULT_NAMESPACE@,
    }
}

/// The child of kind `kind` that should exist for a declared state.
pub open spec fn desired_child(kind: ChildKind, spec: TradingStrategySpecView) -> ChildObjectView {
    match kind {
        ChildKind::Workload => ChildObjectView::Workload(desired_workload(spec)),
        ChildKind::Exposure => ChildObjectView::Exposure(desired_exposure(spec)),
    }
}

/// The request that applies the child of kind `kind` of a strategy. It goes to the
/// namespace of the strategy and to the name that the strategy declares, which is the
/// name that the child gives itself; the name of the resource plays no part.
pub open spec fn request_for(
    identity: ResourceIdentityView,
    spec: TradingStrategySpecView,
    kind: ChildKind,
) -> ApplyRequestView {
    ApplyRequestView {
        namespace: target_namespace(identity),
        name: spec.name,
        field_manager: CONTROLLER_ID@,
        child: desired_child(kind, spec),
    }
}

/// The step that asks for the child of kind `kind` to be applied.
pub open spec fn awaiting(
    identity: ResourceIdentityView,
    spec: TradingStrategySpecView,
    kind: ChildKind,
) -> ProgressView {
    ProgressView::Apply {
        pass: ReconcilePassView { identity, spec, pending: kind },
        request: request_for(identity, spec, kind),
    }
}

/// The end of a pass that succeeded.
pub open spec fn converged() -> ProgressView {
    ProgressView::Finished(Ok(Directive { after_secs: RESYNC_SECS }))
}

/// Where a pass stands after the strategy was read.
///
/// A strategy that no longer exists needs nothing: the pass is over and has succeeded.
/// One that could not be read fails the pass. Otherwise the first child is to be
/// applied.
pub open spec fn begin(identity: ResourceIdentityView, lookup: LookupView) -> ProgressView {
    match lookup {
        LookupView::Found(spec) => awaiting(identity, spec, first_kind()),
        LookupView::Absent => converged(),
        LookupView::Failed(e) => ProgressView::Finished(Err(e)),
    }
}

/// Where a pass stands after the outcome of its pending request.
///
/// A failure ends the pass with that failure; what was applied before stays applied.
/// After a success the next child is to be applied, or the pass is over.
pub open spec fn resumed(pass: ReconcilePassView, outcome: ApplyOutcomeView) -> ProgressView {
    match outcome {
        ApplyOutcomeView::Failed(e) => ProgressView::Finished(Err(e)),
        ApplyOutcomeView::Applied => match kind_after(pass.pending) {
            Some(kind) => awaiting(pass.identity, pass.spec, kind),
            None => converged(),
        },
    }
}

impl ResourceIdentity {
    /// The namespace in which the children of the strategy live: its own, or the
    /// default one where it names none.
    pub fn target_namespace(&self) -> (namespace: String)
        ensures
            namespace@ == target_namespace(self@),
    {
        match &self.namespace {
            Some(ns) => ns.clone(),
            None => String::from_str(DEFAULT_NAMESPACE),
        }
    }
}

/// Builds the request that applies the child of kind `kind` of a strategy. The request
/// is addressed to the name that the child carries.
pub fn child_request(
    identity: &ResourceIdentity,
    spec: &TradingStrategySpec,
    kind: ChildKind,
) -> (request: ApplyRequest)
    ensures
        request@ == request_for(identity@, spec@, kind),
        request@.name == request@.child.name(),
        request@.child.kind() == kind,
{
    let child = match kind {
        ChildKind::Workload => ChildObject::Workload(build_deployment(spec)),
        ChildKind::Exposure => ChildObject::Exposure(build_service(spec)),
    };
    ApplyRequest {
        namespace: identity.target_namespace(),
        name: child.name(),
        field_manager: String::from_str(CONTROLLER_ID),
        child,
    }
}

/// Starts a pass for the strategy `identity`, of which reading the store gave `lookup`.
pub fn reconcile(identity: ResourceIdentity, lookup: Lookup) -> (progress: Progress)
    ensures
        progress@ == begin(identity@, lookup@),
{
    match lookup {
        Lookup::Found(spec) => {
            let request = child_request(&identity, &spec, ChildKind::Workload);
            Progress::Apply {
                pass: ReconcilePass { identity, spec, pending: ChildKind::Workload },
                request,
            }
        },
        Lookup::Absent => Progress::Finished(Ok(Directive { after_secs: RESYNC_SECS })),
        Lookup::Failed(error) => Progress::Finished(Err(error)),
    }
}

impl ReconcilePass {
    /// The kind of the child whose request is pending.
    pub fn pending(&self) -> (kind: ChildKind)
        ensures
            kind == self@.pending,
    {
        self.pending
    }

    /// Continues the pass with the outcome of its pending request.
    pub fn resume(self, outcome: ApplyOutcome) -> (progress: Progress)
        ensures
            progress@ == resumed(self@, outcome@),
    {
        match outcome {
            ApplyOutcome::Failed(error) => Progress::Finished(Err(error)),
            ApplyOutcome::Applied => match self.pending.next() {
                Some(kind) => {
                    let request = child_request(&self.identity, &self.spec, kind);
                    Progress::Apply {
                        pass: ReconcilePass {
                            identity: self.identity,
                            spec: self.spec,
                            pending: kind,
                        },
                        request,
                    }
                },
                None => Progress::Finished(Ok(Directive { after_secs: RESYNC_SECS })),
            },
        }
    }
}

/// When to try again after a pass that failed: after a fixed delay, whatever the
/// failure was. No failure ends the retries.
pub fn error_policy(error: &OperatorError) -> (directive: Directive)
    ensures
        directive.after_secs == ERROR_RETRY_SECS,
{
    Directive { after_secs: ERROR_RETRY_SECS }
}

/// Every request goes to the namespace of the strategy and to the name that the strategy
/// declares, and that name is the one that the object in the request carries: a request
/// never addresses one name and carries another.
pub proof fn lemma_request_addresses_child(
    identity: ResourceIdentityView,
    spec: TradingStrategySpecView,
    kind: ChildKind,
)
    ensures
        request_for(identity, spec, kind).namespace == target_namespace(identity),
        request_for(identity, spec, kind).name == spec.name,
        request_for(identity, spec, kind).name == request_for(identity, spec, kind).child.name(),
        request_for(identity, spec, kind).child.kind() == kind,
{
}

/// What a pass has done once some of its requests have ended: the requests it has
/// issued, in order, and its result, if it is over.
pub struct PassTrace {
    pub requests: Seq<ApplyRequestView>,
    pub result: Option<Result<Directive, Seq<char>>>,
}

/// The trace of a pass that stands at `progress` and whose further requests end as
/// `outcomes` say, one after the other. Outcomes beyond the end of the pass are not
/// looked at.
pub open spec fn run(progress: ProgressView, outcomes: Seq<ApplyOutcomeView>) -> PassTrace
    decreases outcomes.len(),
{
    match progress {
        ProgressView::Finished(r) => PassTrace { requests: Seq::empty(), result: Some(r) },
        ProgressView::Apply { pass, request } => if outcomes.len() == 0 {
            PassTrace { requests: seq![request], result: None }
        } else {
            let rest = run(resumed(pass, outcomes[0]), outcomes.drop_first());
            PassTrace { requests: seq![request] + rest.requests, result: rest.result }
        },
    }
}

/// The requests of a pass on which nothing fails: the workload, then the service.
pub open spec fn full_plan(
    identity: ResourceIdentityView,
    spec: TradingStrategySpecView,
) -> Seq<ApplyRequestView> {
    seq![
        request_for(identity, spec, ChildKind::Workload),
        request_for(identity, spec, ChildKind::Exposure),
    ]
}

/// A pass on which both requests succeed issues exactly the full plan, in order, and
/// asks for the next pass after the resync interval.
pub proof fn lemma_pass_succeeds(
    identity: ResourceIdentityView,
    spec: TradingStrategySpecView,
    outcomes: Seq<ApplyOutcomeView>,
)
    requires
        outcomes.len() >= 2,
        outcomes[0] is Applied,
        outcomes[1] is Applied,
    ensures
        run(begin(identity, LookupView::Found(spec)), outcomes) == (PassTrace {
            requests: full_plan(identity, spec),
            result: Some(Ok(Directive { after_secs: RESYNC_SECS })),
        }),
{
    reveal_with_fuel(run, 3);
    let tail = outcomes.drop_first();
    assert(tail[0] == outcomes[1]);
    let trace = run(begin(identity, LookupView::Found(spec)), outcomes);
    assert(trace.requests =~= full_plan(identity, spec));
}

/// A pass for a strategy that no longer exists issues no request and succeeds.
pub proof fn lemma_pass_absent(identity: ResourceIdentityView, outcomes: Seq<ApplyOutcomeView>)
    ensures
        run(begin(identity, LookupView::Absent), outcomes) == (PassTrace {
            requests: Seq::empty(),
            result: Some(Ok(Directive { after_secs: RESYNC_SECS })),
        }),
{
}

/// A pass whose strategy could not be read issues no request and fails with that error.
pub proof fn lemma_pass_unreadable(
    identity: ResourceIdentityView,
    error: Seq<char>,
    outcomes: Seq<ApplyOutcomeView>,
)
    ensures
        run(begin(identity, LookupView::Failed(error)), outcomes) == (PassTrace {
            requests: Seq::empty(),
            result: Some(Err(error)),
        }),
{
}

/// A pass ends at the first request that fails, with that failure: it has issued the
/// plan up to and including the failed request and nothing after it, and it undoes
/// nothing.
pub proof fn lemma_pass_fails(
    identity: ResourceIdentityView,
    spec: TradingStrategySpecView,
    outcomes: Seq<ApplyOutcomeView>,
    k: int,
    error: Seq<char>,
)
    requires
        0 <= k < 2,
        k < outcomes.len(),
        forall|i: int| 0 <= i < k ==> outcomes[i] is Applied,
        outcomes[k] == ApplyOutcomeView::Failed(error),
    ensures
        run(begin(identity, LookupView::Found(spec)), outcomes) == (PassTrace {
            requests: full_plan(identity, spec).take(k + 1),
            result: Some(Err(error)),
        }),
{
    reveal_with_fuel(run, 3);
    let trace = run(begin(identity, LookupView::Found(spec)), outcomes);
    if k == 1 {
        let tail = outcomes.drop_first();
        assert(tail[0] == outcomes[1]);
        assert(outcomes[0] is Applied);
    }
    assert(trace.requests =~= full_plan(identity, spec).take(k + 1));
}

/// Whatever happens, a pass issues a prefix of the full plan: never the service before
/// the workload, never a child twice, never anything else.
pub proof fn lemma_pass_follows_plan(
    identity: ResourceIdentityView,
    spec: TradingStrategySpecView,
    outcomes: Seq<ApplyOutcomeView>,
)
    ensures
        run(begin(identity, LookupView::Found(spec)), outcomes).requests.is_prefix_of(
            full_plan(identity, spec),
        ),
        run(begin(identity, LookupView::Found(spec)), outcomes).requests.len() >= 1,
{
    reveal_with_fuel(run, 3);
    let trace = run(begin(identity, LookupView::Found(spec)), outcomes);
    let plan = full_plan(identity, spec);
    if outcomes.len() == 0 {
        assert(trace.requests =~= plan.take(1));
    } else if outcomes[0] is Failed {
        assert(trace.requests =~= plan.take(1));
    } else {
        assert(trace.requests =~= plan.take(2));
    }
    assert(plan.take(1).is_prefix_of(plan));
    assert(plan.take(2).is_prefix_of(plan));
}

/// The next pass comes no sooner than the resync interval after a pass that succeeded,
/// and no sooner than the retry interval after one that failed; the retry interval is
/// the longer of the two.
pub proof fn lemma_backoff(
    identity: ResourceIdentityView,
    lookup: LookupView,
    outcomes: Seq<ApplyOutcomeView>,
    directive: Directive,
)
    requires
        run(begin(identity, lookup), outcomes).result == Some(
            Ok::<Directive, Seq<char>>(directive),
        ),
    ensures
        directive.after_secs == RESYNC_SECS,
        directive.after_secs >= 30,
        ERROR_RETRY_SECS >= 60,
        ERROR_RETRY_SECS > RESYNC_SECS,
{
    reveal_with_fuel(run, 3);
}

} // verus!
