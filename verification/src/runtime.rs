//! Handing the library's decisions to the controller runtime, in the runtime's own
//! types.

use crate::reconciler::{ApplyRequest, Directive};
use crate::resource::text_opt;
use kube::api::{PatchParams, ValidationDirective};
use kube::runtime::controller::Action;
use std::time::Duration;
use vstd::prelude::*;

verus! {

/// The runtime's `Action`: what a reconciler hands back to the controller. Its content
/// is private to the runtime, so the library only carries such a value.
#[verifier::external_type_specification]
#[verifier::external_body]
pub struct ExAction(Action);

/// The runtime's `ValidationDirective`, a field of [`PatchParams`].
#[verifier::external_type_specification]
pub struct ExValidationDirective(ValidationDirective);

/// The runtime's `PatchParams`: the query parameters of a patch call, with their four
/// public fields.
#[verifier::external_type_specification]
pub struct ExPatchParams(PatchParams);

/// The action by which the controller runtime is asked to reconcile again after
/// `secs` seconds.
pub uninterp spec fn requeue_action(secs: u64) -> Action;

/// Calls `Action::requeue` of the controller runtime with a duration of `secs` whole
/// seconds. Assumed, not proved: the action returned is the one that the runtime makes
/// for that number of seconds, the same for every call.
#[verifier::external_body]
fn action_after(secs: u64) -> (action: Action)
    ensures
        action == requeue_action(secs),
{
    Action::requeue(Duration::from_secs(secs))
}

/// Calls `PatchParams::apply` of the controller runtime. Assumed, not proved: the
/// parameters returned name `manager` as the field manager and are otherwise the
/// default ones, with no dry run, no forcing and no validation directive.
#[verifier::external_body]
fn apply_params(manager: &str) -> (params: PatchParams)
    ensures
        text_opt(params.field_manager) == Some(manager@),
        !params.dry_run,
        !params.force,
        params.field_validation is None,
{
    PatchParams::apply(manager)
}

impl Directive {
    /// The directive in the form that the controller runtime takes.
    pub fn to_action(&self) -> (action: Action)
        ensures
            action == requeue_action(self.after_secs),
    {
        action_after(self.after_secs)
    }
}

impl ApplyRequest {
    /// The parameters with which the request is sent: a server-side apply under the
    /// request's field owner, not forced and not a dry run.
    pub fn patch_params(&self) -> (params: PatchParams)
        ensures
            text_opt(params.field_manager) == Some(self.field_manager@),
            !params.dry_run,
            !params.force,
            params.field_validation is None,
    {
        apply_params(self.field_manager.as_str())
    }
}

} // verus!
