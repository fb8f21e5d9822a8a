use kube::runtime::controller::Action;
use std::collections::BTreeMap;
use std::time::Duration;
use trading_operator::desired::{build_deployment, build_service};
use trading_operator::reconciler::{
    child_request, error_policy, reconcile, ApplyOutcome, ApplyRequest, ChildKind, ChildObject,
    Directive, Lookup, OperatorError, Progress, ResourceIdentity, DEFAULT_NAMESPACE,
    ERROR_RETRY_SECS, RESYNC_SECS,
};
use trading_operator::resource::{ResourceConfig, TradingStrategySpec};

fn strategy(name: &str, class: &str) -> TradingStrategySpec {
    TradingStrategySpec {
        name: name.to_string(),
        strategy_class: class.to_string(),
        image: None,
        port: Some(9000),
        resources: Some(ResourceConfig { cpu: "500m".to_string(), memory: "256Mi".to_string() }),
    }
}

fn identity(namespace: Option<&str>, name: &str) -> ResourceIdentity {
    ResourceIdentity { namespace: namespace.map(|ns| ns.to_string()), name: name.to_string() }
}

fn expect_apply(progress: Progress) -> (trading_operator::reconciler::ReconcilePass, ApplyRequest) {
    match progress {
        Progress::Apply { pass, request } => (pass, request),
        Progress::Finished(result) => panic!("the pass ended early: {:?}", result),
    }
}

#[test]
fn pass_applies_workload_then_service_then_resyncs() {
    let spec = strategy("alpha", "Momentum");
    let progress = reconcile(identity(Some("trading"), "alpha"), Lookup::Found(spec.clone()));
    let (pass, first) = expect_apply(progress);
    assert_eq!(pass.pending(), ChildKind::Workload);
    assert_eq!(first.namespace, "trading");
    assert_eq!(first.name, "alpha");
    assert_eq!(first.field_manager, "trading-operator");
    assert_eq!(first.child, ChildObject::Workload(build_deployment(&spec)));
    assert_eq!(first.child.kind(), ChildKind::Workload);

    let (pass, second) = expect_apply(pass.resume(ApplyOutcome::Applied));
    assert_eq!(pass.pending(), ChildKind::Exposure);
    assert_eq!(second.namespace, "trading");
    assert_eq!(second.name, "alpha");
    assert_eq!(second.field_manager, "trading-operator");
    assert_eq!(second.child, ChildObject::Exposure(build_service(&spec)));
    assert_eq!(second.child.kind(), ChildKind::Exposure);

    let end = pass.resume(ApplyOutcome::Applied);
    assert_eq!(end, Progress::Finished(Ok(Directive { after_secs: 30 })));
}

#[test]
fn strategy_without_namespace_goes_to_the_default_one() {
    let spec = strategy("alpha", "Momentum");
    let (pass, first) = expect_apply(reconcile(identity(None, "alpha"), Lookup::Found(spec)));
    assert_eq!(first.namespace, "default");
    assert_eq!(DEFAULT_NAMESPACE, "default");
    let (_, second) = expect_apply(pass.resume(ApplyOutcome::Applied));
    assert_eq!(second.namespace, "default");
}

#[test]
fn request_is_addressed_to_the_name_that_the_child_carries() {
    let spec = strategy("alpha", "Momentum");
    let resource = identity(Some("trading"), "cr-1");
    for kind in [ChildKind::Workload, ChildKind::Exposure] {
        let request = child_request(&resource, &spec, kind);
        assert_eq!(request.name, "alpha");
        assert_eq!(request.namespace, "trading");
        assert_eq!(request.child.name(), "alpha");
        assert_eq!(request.child.kind(), kind);
    }
}

#[test]
fn pass_for_a_resource_of_another_name_addresses_the_declared_name() {
    let spec = strategy("alpha", "Momentum");
    let (pass, first) = expect_apply(reconcile(identity(None, "cr-1"), Lookup::Found(spec)));
    assert_eq!(first.name, "alpha");
    assert_eq!(first.child.name(), "alpha");
    let (_, second) = expect_apply(pass.resume(ApplyOutcome::Applied));
    assert_eq!(second.name, "alpha");
    assert_eq!(second.child.name(), "alpha");
}

#[test]
fn target_namespace_is_the_own_one_or_the_default() {
    assert_eq!(identity(Some("trading"), "alpha").target_namespace(), "trading");
    assert_eq!(identity(None, "alpha").target_namespace(), "default");
    assert_eq!(identity(Some(""), "alpha").target_namespace(), "");
}

#[test]
fn absent_strategy_needs_nothing() {
    let progress = reconcile(identity(Some("trading"), "gone"), Lookup::Absent);
    assert_eq!(progress, Progress::Finished(Ok(Directive { after_secs: RESYNC_SECS })));
}

#[test]
fn unreadable_strategy_fails_the_pass() {
    let error = OperatorError("missing field `strategy_class`".to_string());
    let progress = reconcile(
        identity(Some("trading"), "broken"),
        Lookup::Failed(OperatorError("missing field `strategy_class`".to_string())),
    );
    assert_eq!(progress, Progress::Finished(Err(error)));
}

#[test]
fn failed_workload_ends_the_pass_before_the_service() {
    let spec = strategy("alpha", "Momentum");
    let (pass, _) = expect_apply(reconcile(identity(None, "alpha"), Lookup::Found(spec)));
    let end = pass.resume(ApplyOutcome::Failed(OperatorError("connection refused".to_string())));
    assert_eq!(end, Progress::Finished(Err(OperatorError("connection refused".to_string()))));
}

#[test]
fn failed_service_ends_the_pass_with_that_failure() {
    let spec = strategy("alpha", "Momentum");
    let (pass, _) = expect_apply(reconcile(identity(None, "alpha"), Lookup::Found(spec)));
    let (pass, _) = expect_apply(pass.resume(ApplyOutcome::Applied));
    let end = pass.resume(ApplyOutcome::Failed(OperatorError("forbidden".to_string())));
    assert_eq!(end, Progress::Finished(Err(OperatorError("forbidden".to_string()))));
}

#[test]
fn child_kinds_come_in_a_fixed_order() {
    assert_eq!(ChildKind::Workload.next(), Some(ChildKind::Exposure));
    assert_eq!(ChildKind::Exposure.next(), None);
}

#[test]
fn every_pass_rebuilds_from_the_current_state() {
    let old = strategy("alpha", "Momentum");
    let mut new = strategy("alpha", "Momentum");
    new.port = Some(9100);
    let (_, from_old) = expect_apply(reconcile(identity(None, "alpha"), Lookup::Found(old)));
    let (_, from_new) = expect_apply(reconcile(identity(None, "alpha"), Lookup::Found(new.clone())));
    assert_ne!(from_old, from_new);
    assert_eq!(from_new.child, ChildObject::Workload(build_deployment(&new)));
}

fn write(store: &mut BTreeMap<(String, String, String, String), String>, request: &ApplyRequest) {
    let kind = format!("{:?}", request.child.kind());
    let key = (kind, request.namespace.clone(), request.name.clone(), request.field_manager.clone());
    store.insert(key, format!("{:?}", request.child));
}

fn run_pass(store: &mut BTreeMap<(String, String, String, String), String>, spec: &TradingStrategySpec) {
    let mut progress = reconcile(identity(Some("trading"), "alpha"), Lookup::Found(spec.clone()));
    loop {
        match progress {
            Progress::Apply { pass, request } => {
                write(store, &request);
                progress = pass.resume(ApplyOutcome::Applied);
            }
            Progress::Finished(result) => {
                assert_eq!(result, Ok(Directive { after_secs: 30 }));
                return;
            }
        }
    }
}

#[test]
fn second_pass_on_the_same_state_changes_nothing() {
    let spec = strategy("alpha", "Momentum");
    let mut store = BTreeMap::new();
    run_pass(&mut store, &spec);
    let once = store.clone();
    run_pass(&mut store, &spec);
    assert_eq!(store, once);
    assert_eq!(store.len(), 2);
}

#[test]
fn store_follows_the_last_declared_state() {
    let mut first = strategy("alpha", "Momentum");
    first.port = Some(9001);
    let mut last = strategy("alpha", "Momentum");
    last.port = Some(9003);
    let mut with_gap = BTreeMap::new();
    run_pass(&mut with_gap, &first);
    run_pass(&mut with_gap, &last);
    let mut direct = BTreeMap::new();
    run_pass(&mut direct, &last);
    assert_eq!(with_gap, direct);
    assert_eq!(with_gap.len(), 2);
}

#[test]
fn failed_pass_is_retried_after_sixty_seconds() {
    let directive = error_policy(&OperatorError("anything".to_string()));
    assert_eq!(directive, Directive { after_secs: 60 });
    assert_eq!(ERROR_RETRY_SECS, 60);
    assert_eq!(RESYNC_SECS, 30);
    assert!(ERROR_RETRY_SECS > RESYNC_SECS);
}

#[test]
fn error_text_is_kept() {
    let error = OperatorError("connection refused".to_string());
    assert_eq!(error.message(), "connection refused");
}

#[test]
fn directive_becomes_a_requeue_of_that_many_seconds() {
    let action = Directive { after_secs: 30 }.to_action();
    assert_eq!(action, Action::requeue(Duration::from_secs(30)));
    assert_ne!(action, Action::requeue(Duration::from_secs(60)));
    assert_ne!(action, Action::await_change());
    let retry = error_policy(&OperatorError("anything".to_string())).to_action();
    assert_eq!(retry, Action::requeue(Duration::from_secs(60)));
    assert_eq!(Directive { after_secs: 0 }.to_action(), Action::requeue(Duration::ZERO));
}

#[test]
fn request_is_sent_as_an_apply_under_the_operator_name() {
    let spec = strategy("alpha", "Momentum");
    let request = child_request(&identity(None, "alpha"), &spec, ChildKind::Workload);
    let params = request.patch_params();
    assert_eq!(params.field_manager, Some("trading-operator".to_string()));
    assert!(!params.force);
    assert!(!params.dry_run);
    assert!(params.field_validation.is_none());
}

#[test]
fn patch_params_follow_the_field_owner_of_the_request() {
    let spec = strategy("alpha", "Momentum");
    let mut request = child_request(&identity(None, "alpha"), &spec, ChildKind::Workload);
    request.field_manager = "someone-else".to_string();
    assert_eq!(request.patch_params().field_manager, Some("someone-else".to_string()));
}
