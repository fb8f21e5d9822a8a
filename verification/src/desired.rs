//! The desired-state builder: from one strategy's declared state to the two objects
//! that should exist for it, a workload and the service that exposes it.
//!
//! Building is pure template substitution. Nothing here validates or alters the
//! declared values: a strategy class is placed into the paths as it is.

use crate::labels::{
    distinct_keys, has_key, key_index, lemma_key_index_unique, lookup, selects, LabelSet, Pairs,
};
use crate::resource::{
    ResourceConfig, ResourceConfigView, TradingStrategySpec, TradingStrategySpecView,
};
use vstd::prelude::*;

verus! {

/// The image that runs when the declared state names none.
pub const DEFAULT_IMAGE: &'static str = "freqtradeorg/freqtrade:stable";

/// The port that is used when the declared state names none.
pub const DEFAULT_PORT: u16 = 8080;

/// The number of instances of every workload.
pub const REPLICAS: i32 = 1;

/// The identifier under which the operator writes: the value of the ownership label and
/// the field owner of every apply.
pub const CONTROLLER_ID: &'static str = "trading-operator";

/// The key of the label that carries the strategy's name.
pub const APP_LABEL: &'static str = "app";

/// The key of the label that marks an object as written by the operator.
pub const OWNER_LABEL: &'static str = "managed-by";

/// The directory shared by all strategies; the volume is mounted here.
pub const DATA_DIR: &'static str = "/freqtrade/user_data";

/// The name of the sole container.
pub const CONTAINER_NAME: &'static str = "freqtrade";

/// The name that ties the volume to its mount.
pub const VOLUME_NAME: &'static str = "user-data";

/// The kind of host path that backs the volume.
pub const VOLUME_KIND: &'static str = "Directory";

/// The name under which an amount of CPU is requested or limited.
pub const CPU_RESOURCE: &'static str = "cpu";

/// The name under which an amount of memory is requested or limited.
pub const MEMORY_RESOURCE: &'static str = "memory";

/// Where a strategy of class `class` keeps its log and its trade store.
pub open spec fn log_dir(class: Seq<char>) -> Seq<char> {
    DATA_DIR@ + "/logs/"@ + class
}

/// Where a strategy of class `class` finds its code and configuration.
pub open spec fn strategy_dir(class: Seq<char>) -> Seq<char> {
    DATA_DIR@ + "/strategies/"@ + class
}

/// The log file of a strategy of class `class`.
pub open spec fn log_file(class: Seq<char>) -> Seq<char> {
    log_dir(class) + "/freqtrade.log"@
}

/// The file that holds the trade store of a strategy of class `class`.
pub open spec fn store_file(class: Seq<char>) -> Seq<char> {
    log_dir(class) + "/trades.sqlite"@
}

/// The address of the trade store: its file behind the scheme of the store.
pub open spec fn store_url(class: Seq<char>) -> Seq<char> {
    "sqlite:///"@ + store_file(class)
}

/// The configuration file of a strategy of class `class`.
pub open spec fn config_file(class: Seq<char>) -> Seq<char> {
    strategy_dir(class) + "/config_dryrun.json"@
}

/// The command that every container runs.
pub open spec fn container_command() -> Seq<Seq<char>> {
    seq!["freqtrade"@, "trade"@]
}

/// The arguments of the command for a strategy of class `class`.
pub open spec fn container_args(class: Seq<char>) -> Seq<Seq<char>> {
    seq![
        "--logfile"@,
        log_file(class),
        "--db-url"@,
        store_url(class),
        "--config"@,
        config_file(class),
        "--strategy"@,
        class,
        "--strategy-path"@,
        strategy_dir(class),
    ]
}

/// The image that a declared state asks for.
pub open spec fn effective_image(spec: TradingStrategySpecView) -> Seq<char> {
    match spec.image {
        Some(image) => image,
        None => DEFAULT_IMAGE@,
    }
}

/// The port that a declared state asks for.
pub open spec fn effective_port(spec: TradingStrategySpecView) -> u16 {
    match spec.port {
        Some(port) => port,
        None => DEFAULT_PORT,
    }
}

/// The labels of everything derived from the strategy `name`.
pub open spec fn owned_labels(name: Seq<char>) -> Pairs {
    seq![(APP_LABEL@, name), (OWNER_LABEL@, CONTROLLER_ID@)]
}

/// The label by which the service finds the pods of the strategy `name`.
pub open spec fn app_selector(name: Seq<char>) -> Pairs {
    seq![(APP_LABEL@, name)]
}

/// The values of a list of texts.
pub open spec fn texts(v: Seq<String>) -> Seq<Seq<char>> {
    v.map_values(|s: String| s@)
}

/// Where a volume is mounted inside the container.
#[derive(Debug, PartialEq, Eq)]
pub struct VolumeMount {
    pub name: String,
    pub mount_path: String,
    pub read_only: bool,
}

/// The mathematical value of a [`VolumeMount`].
pub struct VolumeMountView {
    pub name: Seq<char>,
    pub mount_path: Seq<char>,
    pub read_only: bool,
}

impl View for VolumeMount {
    type V = VolumeMountView;

    open spec fn view(&self) -> VolumeMountView {
        VolumeMountView {
            name: self.name@,
            mount_path: self.mount_path@,
            read_only: self.read_only,
        }
    }
}

/// A volume backed by a path of the host.
#[derive(Debug, PartialEq, Eq)]
pub struct HostVolume {
    pub name: String,
    pub path: String,
    pub kind: String,
}

/// The mathematical value of a [`HostVolume`].
pub struct HostVolumeView {
    pub name: Seq<char>,
    pub path: Seq<char>,
    pub kind: Seq<char>,
}

impl View for HostVolume {
    type V = HostVolumeView;

    open spec fn view(&self) -> HostVolumeView {
        HostVolumeView { name: self.name@, path: self.path@, kind: self.kind@ }
    }
}

/// Amounts by the name of the resource: `cpu` and `memory`, each with its quantity.
pub type ResourceAmounts = LabelSet;

/// What a container may use: the amounts it asks for and the amounts it may not exceed.
#[derive(Debug, PartialEq, Eq)]
pub struct ResourceRequirements {
    pub requests: ResourceAmounts,
    pub limits: ResourceAmounts,
}

/// The mathematical value of a [`ResourceRequirements`].
pub struct ResourceRequirementsView {
    pub requests: Pairs,
    pub limits: Pairs,
}

/// The declared amounts, by the name of the resource.
pub open spec fn amounts(resources: ResourceConfigView) -> Pairs {
    seq![(CPU_RESOURCE@, resources.cpu), (MEMORY_RESOURCE@, resources.memory)]
}

/// The requirements under `o`, if any, hold no resource name twice.
pub open spec fn requirements_wf(o: Option<ResourceRequirements>) -> bool {
    match o {
        Some(r) => r.requests.wf() && r.limits.wf(),
        None => true,
    }
}

impl View for ResourceRequirements {
    type V = ResourceRequirementsView;

    open spec fn view(&self) -> ResourceRequirementsView {
        ResourceRequirementsView { requests: self.requests@, limits: self.limits@ }
    }
}

/// The value of optional resource requirements.
pub open spec fn requirements_opt(o: Option<ResourceRequirements>) -> Option<
    ResourceRequirementsView,
> {
    match o {
        Some(r) => Some(r@),
        None => None,
    }
}

/// The sole container of a workload.
#[derive(Debug, PartialEq, Eq)]
pub struct ContainerSpec {
    pub name: String,
    pub image: String,
    pub command: Vec<String>,
    pub args: Vec<String>,
    pub container_port: u16,
    pub volume_mount: VolumeMount,
    pub resources: Option<ResourceRequirements>,
}

/// The mathematical value of a [`ContainerSpec`].
pub struct ContainerSpecView {
    pub name: Seq<char>,
    pub image: Seq<char>,
    pub command: Seq<Seq<char>>,
    pub args: Seq<Seq<char>>,
    pub container_port: u16,
    pub volume_mount: VolumeMountView,
    pub resources: Option<ResourceRequirementsView>,
}

impl View for ContainerSpec {
    type V = ContainerSpecView;

    open spec fn view(&self) -> ContainerSpecView {
        ContainerSpecView {
            name: self.name@,
            image: self.image@,
            command: texts(self.command@),
            args: texts(self.args@),
            container_port: self.container_port,
            volume_mount: self.volume_mount@,
            resources: requirements_opt(self.resources),
        }
    }
}

/// The workload of one strategy: a deployment of one pod with one container and one
/// volume.
#[derive(Debug, PartialEq, Eq)]
pub struct WorkloadSpec {
    pub name: String,
    pub labels: LabelSet,
    pub replicas: i32,
    pub selector: LabelSet,
    pub pod_labels: LabelSet,
    pub container: ContainerSpec,
    pub volume: HostVolume,
}

/// The mathematical value of a [`WorkloadSpec`].
pub struct WorkloadSpecView {
    pub name: Seq<char>,
    pub labels: Pairs,
    pub replicas: i32,
    pub selector: Pairs,
    pub pod_labels: Pairs,
    pub container: ContainerSpecView,
    pub volume: HostVolumeView,
}

impl View for WorkloadSpec {
    type V = WorkloadSpecView;

    open spec fn view(&self) -> WorkloadSpecView {
        WorkloadSpecView {
            name: self.name@,
            labels: self.labels@,
            replicas: self.replicas,
            selector: self.selector@,
            pod_labels: self.pod_labels@,
            container: self.container@,
            volume: self.volume@,
        }
    }
}

/// The service that exposes the workload of one strategy on one port.
#[derive(Debug, PartialEq, Eq)]
pub struct ExposureSpec {
    pub name: String,
    pub labels: LabelSet,
    pub selector: LabelSet,
    pub port: u16,
    pub target_port: u16,
}

/// The mathematical value of an [`ExposureSpec`].
pub struct ExposureSpecView {
    pub name: Seq<char>,
    pub labels: Pairs,
    pub selector: Pairs,
    pub port: u16,
    pub target_port: u16,
}

impl View for ExposureSpec {
    type V = ExposureSpecView;

    open spec fn view(&self) -> ExposureSpecView {
        ExposureSpecView {
            name: self.name@,
            labels: self.labels@,
            selector: self.selector@,
            port: self.port,
            target_port: self.target_port,
        }
    }
}

/// The resource requirements that a declared state asks for: requests and limits are
/// the same amounts, and there are none where the state names none.
pub open spec fn desired_resources(spec: TradingStrategySpecView) -> Option<
    ResourceRequirementsView,
> {
    match spec.resources {
        Some(r) => Some(ResourceRequirementsView { requests: amounts(r), limits: amounts(r) }),
        None => None,
    }
}

/// The container that should run for a declared state.
pub open spec fn desired_container(spec: TradingStrategySpecView) -> ContainerSpecView {
    ContainerSpecView {
        name: CONTAINER_NAME@,
        image: effective_image(spec),
        command: container_command(),
        args: container_args(spec.strategy_class),
        container_port: effective_port(spec),
        volume_mount: VolumeMountView {
            name: VOLUME_NAME@,
            mount_path: desired_workload_mount(),
            read_only: false,
        },
        resources: desired_resources(spec),
    }
}

/// The path at which every workload mounts its volume.
pub open spec fn desired_workload_mount() -> Seq<char> {
    DATA_DIR@
}

/// The workload that should exist for a declared state.
pub open spec fn desired_workload(spec: TradingStrategySpecView) -> WorkloadSpecView {
    WorkloadSpecView {
        name: spec.name,
        labels: owned_labels(spec.name),
        replicas: REPLICAS,
        selector: owned_labels(spec.name),
        pod_labels: owned_labels(spec.name),
        container: desired_container(spec),
        volume: HostVolumeView { name: VOLUME_NAME@, path: DATA_DIR@, kind: VOLUME_KIND@ },
    }
}

/// The service that should exist for a declared state.
pub open spec fn desired_exposure(spec: TradingStrategySpecView) -> ExposureSpecView {
    ExposureSpecView {
        name: spec.name,
        labels: owned_labels(spec.name),
        selector: app_selector(spec.name),
        port: effective_port(spec),
        target_port: effective_port(spec),
    }
}


/// The text `a` followed by `b`.
fn join(a: &str, b: &str) -> (res: String)
    ensures
        res@ == a@ + b@,
{
    let mut res = String::from_str(a);
    res.append(b);
    res
}

/// The text `a` followed by `b` and by `c`.
fn join3(a: &str, b: &str, c: &str) -> (res: String)
    ensures
        res@ == a@ + b@ + c@,
{
    let mut res = String::from_str(a);
    res.append(b);
    res.append(c);
    res
}

/// Builds the labels of everything derived from the strategy `name`.
pub fn build_owned_labels(name: &String) -> (labels: LabelSet)
    ensures
        labels@ == owned_labels(name@),
        labels.wf(),
{
    let mut labels = LabelSet::new();
    labels.insert(String::from_str(APP_LABEL), name.clone());
    labels.insert(String::from_str(OWNER_LABEL), String::from_str(CONTROLLER_ID));
    proof {
        lemma_owned_labels_distinct(name@);
        let first = Pairs::empty().push((APP_LABEL@, name@));
        assert(!has_key(Pairs::empty(), APP_LABEL@));
        assert(!has_key(first, OWNER_LABEL@)) by {
            if has_key(first, OWNER_LABEL@) {
                let i = key_index(first, OWNER_LABEL@);
                assert(first[i].0 == APP_LABEL@);
            }
        }
        assert(labels@ =~= owned_labels(name@));
    }
    labels
}

/// Builds the label by which the service finds the pods of the strategy `name`.
pub fn build_app_selector(name: &String) -> (selector: LabelSet)
    ensures
        selector@ == app_selector(name@),
        selector.wf(),
{
    let mut selector = LabelSet::new();
    selector.insert(String::from_str(APP_LABEL), name.clone());
    proof {
        assert(!has_key(Pairs::empty(), APP_LABEL@));
        assert(selector@ =~= app_selector(name@));
    }
    selector
}

/// The two label keys differ, so the derived labels never hold a key twice.
pub proof fn lemma_owned_labels_distinct(name: Seq<char>)
    ensures
        APP_LABEL@ != OWNER_LABEL@,
        distinct_keys(owned_labels(name)),
        distinct_keys(app_selector(name)),
{
    reveal_strlit("app");
    reveal_strlit("managed-by");
    assert(APP_LABEL@.len() != OWNER_LABEL@.len());
}

/// Builds the command line of a strategy of class `class`.
fn build_args(class: &String) -> (args: Vec<String>)
    ensures
        texts(args@) == container_args(class@),
        args@.len() == 10,
{
    let class_text = class.as_str();
    let logs = join3(DATA_DIR, "/logs/", class_text);
    let strategies = join3(DATA_DIR, "/strategies/", class_text);
    let store = join(logs.as_str(), "/trades.sqlite");
    let mut args: Vec<String> = Vec::new();
    args.push(String::from_str("--logfile"));
    args.push(join(logs.as_str(), "/freqtrade.log"));
    args.push(String::from_str("--db-url"));
    args.push(join("sqlite:///", store.as_str()));
    args.push(String::from_str("--config"));
    args.push(join(strategies.as_str(), "/config_dryrun.json"));
    args.push(String::from_str("--strategy"));
    args.push(class.clone());
    args.push(String::from_str("--strategy-path"));
    args.push(strategies);
    assert(texts(args@) =~= container_args(class@));
    args
}

/// The two resource names differ, so declared amounts never hold a name twice.
pub proof fn lemma_amounts_distinct(resources: ResourceConfigView)
    ensures
        CPU_RESOURCE@ != MEMORY_RESOURCE@,
        distinct_keys(amounts(resources)),
{
    reveal_strlit("cpu");
    reveal_strlit("memory");
    assert(CPU_RESOURCE@.len() != MEMORY_RESOURCE@.len());
}

/// Builds the declared amounts, by the name of the resource.
pub fn build_amounts(resources: &ResourceConfig) -> (res: ResourceAmounts)
    ensures
        res@ == amounts(resources@),
        res.wf(),
{
    let mut res = LabelSet::new();
    res.insert(String::from_str(CPU_RESOURCE), resources.cpu.clone());
    res.insert(String::from_str(MEMORY_RESOURCE), resources.memory.clone());
    proof {
        lemma_amounts_distinct(resources@);
        let first = Pairs::empty().push((CPU_RESOURCE@, resources.cpu@));
        assert(!has_key(Pairs::empty(), CPU_RESOURCE@));
        assert(!has_key(first, MEMORY_RESOURCE@)) by {
            if has_key(first, MEMORY_RESOURCE@) {
                let i = key_index(first, MEMORY_RESOURCE@);
                assert(first[i].0 == CPU_RESOURCE@);
            }
        }
        assert(res@ =~= amounts(resources@));
    }
    res
}

/// Builds the resource requirements that a declared state asks for.
fn build_resources(resources: &Option<ResourceConfig>) -> (res: Option<ResourceRequirements>)
    ensures
        requirements_opt(res) == match *resources {
            Some(r) => Some(
                ResourceRequirementsView { requests: amounts(r@), limits: amounts(r@) },
            ),
            None => None,
        },
        requirements_wf(res),
{
    match resources {
        Some(r) => Some(
            ResourceRequirements { requests: build_amounts(r), limits: build_amounts(r) },
        ),
        None => None,
    }
}

/// Builds the workload that should exist for `strategy`.
///
/// The result is a function of the declared state alone: its name and labels come from
/// `name`, the command line from `strategy_class`, image and port from the declared
/// values or their defaults, and requests and limits are both the declared amounts.
pub fn build_deployment(strategy: &TradingStrategySpec) -> (workload: WorkloadSpec)
    ensures
        workload@ == desired_workload(strategy@),
        workload.labels.wf(),
        workload.selector.wf(),
        workload.pod_labels.wf(),
        requirements_wf(workload.container.resources),
        workload.container.command@.len() == 2,
        workload.container.args@.len() == 10,
{
    let image = match &strategy.image {
        Some(image) => image.clone(),
        None => String::from_str(DEFAULT_IMAGE),
    };
    let container_port = match strategy.port {
        Some(port) => port,
        None => DEFAULT_PORT,
    };
    let mut command: Vec<String> = Vec::new();
    command.push(String::from_str("freqtrade"));
    command.push(String::from_str("trade"));
    assert(texts(command@) =~= container_command());
    let container = ContainerSpec {
        name: String::from_str(CONTAINER_NAME),
        image,
        command,
        args: build_args(&strategy.strategy_class),
        container_port,
        volume_mount: VolumeMount {
            name: String::from_str(VOLUME_NAME),
            mount_path: String::from_str(DATA_DIR),
            read_only: false,
        },
        resources: build_resources(&strategy.resources),
    };
    WorkloadSpec {
        name: strategy.name.clone(),
        labels: build_owned_labels(&strategy.name),
        replicas: REPLICAS,
        selector: build_owned_labels(&strategy.name),
        pod_labels: build_owned_labels(&strategy.name),
        container,
        volume: HostVolume {
            name: String::from_str(VOLUME_NAME),
            path: String::from_str(DATA_DIR),
            kind: String::from_str(VOLUME_KIND),
        },
    }
}

/// Builds the service that should exist for `strategy`: it carries the strategy's name
/// and labels, finds the pods by the strategy's name and exposes the workload's port
/// under the same number.
pub fn build_service(strategy: &TradingStrategySpec) -> (exposure: ExposureSpec)
    ensures
        exposure@ == desired_exposure(strategy@),
        exposure.labels.wf(),
        exposure.selector.wf(),
{
    let container_port = match strategy.port {
        Some(port) => port,
        None => DEFAULT_PORT,
    };
    ExposureSpec {
        name: strategy.name.clone(),
        labels: build_owned_labels(&strategy.name),
        selector: build_app_selector(&strategy.name),
        port: container_port,
        target_port: container_port,
    }
}

/// Builds both objects that should exist for `strategy`.
pub fn build(strategy: &TradingStrategySpec) -> (children: (WorkloadSpec, ExposureSpec))
    ensures
        children.0@ == desired_workload(strategy@),
        children.1@ == desired_exposure(strategy@),
        children.0.labels.wf(),
        children.0.selector.wf(),
        children.0.pod_labels.wf(),
        requirements_wf(children.0.container.resources),
        children.1.labels.wf(),
        children.1.selector.wf(),
{
    (build_deployment(strategy), build_service(strategy))
}

/// Building is a function of the declared state: two results for equal states are
/// equal, field by field and character by character.
pub proof fn lemma_build_deterministic(
    first: TradingStrategySpec,
    second: TradingStrategySpec,
    first_children: (WorkloadSpec, ExposureSpec),
    second_children: (WorkloadSpec, ExposureSpec),
)
    requires
        first@ == second@,
        first_children.0@ == desired_workload(first@),
        first_children.1@ == desired_exposure(first@),
        second_children.0@ == desired_workload(second@),
        second_children.1@ == desired_exposure(second@),
    ensures
        first_children.0@ == second_children.0@,
        first_children.1@ == second_children.1@,
{
}

/// A declared state that names no image and no port gets the default image and the
/// default port, in the container and in the service alike.
pub proof fn lemma_defaults(spec: TradingStrategySpecView)
    ensures
        spec.image is None ==> desired_workload(spec).container.image == DEFAULT_IMAGE@,
        spec.port is None ==> desired_workload(spec).container.container_port == 8080,
        spec.port is None ==> desired_exposure(spec).port == 8080,
        spec.port is None ==> desired_exposure(spec).target_port == 8080,
        spec.image is Some ==> desired_workload(spec).container.image == spec.image->0,
        spec.port is Some ==> desired_workload(spec).container.container_port == spec.port->0,
{
}

/// The service exposes the port on which the container listens, under the same number.
pub proof fn lemma_port_shared(spec: TradingStrategySpecView)
    ensures
        desired_exposure(spec).port == desired_workload(spec).container.container_port,
        desired_exposure(spec).target_port == desired_workload(spec).container.container_port,
{
}

/// Requests and limits of the container are both exactly the declared amounts, the
/// CPU amount under `cpu` and the memory amount under `memory`; a declared state
/// without amounts gives a container without requirements.
pub proof fn lemma_resource_tiers(spec: TradingStrategySpecView)
    ensures
        match spec.resources {
            Some(r) => {
                &&& desired_workload(spec).container.resources matches Some(req)
                &&& req.requests == req.limits
                &&& req.requests == amounts(r)
                &&& lookup(req.requests, CPU_RESOURCE@) == Some(r.cpu)
                &&& lookup(req.requests, MEMORY_RESOURCE@) == Some(r.memory)
                &&& lookup(req.limits, CPU_RESOURCE@) == Some(r.cpu)
                &&& lookup(req.limits, MEMORY_RESOURCE@) == Some(r.memory)
            },
            None => desired_workload(spec).container.resources is None,
        },
{
    if let Some(r) = spec.resources {
        lemma_amounts_distinct(r);
        lemma_key_index_unique(amounts(r), CPU_RESOURCE@, 0);
        lemma_key_index_unique(amounts(r), MEMORY_RESOURCE@, 1);
    }
}

/// Both children carry the strategy's name, the label `app` with that name and the
/// ownership label. The service selects by the label `app` alone, with exactly the
/// strategy's name, and so do the pods of the workload carry what both selectors ask.
pub proof fn lemma_naming(spec: TradingStrategySpecView)
    ensures
        desired_workload(spec).name == spec.name,
        desired_exposure(spec).name == spec.name,
        lookup(desired_workload(spec).labels, APP_LABEL@) == Some(spec.name),
        lookup(desired_exposure(spec).labels, APP_LABEL@) == Some(spec.name),
        lookup(desired_workload(spec).labels, OWNER_LABEL@) == Some(CONTROLLER_ID@),
        lookup(desired_exposure(spec).labels, OWNER_LABEL@) == Some(CONTROLLER_ID@),
        desired_exposure(spec).selector == seq![(APP_LABEL@, spec.name)],
        selects(desired_exposure(spec).selector, desired_workload(spec).pod_labels),
        selects(desired_workload(spec).selector, desired_workload(spec).pod_labels),
{
    lemma_owned_labels_distinct(spec.name);
    let owned = owned_labels(spec.name);
    let selector = app_selector(spec.name);
    lemma_key_index_unique(owned, APP_LABEL@, 0);
    lemma_key_index_unique(owned, OWNER_LABEL@, 1);
    lemma_key_index_unique(selector, APP_LABEL@, 0);
    assert forall|k: Seq<char>| #[trigger] has_key(selector, k) implies lookup(owned, k)
        == lookup(selector, k) by {
        let i = key_index(selector, k);
        assert(selector[i].0 == k);
        assert(k == APP_LABEL@);
    }
}

/// Every path handed to a strategy lies under the shared data directory, where the
/// volume is mounted.
pub proof fn lemma_paths_under_data_dir(class: Seq<char>)
    ensures
        DATA_DIR@.is_prefix_of(log_file(class)),
        DATA_DIR@.is_prefix_of(store_file(class)),
        DATA_DIR@.is_prefix_of(config_file(class)),
        DATA_DIR@.is_prefix_of(strategy_dir(class)),
        desired_workload_mount() == DATA_DIR@,
{
    let d = DATA_DIR@;
    assert(log_file(class) =~= d + ("/logs/"@ + class + "/freqtrade.log"@));
    assert(store_file(class) =~= d + ("/logs/"@ + class + "/trades.sqlite"@));
    assert(config_file(class) =~= d + ("/strategies/"@ + class + "/config_dryrun.json"@));
    assert(strategy_dir(class) =~= d + ("/strategies/"@ + class));
    assert forall|rest: Seq<char>| d.is_prefix_of(#[trigger] (d + rest)) by {
        assert((d + rest).subrange(0, d.len() as int) =~= d);
    }
}

} // verus!
