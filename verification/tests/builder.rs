use trading_operator::desired::{
    build, build_amounts, build_deployment, build_service, ResourceRequirements, CONTROLLER_ID,
    CPU_RESOURCE, DATA_DIR, DEFAULT_IMAGE, DEFAULT_PORT, MEMORY_RESOURCE, REPLICAS,
};
use trading_operator::resource::{ResourceConfig, TradingStrategySpec, TradingStrategyStatus};

fn strategy(name: &str, class: &str) -> TradingStrategySpec {
    TradingStrategySpec {
        name: name.to_string(),
        strategy_class: class.to_string(),
        image: None,
        port: None,
        resources: None,
    }
}

#[test]
fn build_twice_gives_equal_children() {
    let mut spec = strategy("alpha", "Momentum");
    spec.image = Some("example/strategy:1.2".to_string());
    spec.port = Some(9001);
    spec.resources = Some(ResourceConfig { cpu: "1".to_string(), memory: "1Gi".to_string() });
    let first = build(&spec);
    let second = build(&spec);
    assert_eq!(first, second);
    assert_eq!(format!("{:?}", first), format!("{:?}", second));
    let copy = spec.clone();
    assert_eq!(copy, spec);
    assert_eq!(build(&copy), first);
}

#[test]
fn build_pairs_deployment_and_service() {
    let spec = strategy("alpha", "Momentum");
    let (workload, exposure) = build(&spec);
    assert_eq!(workload, build_deployment(&spec));
    assert_eq!(exposure, build_service(&spec));
}

#[test]
fn absent_image_and_port_take_the_defaults() {
    let spec = strategy("alpha", "Momentum");
    let workload = build_deployment(&spec);
    let exposure = build_service(&spec);
    assert_eq!(workload.container.image, "freqtradeorg/freqtrade:stable");
    assert_eq!(workload.container.container_port, 8080);
    assert_eq!(exposure.port, 8080);
    assert_eq!(exposure.target_port, 8080);
    assert_eq!(DEFAULT_IMAGE, "freqtradeorg/freqtrade:stable");
    assert_eq!(DEFAULT_PORT, 8080);
}

#[test]
fn declared_image_and_port_are_used() {
    let mut spec = strategy("beta", "Grid");
    spec.image = Some("registry.local/grid:7".to_string());
    spec.port = Some(9443);
    let workload = build_deployment(&spec);
    let exposure = build_service(&spec);
    assert_eq!(workload.container.image, "registry.local/grid:7");
    assert_eq!(workload.container.container_port, 9443);
    assert_eq!(exposure.port, 9443);
    assert_eq!(exposure.target_port, 9443);
}

#[test]
fn port_edges_are_kept() {
    let mut spec = strategy("edge", "Grid");
    spec.port = Some(0);
    assert_eq!(build_deployment(&spec).container.container_port, 0);
    assert_eq!(build_service(&spec).target_port, 0);
    spec.port = Some(65535);
    assert_eq!(build_deployment(&spec).container.container_port, 65535);
    assert_eq!(build_service(&spec).port, 65535);
}

#[test]
fn requests_and_limits_are_the_declared_amounts() {
    let mut spec = strategy("alpha", "Momentum");
    let declared = ResourceConfig { cpu: "500m".to_string(), memory: "256Mi".to_string() };
    spec.resources = Some(declared.clone());
    let workload = build_deployment(&spec);
    let expected = ResourceRequirements {
        requests: build_amounts(&declared),
        limits: build_amounts(&declared),
    };
    assert_eq!(workload.container.resources, Some(expected));
    let resources = workload.container.resources.unwrap();
    assert_eq!(resources.requests, resources.limits);
    assert_eq!(resources.requests.len(), 2);
    assert_eq!(resources.requests.get("cpu"), Some(&"500m".to_string()));
    assert_eq!(resources.requests.get("memory"), Some(&"256Mi".to_string()));
    assert_eq!(resources.limits.get("cpu"), Some(&"500m".to_string()));
    assert_eq!(resources.limits.get("memory"), Some(&"256Mi".to_string()));
}

#[test]
fn amounts_are_keyed_by_cpu_and_memory() {
    let amounts = build_amounts(&ResourceConfig { cpu: "2".to_string(), memory: "1Gi".to_string() });
    assert_eq!(amounts.len(), 2);
    assert_eq!(amounts.entry(0).key, "cpu");
    assert_eq!(amounts.entry(0).value, "2");
    assert_eq!(amounts.entry(1).key, "memory");
    assert_eq!(amounts.entry(1).value, "1Gi");
    assert_eq!(CPU_RESOURCE, "cpu");
    assert_eq!(MEMORY_RESOURCE, "memory");
}

#[test]
fn equal_cpu_and_memory_amounts_stay_apart() {
    let amounts = build_amounts(&ResourceConfig { cpu: "1".to_string(), memory: "1".to_string() });
    assert_eq!(amounts.len(), 2);
    assert_eq!(amounts.get("cpu"), Some(&"1".to_string()));
    assert_eq!(amounts.get("memory"), Some(&"1".to_string()));
}

#[test]
fn no_declared_amounts_no_requirements() {
    let workload = build_deployment(&strategy("alpha", "Momentum"));
    assert_eq!(workload.container.resources, None);
}

#[test]
fn children_are_named_and_labelled_after_the_strategy() {
    let spec = strategy("alpha", "Momentum");
    let (workload, exposure) = build(&spec);
    assert_eq!(workload.name, "alpha");
    assert_eq!(exposure.name, "alpha");
    assert_eq!(workload.labels.get("app"), Some(&"alpha".to_string()));
    assert_eq!(exposure.labels.get("app"), Some(&"alpha".to_string()));
    assert_eq!(workload.labels.get("managed-by"), Some(&"trading-operator".to_string()));
    assert_eq!(exposure.labels.get("managed-by"), Some(&"trading-operator".to_string()));
    assert_eq!(workload.labels.len(), 2);
    assert_eq!(exposure.labels.len(), 2);
    assert_eq!(CONTROLLER_ID, "trading-operator");
}

#[test]
fn service_selects_by_the_app_label_alone() {
    let spec = strategy("alpha", "Momentum");
    let (workload, exposure) = build(&spec);
    assert_eq!(exposure.selector.len(), 1);
    assert_eq!(exposure.selector.entry(0).key, "app");
    assert_eq!(exposure.selector.entry(0).value, "alpha");
    assert_eq!(workload.pod_labels.get("app"), exposure.selector.get("app"));
}

#[test]
fn workload_selector_and_pod_labels_agree() {
    let workload = build_deployment(&strategy("gamma", "Grid"));
    assert_eq!(workload.selector, workload.labels);
    assert_eq!(workload.pod_labels, workload.labels);
    assert_eq!(workload.labels.entry(0).key, "app");
    assert_eq!(workload.labels.entry(0).value, "gamma");
    assert_eq!(workload.labels.entry(1).key, "managed-by");
    assert_eq!(workload.labels.entry(1).value, "trading-operator");
}

#[test]
fn command_line_follows_the_strategy_class() {
    let workload = build_deployment(&strategy("alpha", "Momentum"));
    assert_eq!(workload.container.name, "freqtrade");
    assert_eq!(workload.container.command, vec!["freqtrade".to_string(), "trade".to_string()]);
    let expected: Vec<String> = vec![
        "--logfile".to_string(),
        "/freqtrade/user_data/logs/Momentum/freqtrade.log".to_string(),
        "--db-url".to_string(),
        "sqlite:////freqtrade/user_data/logs/Momentum/trades.sqlite".to_string(),
        "--config".to_string(),
        "/freqtrade/user_data/strategies/Momentum/config_dryrun.json".to_string(),
        "--strategy".to_string(),
        "Momentum".to_string(),
        "--strategy-path".to_string(),
        "/freqtrade/user_data/strategies/Momentum".to_string(),
    ];
    assert_eq!(workload.container.args, expected);
}

#[test]
fn strategy_class_is_substituted_as_it_is() {
    let workload = build_deployment(&strategy("alpha", "../odd name/é"));
    assert_eq!(workload.container.args[1], "/freqtrade/user_data/logs/../odd name/é/freqtrade.log");
    assert_eq!(workload.container.args[7], "../odd name/é");
    assert_eq!(workload.container.args[9], "/freqtrade/user_data/strategies/../odd name/é");
}

#[test]
fn empty_strategy_class_leaves_the_templates() {
    let workload = build_deployment(&strategy("", ""));
    assert_eq!(workload.name, "");
    assert_eq!(workload.container.args[1], "/freqtrade/user_data/logs//freqtrade.log");
    assert_eq!(workload.container.args[3], "sqlite:////freqtrade/user_data/logs//trades.sqlite");
    assert_eq!(workload.container.args[5], "/freqtrade/user_data/strategies//config_dryrun.json");
    assert_eq!(workload.container.args[7], "");
    assert_eq!(workload.container.args[9], "/freqtrade/user_data/strategies/");
}

#[test]
fn every_path_lies_under_the_mounted_directory() {
    let workload = build_deployment(&strategy("alpha", "Momentum"));
    let mount = &workload.container.volume_mount;
    assert_eq!(mount.mount_path, "/freqtrade/user_data");
    assert_eq!(DATA_DIR, "/freqtrade/user_data");
    for index in [1usize, 5, 9] {
        assert!(workload.container.args[index].starts_with(mount.mount_path.as_str()));
    }
    assert!(workload.container.args[3].starts_with("sqlite:///"));
    assert!(workload.container.args[3]["sqlite:///".len()..].starts_with(mount.mount_path.as_str()));
}

#[test]
fn one_replica_one_volume_one_mount() {
    let workload = build_deployment(&strategy("alpha", "Momentum"));
    assert_eq!(workload.replicas, 1);
    assert_eq!(REPLICAS, 1);
    assert_eq!(workload.volume.name, "user-data");
    assert_eq!(workload.volume.path, "/freqtrade/user_data");
    assert_eq!(workload.volume.kind, "Directory");
    assert_eq!(workload.container.volume_mount.name, "user-data");
    assert!(!workload.container.volume_mount.read_only);
}

#[test]
fn defaults_of_the_resource_types_are_empty() {
    let spec = TradingStrategySpec::default();
    assert_eq!(spec, strategy("", ""));
    let config = ResourceConfig::default();
    assert_eq!(config, ResourceConfig { cpu: String::new(), memory: String::new() });
    let status = TradingStrategyStatus::default();
    assert_eq!(status.phase, "");
    assert_eq!(status.message, None);
    assert_eq!(status.last_updated, None);
    assert_eq!(status.clone(), status);
}
