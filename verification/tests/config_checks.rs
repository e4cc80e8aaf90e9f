//! Configuration loading, validation and resolution, exercised through
//! the real YAML parser.

use stratum_service::config::{
    normalize_port, resolve_bridge_config, ConfigError, GlobalConfig, InstanceConfig,
    ServiceConfig,
};
use stratum_service::service::{first_failure, is_primary_instance, StratumService};

#[test]
fn global_defaults_match_documentation() {
    let g = GlobalConfig::default();
    assert_eq!(g.kaspad_address.as_str(), "localhost:16110");
    assert_eq!(g.block_wait_time_ms, 1000);
    assert!(g.print_stats);
    assert!(g.log_to_file);
    assert_eq!(g.health_check_port.as_str(), "");
    assert!(g.var_diff);
    assert_eq!(g.shares_per_min, 20);
    assert!(!g.var_diff_stats);
    assert_eq!(g.extranonce_size, 0);
    assert!(!g.pow2_clamp);
}

#[test]
fn instance_defaults_match_documentation() {
    let i = InstanceConfig::default();
    assert_eq!(i.stratum_port.as_str(), ":5555");
    assert_eq!(i.min_share_diff, 8192);
    assert!(i.prom_port.is_none());
    assert!(i.log_to_file.is_none());
    assert!(i.var_diff.is_none());
    assert!(i.shares_per_min.is_none());
    assert!(i.var_diff_stats.is_none());
    assert!(i.pow2_clamp.is_none());
}

#[test]
fn duplicate_stratum_ports_fail_validation() {
    let yaml = "instances:\n  - stratum_port: \"5555\"\n    min_share_diff: 1024\n  - stratum_port: \"5555\"\n    min_share_diff: 2048\n";
    let r = ServiceConfig::from_yaml(yaml);
    assert_eq!(r.err(), Some(ConfigError::DuplicateStratumPort(1)));
}

#[test]
fn duplicate_detection_sees_through_normalization() {
    // ":7777" and "7777" are the same listener address
    let yaml = "instances:\n  - stratum_port: \":7777\"\n    min_share_diff: 1024\n  - stratum_port: \"7777\"\n    min_share_diff: 2048\n";
    let r = ServiceConfig::from_yaml(yaml);
    assert_eq!(r.err(), Some(ConfigError::DuplicateStratumPort(1)));
}

#[test]
fn empty_instances_list_is_rejected() {
    let yaml = "instances: []\n";
    let r = ServiceConfig::from_yaml(yaml);
    assert_eq!(r.err(), Some(ConfigError::EmptyInstances));
}

#[test]
fn missing_required_fields_are_reported_in_order() {
    let yaml = "instances:\n  - min_share_diff: 1024\n";
    assert_eq!(ServiceConfig::from_yaml(yaml).err(), Some(ConfigError::MissingStratumPort(0)));
    let yaml2 = "instances:\n  - stratum_port: \"5555\"\n";
    assert_eq!(ServiceConfig::from_yaml(yaml2).err(), Some(ConfigError::MissingMinShareDiff(0)));
}

#[test]
fn invalid_yaml_is_rejected() {
    let r = ServiceConfig::from_yaml("instances: [unclosed");
    assert_eq!(r.err(), Some(ConfigError::InvalidYaml));
}

#[test]
fn explicit_instances_are_resolved_and_normalized() {
    let yaml = "kaspad_address: node:16110\nshares_per_min: 40\npow2_clamp: true\ninstances:\n  - stratum_port: \"6666\"\n    min_share_diff: 64\n    var_diff: false\n  - stratum_port: \":7777\"\n    min_share_diff: 128\n";
    let c = ServiceConfig::from_yaml(yaml).expect("valid configuration");
    assert_eq!(c.global.kaspad_address.as_str(), "node:16110");
    assert_eq!(c.global.shares_per_min, 40);
    assert!(c.global.pow2_clamp);
    assert_eq!(c.instances.len(), 2);
    assert_eq!(c.instances[0].stratum_port.as_str(), ":6666");
    assert_eq!(c.instances[0].min_share_diff, 64);
    assert_eq!(c.instances[0].var_diff, Some(false));
    assert_eq!(c.instances[1].stratum_port.as_str(), ":7777");
    assert_eq!(c.instances[1].min_share_diff, 128);
}

#[test]
fn single_instance_document_uses_top_level_fields() {
    let yaml = "log_to_file: false\nstratum_port: \"9999\"\nmin_share_diff: 256\n";
    let c = ServiceConfig::from_yaml(yaml).expect("valid configuration");
    assert_eq!(c.instances.len(), 1);
    assert_eq!(c.instances[0].stratum_port.as_str(), ":9999");
    assert_eq!(c.instances[0].min_share_diff, 256);
    assert_eq!(
        c.instances[0].log_to_file,
        Some(false),
        "the single instance records the global log choice"
    );
}

#[test]
fn single_instance_document_falls_back_to_defaults() {
    let c = ServiceConfig::from_yaml("print_stats: false\n").expect("valid configuration");
    assert!(!c.global.print_stats);
    assert_eq!(c.instances.len(), 1);
    assert_eq!(c.instances[0].stratum_port.as_str(), ":5555");
    assert_eq!(c.instances[0].min_share_diff, 8192);
}

#[test]
fn block_wait_time_accepts_integer_and_float() {
    let c = ServiceConfig::from_yaml("block_wait_time: 2000\nstratum_port: \"5555\"\n")
        .expect("valid configuration");
    assert_eq!(c.global.block_wait_time_ms, 2000);

    // a float value counts by its integer prefix, in milliseconds
    let c2 = ServiceConfig::from_yaml("block_wait_time: 1500.5\nstratum_port: \"5555\"\n")
        .expect("valid configuration");
    assert_eq!(c2.global.block_wait_time_ms, 1500);

    // a negative float clamps to zero
    let c3 = ServiceConfig::from_yaml("block_wait_time: -3.5\nstratum_port: \"5555\"\n")
        .expect("valid configuration");
    assert_eq!(c3.global.block_wait_time_ms, 0);
}

#[test]
fn prom_ports_are_normalized_too() {
    let yaml = "instances:\n  - stratum_port: \"6666\"\n    min_share_diff: 64\n    prom_port: \"9090\"\n";
    let c = ServiceConfig::from_yaml(yaml).expect("valid configuration");
    assert_eq!(c.instances[0].prom_port.as_deref(), Some(":9090"));

    let c2 = ServiceConfig::from_yaml("stratum_port: \"7777\"\nprom_port: \":9191\"\n")
        .expect("valid configuration");
    assert_eq!(c2.instances[0].prom_port.as_deref(), Some(":9191"));
}

#[test]
fn port_normalization_prefixes_the_colon() {
    assert_eq!(normalize_port("5555").as_str(), ":5555");
    assert_eq!(normalize_port(":6666").as_str(), ":6666");
    assert_eq!(normalize_port("").as_str(), ":");
}

#[test]
fn bridge_config_resolution_prefers_instance_overrides() {
    let mut g = GlobalConfig::default();
    g.var_diff = true;
    g.shares_per_min = 20;
    g.pow2_clamp = false;
    let mut i = InstanceConfig::default();
    i.min_share_diff = 777;
    i.var_diff = Some(false);
    i.shares_per_min = None;
    i.pow2_clamp = Some(true);
    let b = resolve_bridge_config(&g, &i);
    assert_eq!(b.min_share_diff, 777);
    assert!(!b.var_diff, "instance override wins");
    assert_eq!(b.shares_per_min, 20, "global value where no override is set");
    assert!(b.pow2_clamp, "instance override wins");
    assert_eq!(b.kaspad_address.as_str(), "localhost:16110");
    assert_eq!(b.block_wait_time_ms, 1000);
}

#[test]
fn service_wraps_config_and_decides_logging() {
    let c = ServiceConfig::from_yaml("log_to_file: false\nstratum_port: \"5555\"\n")
        .expect("valid configuration");
    let service = StratumService::new(c);
    assert!(
        !service.should_log_to_file(),
        "global off and the single instance inherited the global choice"
    );

    let yaml = "log_to_file: false\ninstances:\n  - stratum_port: \"5555\"\n    min_share_diff: 1\n    log_to_file: true\n";
    let service2 = StratumService::new(ServiceConfig::from_yaml(yaml).expect("valid"));
    assert!(service2.should_log_to_file(), "first instance's override turns logging on");
}

#[test]
fn coordinator_policy_primary_and_fail_fast() {
    assert!(is_primary_instance(0));
    assert!(!is_primary_instance(1));
    assert_eq!(first_failure(&vec![true, true]), None);
    assert_eq!(first_failure(&vec![true, false, false]), Some(1));
    assert_eq!(first_failure(&vec![]), None);
}
