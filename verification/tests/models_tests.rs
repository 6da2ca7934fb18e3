use std::collections::HashMap;

use async_docker::models::{
    DistributionInspectResponsePlatforms, Driver, EngineDescription, EngineDescriptionPlugins,
    ExecInspectResponse, ProcessConfig, SecretSpec, SwarmSpecEncryptionConfig, SwarmSpecRaft,
};
use async_docker::rep::{
    BlkioStat, ContainerPathStat, CpuUsage, Event, Port, Status, ThrottlingData,
};

#[test]
fn platforms_accessors() {
    let mut p = DistributionInspectResponsePlatforms::new();
    assert!(p.architecture().is_none());
    p.set_architecture("amd64".to_string());
    assert_eq!(p.architecture().unwrap().as_str(), "amd64");
    p.reset_architecture();
    assert!(p.architecture().is_none());

    let with_os = DistributionInspectResponsePlatforms::new().with_OS("linux".to_string());
    assert_eq!(with_os.OS().unwrap().as_str(), "linux");
    assert!(with_os.os_version().is_none());

    let feats = vec!["sse4".to_string(), "avx2".to_string()];
    let q = DistributionInspectResponsePlatforms::new().with_features(feats.clone());
    assert_eq!(q.features().unwrap(), &feats);
}

#[test]
fn engine_description_accessors() {
    let mut e = EngineDescription::new();
    e.set_engine_version("19.03".to_string());
    assert_eq!(e.engine_version().unwrap().as_str(), "19.03");

    let mut labels = HashMap::new();
    labels.insert("provider".to_string(), "test".to_string());
    let e = e.with_labels(labels.clone());
    assert_eq!(e.labels().unwrap(), &labels);

    let plugins = vec![EngineDescriptionPlugins {
        plugin_type: Some("Volume".to_string()),
        name: Some("local".to_string()),
    }];
    let mut e = e.with_plugins(plugins.clone());
    assert_eq!(e.plugins().unwrap(), &plugins);
    e.reset_plugins();
    assert!(e.plugins().is_none());
    assert_eq!(e.engine_version().unwrap().as_str(), "19.03");
}

#[test]
fn exec_inspect_response_accessors() {
    let mut r = ExecInspectResponse::new();
    assert!(r.can_remove().is_none());
    assert!(r.pid().is_none());

    r.set_can_remove(true);
    r.set_running(false);
    r.set_exit_code(137);
    r.set_pid(4242);
    r.set_ID("deadbeef".to_string());
    r.set_container_id("cafe".to_string());
    assert_eq!(r.can_remove().unwrap(), &true);
    assert_eq!(r.running().unwrap(), &false);
    assert_eq!(r.exit_code().unwrap(), &137);
    assert_eq!(r.pid().unwrap(), &4242);
    assert_eq!(r.ID().unwrap().as_str(), "deadbeef");
    assert_eq!(r.container_id().unwrap().as_str(), "cafe");

    let pc = ProcessConfig {
        privileged: Some(false),
        user: Some("root".to_string()),
        tty: Some(true),
        entrypoint: Some("/bin/sh".to_string()),
        arguments: Some(vec!["-c".to_string(), "true".to_string()]),
    };
    let r = r.with_process_config(pc.clone());
    assert_eq!(r.process_config().unwrap(), &pc);

    let mut r = r.with_open_stdin(true).with_open_stdout(true).with_open_stderr(false);
    assert_eq!(r.open_stdin().unwrap(), &true);
    assert_eq!(r.open_stdout().unwrap(), &true);
    assert_eq!(r.open_stderr().unwrap(), &false);
    r.reset_exit_code();
    assert!(r.exit_code().is_none());
    assert_eq!(r.pid().unwrap(), &4242);

    let mut r = r.with_detach_keys("ctrl-p".to_string());
    assert_eq!(r.detach_keys().unwrap().as_str(), "ctrl-p");
    r.reset_detach_keys();
    r.reset_ID();
    r.reset_running();
    r.reset_can_remove();
    r.reset_container_id();
    r.reset_pid();
    r.reset_open_stdin();
    r.reset_open_stdout();
    r.reset_open_stderr();
    r.reset_process_config();
    assert_eq!(r, ExecInspectResponse::new());
}

#[test]
fn secret_spec_accessors() {
    let driver = Driver { name: "vault".to_string(), options: None };
    let mut s = SecretSpec::new()
        .with_name("db-password".to_string())
        .with_data("aGlkZGVu".to_string())
        .with_driver(driver.clone())
        .with_templating(driver.clone());
    assert_eq!(s.name().unwrap().as_str(), "db-password");
    assert_eq!(s.data().unwrap().as_str(), "aGlkZGVu");
    assert_eq!(s.driver().unwrap(), &driver);
    assert_eq!(s.templating().unwrap(), &driver);

    let mut labels = HashMap::new();
    labels.insert("env".to_string(), "prod".to_string());
    s.set_labels(labels.clone());
    assert_eq!(s.labels().unwrap(), &labels);
    s.reset_name();
    s.reset_data();
    s.reset_labels();
    s.reset_driver();
    s.reset_templating();
    assert_eq!(s, SecretSpec::new());
}

#[test]
fn swarm_spec_accessors() {
    let mut c = SwarmSpecEncryptionConfig::new();
    assert!(c.auto_lock_managers().is_none());
    c.set_auto_lock_managers(true);
    assert_eq!(c.auto_lock_managers().unwrap(), &true);
    c.reset_auto_lock_managers();
    assert!(c.auto_lock_managers().is_none());

    let mut r = SwarmSpecRaft::new()
        .with_snapshot_interval(10000)
        .with_keep_old_snapshots(0)
        .with_log_entries_for_slow_followers(500)
        .with_election_tick(10)
        .with_heartbeat_tick(1);
    assert_eq!(r.snapshot_interval().unwrap(), &10000);
    assert_eq!(r.keep_old_snapshots().unwrap(), &0);
    assert_eq!(r.log_entries_for_slow_followers().unwrap(), &500);
    assert_eq!(r.election_tick().unwrap(), &10);
    assert_eq!(r.heartbeat_tick().unwrap(), &1);
    r.set_election_tick(20);
    assert_eq!(r.election_tick().unwrap(), &20);
    assert_eq!(r.heartbeat_tick().unwrap(), &1);
}

#[test]
fn representation_values_hold_their_fields() {
    let port = Port {
        IP: Some("0.0.0.0".to_string()),
        PrivatePort: 80,
        PublicPort: Some(8080),
        Type: "tcp".to_string(),
    };
    assert_eq!(port.PrivatePort, 80);
    assert_eq!(port.PublicPort, Some(8080));

    let usage = CpuUsage {
        percpu_usage: vec![1, 2, 3],
        usage_in_usermode: 10,
        total_usage: 30,
        usage_in_kernelmode: 20,
    };
    assert_eq!(usage.percpu_usage.len(), 3);

    let throttling = ThrottlingData { periods: 5, throttled_periods: 1, throttled_time: 100 };
    assert_eq!(throttling.throttled_periods, 1);

    let stat = BlkioStat { major: 8, minor: 0, op: "Read".to_string(), value: 4096 };
    assert_eq!(stat.value, 4096);

    let event = Event {
        status: Some("start".to_string()),
        id: Some("abc".to_string()),
        from: None,
        time: 1_600_000_000,
        timeNano: 1_600_000_000_000_000_000,
    };
    assert_eq!(event.status.as_deref(), Some("start"));

    let untagged = Status::Untagged("repo:tag".to_string());
    let deleted = Status::Deleted("sha256:123".to_string());
    assert!(matches!(untagged, Status::Untagged(ref s) if s == "repo:tag"));
    assert!(matches!(deleted, Status::Deleted(ref s) if s == "sha256:123"));
}

#[test]
fn normalize_mode_splits_directory_bit() {
    let mut stat = ContainerPathStat {
        name: "etc".to_string(),
        size: 4096,
        mode: 0x8000_01ed,
        is_dir: false,
        mtime: "2020-01-01T00:00:00Z".to_string(),
        link_target: String::new(),
    };
    stat.normalize_mode();
    assert!(stat.is_dir);
    assert_eq!(stat.mode, 0o755);

    let mut file_stat = ContainerPathStat {
        name: "hosts".to_string(),
        size: 120,
        mode: 0o644,
        is_dir: true,
        mtime: "2020-01-01T00:00:00Z".to_string(),
        link_target: String::new(),
    };
    file_stat.normalize_mode();
    assert!(!file_stat.is_dir);
    assert_eq!(file_stat.mode, 0o644);
}
