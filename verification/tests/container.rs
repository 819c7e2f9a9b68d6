use std::sync::Arc;

use gantry_crane::constants::UNKNOWN;
use gantry_crane::container::{
    BlkioStats, BlkioStatsEntry, Container, ContainerInspect, ContainerState, ContainerStats, CpuStats, CpuUsage,
    Health, HostConfig, MemoryStats, MemoryStatsStats, NetworkStats,
};
use gantry_crane::events::{ContainerEventInfo, Event};
use gantry_crane::settings::Settings;

// The published figures are derived from the exact counts kept by the container the
// same way the bridge serializes them: as floats rounded to two decimal places.
fn round(num: f64, decimal_places: u32) -> f64 {
    let mult = 10_u64.pow(decimal_places) as f64;
    (num * mult).round() / mult
}

fn cpu_percentage(c: &Container) -> f64 {
    match &c.cpu {
        Some(load) => round(
            (load.cpu_delta as f64 / load.system_delta as f64) * 100.0 * load.online_cpus as f64,
            2,
        ),
        None => 0.0,
    }
}

fn mem_mb(c: &Container) -> f64 {
    round(c.mem_bytes as f64 / 1_048_576.0, 2)
}

fn mem_percentage(c: &Container) -> f64 {
    match c.mem_limit {
        Some(limit) => round(c.mem_bytes as f64 / limit as f64 * 100.0, 2),
        None => 0.0,
    }
}

fn mib(bytes: u128) -> f64 {
    round(bytes as f64 / 1_048_576.0, 2)
}

fn cpu(total: u64) -> CpuStats {
    CpuStats { cpu_usage: CpuUsage { total_usage: total, percpu_usage: None }, system_cpu_usage: None }
}

fn get_stats(name: &str) -> ContainerStats {
    ContainerStats {
        name: name.into(),
        cpu_stats: cpu(1),
        precpu_stats: cpu(1),
        memory_stats: MemoryStats { usage: None, limit: None, stats: None },
        networks: None,
        blkio_stats: BlkioStats { io_service_bytes_recursive: None },
    }
}

fn inspect_named(name: Option<&str>) -> ContainerInspect {
    ContainerInspect { name: name.map(|n| n.to_string()), state: None, host_config: None, config: None }
}

fn entry(op: &str, value: u64) -> BlkioStatsEntry {
    BlkioStatsEntry { op: op.into(), value }
}

#[test]
fn test_new_container() {
    let name = "test_name";
    let image = "test-image";
    let settings = Arc::new(Settings::default());
    let stats = get_stats(name);
    let inspect = inspect_named(Some(name));

    let container = Container::new(settings, &stats, &inspect, Some(image.into()));

    assert_eq!(container.name, name);
    assert_eq!(container.image, image);
}

#[test]
fn test_new_container_no_image() {
    let name = "other_name";
    let settings = Arc::new(Settings::default());
    let stats = get_stats(name);
    let inspect = inspect_named(Some(name));

    let container = Container::new(settings, &stats, &inspect, None);

    assert_eq!(container.name, name);
    assert_eq!(container.image, UNKNOWN.to_owned());
}

#[test]
fn test_rename() {
    let name = "original_name";
    let settings = Arc::new(Settings::default());
    let stats = get_stats(name);
    let inspect = inspect_named(Some(name));

    let mut container = Container::new(settings, &stats, &inspect, None);
    assert_eq!(container.name, name);

    let new_name = "renamed_name";
    container.rename(new_name.into());
    assert_eq!(container.name, new_name);
}

#[test]
fn test_update() {
    let settings = Arc::new(Settings::default());
    let mut stats = get_stats("");
    let mut inspect = inspect_named(None);

    let mut container = Container::new(settings, &stats, &inspect, None);

    // Update state and health
    inspect.state = Some(ContainerState {
        status: Some("dead".into()),
        health: Some(Health { status: Some("unhealthy".into()) }),
    });

    // Update CPU
    stats.cpu_stats.cpu_usage.total_usage = 20;
    stats.cpu_stats.system_cpu_usage = Some(200);
    stats.precpu_stats.cpu_usage.total_usage = 10;
    stats.precpu_stats.system_cpu_usage = Some(100);
    stats.cpu_stats.cpu_usage.percpu_usage = Some(vec![0; 2]);

    // Update memory
    stats.memory_stats.usage = Some(100 * 1_048_576);
    stats.memory_stats.limit = Some(1000 * 1_048_576);

    // Update network I/O
    stats.networks = Some(vec![NetworkStats { rx_bytes: 5 * 1_048_576, tx_bytes: 10 * 1_048_576 }]);

    // Update block I/O
    stats.blkio_stats.io_service_bytes_recursive =
        Some(vec![entry("Write", 3 * 1_048_576), entry("Read", 10 * 1_048_576)]);

    container.update(&stats, &inspect);
    assert_eq!(container.state, "dead");
    assert_eq!(container.health, "unhealthy");
    assert_eq!(cpu_percentage(&container), 20.0);
    assert_eq!(mem_mb(&container), 100.0);
    assert_eq!(mem_percentage(&container), 10.0);
    assert_eq!(mib(container.net_rx_bytes), 5.0);
    assert_eq!(mib(container.net_tx_bytes), 10.0);
    assert_eq!(mib(container.block_rx_bytes), 10.0);
    assert_eq!(mib(container.block_tx_bytes), 3.0);
}

#[test]
fn update_with_foreign_stats_changes_nothing() {
    let settings = Arc::new(Settings::default());
    let mut stats = get_stats("/a");
    let inspect = inspect_named(Some("/a"));
    let mut container = Container::new(settings, &stats, &inspect, None);

    stats.name = "/b".into();
    stats.memory_stats.usage = Some(1_048_576);
    container.update(&stats, &inspect_named(Some("/b")));
    assert_eq!(container.mem_bytes, 0);

    stats.name = "/a".into();
    container.update(&stats, &inspect_named(Some("/b")));
    assert_eq!(container.mem_bytes, 0);

    container.update(&stats, &inspect_named(Some("/a")));
    assert_eq!(container.mem_bytes, 1_048_576);
}

#[test]
fn test_parse_state() {
    let settings = Arc::new(Settings::default());
    let stats = get_stats("");
    let mut inspect = inspect_named(None);
    let mut container = Container::new(settings, &stats, &inspect, None);

    assert_eq!(container.state, UNKNOWN);

    // Test no status
    inspect.state = Some(ContainerState { status: None, health: None });
    container.parse_state(&inspect);
    assert_eq!(container.state, UNKNOWN);

    // Test each status value; the empty status stands for none
    let values = ["", "created", "dead", "exited", "paused", "removing", "restarting", "running"];
    for val in values {
        inspect.state = Some(ContainerState { status: Some(val.into()), health: None });
        let expected = if val.is_empty() { UNKNOWN } else { val };
        container.parse_state(&inspect);
        assert_eq!(container.state, expected);
    }
}

#[test]
fn test_parse_health() {
    let settings = Arc::new(Settings::default());
    let stats = get_stats("");
    let mut inspect = inspect_named(None);
    let mut container = Container::new(settings, &stats, &inspect, None);

    assert_eq!(container.health, UNKNOWN);

    // Test no health
    inspect.state = Some(ContainerState { status: None, health: None });
    container.parse_health(&inspect);
    assert_eq!(container.health, UNKNOWN);

    // Test no health status
    inspect.state = Some(ContainerState { status: None, health: Some(Health { status: None }) });
    container.parse_health(&inspect);
    assert_eq!(container.health, UNKNOWN);

    // Test each health status
    let values = ["", "healthy", "none", "starting", "unhealthy"];
    for val in values {
        inspect.state = Some(ContainerState { status: None, health: Some(Health { status: Some(val.into()) }) });
        let expected = if val.is_empty() { UNKNOWN } else { val };
        container.parse_health(&inspect);
        assert_eq!(container.health, expected);
    }
}

#[test]
fn test_parse_cpu() {
    let settings = Arc::new(Settings::default());
    let mut stats = get_stats("");
    let inspect = inspect_named(None);
    let mut container = Container::new(settings, &stats, &inspect, None);

    stats.cpu_stats.cpu_usage.total_usage = 20;
    stats.cpu_stats.system_cpu_usage = Some(200);
    stats.precpu_stats.cpu_usage.total_usage = 10;
    stats.precpu_stats.system_cpu_usage = Some(100);
    container.parse_cpu(&stats);
    assert_eq!(cpu_percentage(&container), 0.0);

    stats.cpu_stats.cpu_usage.percpu_usage = Some(vec![0; 2]);
    container.parse_cpu(&stats);
    assert_eq!(cpu_percentage(&container), 20.0);

    stats.cpu_stats.cpu_usage.percpu_usage = Some(vec![0; 4]);
    container.parse_cpu(&stats);
    assert_eq!(cpu_percentage(&container), 40.0);

    stats.cpu_stats.cpu_usage.total_usage = 11;
    container.parse_cpu(&stats);
    assert_eq!(cpu_percentage(&container), 4.0);

    stats.cpu_stats.system_cpu_usage = Some(150);
    container.parse_cpu(&stats);
    assert_eq!(cpu_percentage(&container), 8.0);

    stats.cpu_stats.system_cpu_usage = None;
    container.parse_cpu(&stats);
    assert_eq!(cpu_percentage(&container), 0.0);
}

#[test]
fn cpu_load_keeps_the_exact_deltas() {
    let settings = Arc::new(Settings::default());
    let mut stats = get_stats("");
    let mut container = Container::new(settings, &stats, &inspect_named(None), None);
    stats.cpu_stats.cpu_usage.total_usage = 20;
    stats.cpu_stats.system_cpu_usage = Some(200);
    stats.precpu_stats.cpu_usage.total_usage = 10;
    stats.precpu_stats.system_cpu_usage = None;
    stats.cpu_stats.cpu_usage.percpu_usage = Some(vec![0; 3]);
    container.parse_cpu(&stats);
    let load = container.cpu.unwrap();
    assert_eq!((load.cpu_delta, load.system_delta, load.online_cpus), (10, 200, 3));

    // No growth of the container's CPU time means no load
    stats.precpu_stats.cpu_usage.total_usage = 20;
    container.parse_cpu(&stats);
    assert!(container.cpu.is_none());
}

#[test]
fn test_parse_mem() {
    let settings = Arc::new(Settings::default());
    let mut stats = get_stats("");
    let inspect = inspect_named(None);
    let mut container = Container::new(settings, &stats, &inspect, None);

    assert_eq!(mem_mb(&container), 0.0);
    assert_eq!(mem_percentage(&container), 0.0);

    stats.memory_stats.usage = Some(100 * 1_048_576);
    container.parse_mem(&stats);
    assert_eq!(mem_mb(&container), 100.0);
    assert_eq!(mem_percentage(&container), 0.0);

    stats.memory_stats.limit = Some(1000 * 1_048_576);
    container.parse_mem(&stats);
    assert_eq!(mem_mb(&container), 100.0);
    assert_eq!(mem_percentage(&container), 10.0);

    stats.memory_stats.stats = Some(MemoryStatsStats::V1 { total_inactive_file: 10 * 1_048_576 });
    container.parse_mem(&stats);
    assert_eq!(mem_mb(&container), 90.0);
    assert_eq!(mem_percentage(&container), 9.0);
}

#[test]
fn memory_without_usage_ignores_limit() {
    let settings = Arc::new(Settings::default());
    let mut stats = get_stats("");
    let mut container = Container::new(settings, &stats, &inspect_named(None), None);
    stats.memory_stats.limit = Some(1000);
    container.parse_mem(&stats);
    assert_eq!(container.mem_bytes, 0);
    assert_eq!(container.mem_limit, None);

    // cgroup v2 figures are not subtracted
    stats.memory_stats.usage = Some(500);
    stats.memory_stats.stats = Some(MemoryStatsStats::V2);
    container.parse_mem(&stats);
    assert_eq!(container.mem_bytes, 500);
    assert_eq!(container.mem_limit, Some(1000));

    // The inactive file cache may exceed the usage
    stats.memory_stats.stats = Some(MemoryStatsStats::V1 { total_inactive_file: 700 });
    container.parse_mem(&stats);
    assert_eq!(container.mem_bytes, -200);
}

#[test]
fn test_parse_network() {
    let settings = Arc::new(Settings::default());
    let mut stats = get_stats("");
    let inspect = inspect_named(None);
    let mut container = Container::new(settings, &stats, &inspect, None);

    assert_eq!(mib(container.net_rx_bytes), 0.0);
    assert_eq!(mib(container.net_tx_bytes), 0.0);

    stats.networks = Some(Vec::new());
    assert_eq!(mib(container.net_rx_bytes), 0.0);
    assert_eq!(mib(container.net_tx_bytes), 0.0);

    stats.networks.as_mut().unwrap().push(NetworkStats { rx_bytes: 5 * 1_048_576, tx_bytes: 10 * 1_048_576 });
    container.parse_network(&stats);
    assert_eq!(mib(container.net_rx_bytes), 5.0);
    assert_eq!(mib(container.net_tx_bytes), 10.0);

    stats.networks.as_mut().unwrap().push(NetworkStats { rx_bytes: 7 * 1_048_576, tx_bytes: 15 * 1_048_576 });
    stats.networks.as_mut().unwrap().push(NetworkStats { rx_bytes: 8 * 1_048_576, tx_bytes: 3 * 1_048_576 });
    container.parse_network(&stats);
    assert_eq!(mib(container.net_rx_bytes), 20.0);
    assert_eq!(mib(container.net_tx_bytes), 28.0);
}

#[test]
fn network_sums_do_not_overflow() {
    let settings = Arc::new(Settings::default());
    let mut stats = get_stats("");
    let mut container = Container::new(settings, &stats, &inspect_named(None), None);
    let big = || NetworkStats { rx_bytes: u64::MAX, tx_bytes: 1 };
    stats.networks = Some(vec![big(), big(), big()]);
    container.parse_network(&stats);
    assert_eq!(container.net_rx_bytes, 3 * (u64::MAX as u128));
    assert_eq!(container.net_tx_bytes, 3);
}

#[test]
fn test_parse_block_io() {
    let settings = Arc::new(Settings::default());
    let mut stats = get_stats("");
    let inspect = inspect_named(None);
    let mut container = Container::new(settings, &stats, &inspect, None);

    assert_eq!(mib(container.block_rx_bytes), 0.0);
    assert_eq!(mib(container.block_tx_bytes), 0.0);

    stats.blkio_stats.io_service_bytes_recursive = Some(Vec::new());
    container.parse_block_io(&stats);
    assert_eq!(mib(container.block_rx_bytes), 0.0);
    assert_eq!(mib(container.block_tx_bytes), 0.0);

    let entries = stats.blkio_stats.io_service_bytes_recursive.as_mut().unwrap();
    entries.insert(0, entry("Read", 10 * 1_048_576));
    entries.insert(0, entry("Write", 3 * 1_048_576));
    entries.insert(0, entry("Write", 4 * 1_048_576));
    entries.insert(0, entry("Read", 5 * 1_048_576));
    entries.insert(0, entry("Write", 3 * 1_048_576));
    container.parse_block_io(&stats);
    assert_eq!(mib(container.block_rx_bytes), 15.0);
    assert_eq!(mib(container.block_tx_bytes), 10.0);
}

#[test]
fn block_io_ignores_other_operations() {
    let settings = Arc::new(Settings::default());
    let mut stats = get_stats("");
    let mut container = Container::new(settings, &stats, &inspect_named(None), None);
    stats.blkio_stats.io_service_bytes_recursive =
        Some(vec![entry("READ", 1), entry("Sync", 100), entry("Total", 1000), entry("write", 2)]);
    container.parse_block_io(&stats);
    assert_eq!(container.block_rx_bytes, 1);
    assert_eq!(container.block_tx_bytes, 2);
}

#[test]
fn test_get_topic() {
    let name = "/test_name";
    let image = "test-image";
    let settings = Arc::new(Settings::default());
    let stats = get_stats(name);
    let inspect = inspect_named(Some(name));

    let container = Container::new(settings.clone(), &stats, &inspect, Some(image.into()));
    let topic = container.get_topic();
    assert_eq!(topic.matches('/').count(), 1);
    assert_eq!(topic.split('/').collect::<Vec<_>>(), [&settings.mqtt.base_topic, &name[1..]]);
}

#[test]
fn publish_and_unpublish_messages() {
    let settings = Arc::new(Settings::default());
    let stats = get_stats("/test_name");
    let container = Container::new(settings, &stats, &inspect_named(Some("/test_name")), Some("test-image".into()));

    let msg = container.publish("{\"name\":\"test_name\"}".into());
    assert_eq!(msg.topic, "gantry-crane/test_name");
    assert_eq!(msg.payload, "{\"name\":\"test_name\"}");
    assert!(msg.retained);
    assert_eq!(msg.qos, 0);

    let msg = container.unpublish();
    assert_eq!(msg.topic, "gantry-crane/test_name");
    assert_eq!(msg.payload, "");
    assert!(msg.retained);
    assert_eq!(msg.qos, 1);
}

#[test]
fn test_container_event_info() {
    let name = "Test Container";
    let settings = Arc::new(Settings::default());
    let stats = get_stats(name);
    let inspect = ContainerInspect {
        name: None,
        state: None,
        host_config: Some(HostConfig { network_mode: Some("host".into()), auto_remove: None }),
        config: None,
    };
    let container = Container::new(settings, &stats, &inspect, None);

    let event_info = ContainerEventInfo::from(&container);
    assert_eq!(event_info.name, container.get_name());
    assert_eq!(event_info.is_host_networking, true);

    let event_info = ContainerEventInfo::from(container);
    assert_eq!(event_info.name, name);
    assert_eq!(event_info.is_host_networking, true);
}

#[test]
fn bridge_networking_is_not_host_networking() {
    let settings = Arc::new(Settings::default());
    let stats = get_stats("/c");
    let inspect = ContainerInspect {
        name: None,
        state: None,
        host_config: Some(HostConfig { network_mode: Some("bridge".into()), auto_remove: None }),
        config: None,
    };
    let container = Container::new(settings, &stats, &inspect, None);
    assert!(!container.is_host_networking);
    let event = Event::ContainerCreated(ContainerEventInfo::from(&container));
    assert_eq!(event, Event::ContainerCreated(ContainerEventInfo { name: "/c".into(), is_host_networking: false }));
}
