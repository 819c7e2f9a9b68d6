use std::sync::Arc;

use gantry_crane::args::{GantryCraneArgs, RunMode};
use gantry_crane::container::{
    BlkioStats, Container, ContainerConfig, ContainerInspect, ContainerStats, CpuStats, CpuUsage, MemoryStats,
};
use gantry_crane::events::{ContainerEventInfo, Event};
use gantry_crane::homeassistant::container::HomeAssistantContainer;
use gantry_crane::gantry_crane::{
    clean_action, clean_subscription_topic, docker_event_action, docker_name, is_container_enabled,
    mqtt_message_action, parse_request, ContainerRequest, DockerEvent, DockerEventAction, MqttMessageAction,
};
use gantry_crane::mqtt::MqttMessage;
use gantry_crane::polling::{PollState, PollWake};
use gantry_crane::registry::ContainerRegistry;
use gantry_crane::settings::Settings;

fn cpu() -> CpuStats {
    CpuStats { cpu_usage: CpuUsage { total_usage: 1, percpu_usage: None }, system_cpu_usage: None }
}

fn stats(name: &str) -> ContainerStats {
    ContainerStats {
        name: name.into(),
        cpu_stats: cpu(),
        precpu_stats: cpu(),
        memory_stats: MemoryStats { usage: None, limit: None, stats: None },
        networks: None,
        blkio_stats: BlkioStats { io_service_bytes_recursive: None },
    }
}

fn inspect(labels: Option<Vec<(&str, &str)>>) -> ContainerInspect {
    ContainerInspect {
        name: None,
        state: None,
        host_config: None,
        config: Some(ContainerConfig {
            labels: labels.map(|l| l.into_iter().map(|(k, v)| (k.to_string(), v.to_string())).collect()),
        }),
    }
}

fn container(settings: &Arc<Settings>, name: &str) -> Container {
    Container::new(settings.clone(), &stats(name), &inspect(None), None)
}

fn msg(topic: &str, payload: &str, retained: bool) -> MqttMessage {
    MqttMessage::new(topic.into(), payload.into(), retained, 0)
}

#[test]
fn registry_add_remove_rename() {
    let settings = Arc::new(Settings::default());
    let mut registry = ContainerRegistry::new();
    let event = registry.add_container(container(&settings, "/web"));
    assert_eq!(event, Event::ContainerCreated(ContainerEventInfo { name: "/web".into(), is_host_networking: false }));
    registry.add_container(container(&settings, "/db"));
    assert!(registry.contains("/web"));
    assert!(registry.contains("/db"));
    let mut names = registry.names();
    names.sort();
    assert_eq!(names, vec!["/db".to_string(), "/web".to_string()]);
    assert_eq!(registry.creation_events().len(), 2);

    let events = registry.rename_container("/web", "/www".into());
    assert_eq!(events.len(), 3);
    match &events[0] {
        Event::PublishMqttMessage(m) => {
            assert_eq!(m.topic, "gantry-crane/web");
            assert_eq!(m.payload, "");
        }
        _ => panic!("expected unpublish"),
    }
    assert_eq!(events[1], Event::ContainerRemoved(ContainerEventInfo { name: "/web".into(), is_host_networking: false }));
    assert_eq!(events[2], Event::ContainerCreated(ContainerEventInfo { name: "/www".into(), is_host_networking: false }));
    assert!(!registry.contains("/web"));
    assert_eq!(registry.get("/www").unwrap().name, "/www");

    assert!(registry.rename_container("/nothing", "/else".into()).is_empty());
    assert!(!registry.contains("/else"));

    let (removed, events) = registry.remove_container("/db").unwrap();
    assert_eq!(removed.name, "/db");
    assert_eq!(events.len(), 2);
    assert!(registry.remove_container("/db").is_none());
    assert_eq!(registry.names(), vec!["/www".to_string()]);
}

#[test]
fn registry_add_replaces_same_name() {
    let settings = Arc::new(Settings::default());
    let mut registry = ContainerRegistry::new();
    registry.add_container(container(&settings, "/web"));
    let mut second = container(&settings, "/web");
    second.image = "nginx".into();
    registry.add_container(second);
    assert_eq!(registry.names().len(), 1);
    assert_eq!(registry.get("/web").unwrap().image, "nginx");
}

#[test]
fn registry_update_container() {
    let settings = Arc::new(Settings::default());
    let mut registry = ContainerRegistry::new();
    registry.add_container(container(&settings, "/web"));
    let mut s = stats("/web");
    s.memory_stats.usage = Some(42);
    let updated = registry.update_container(&s, &inspect(None)).unwrap();
    assert_eq!(updated.mem_bytes, 42);
    assert_eq!(registry.get("/web").unwrap().mem_bytes, 42);
    assert!(registry.update_container(&stats("/other"), &inspect(None)).is_none());
}

#[test]
fn message_actions() {
    let settings = Arc::new(Settings::default());
    let mut registry = ContainerRegistry::new();
    registry.add_container(container(&settings, "/web"));

    // Other base topics are ignored
    assert!(matches!(mqtt_message_action(&settings, &registry, &msg("other/web", "", true)), MqttMessageAction::Ignore));
    // The base topic alone is ignored
    assert!(matches!(mqtt_message_action(&settings, &registry, &msg("gantry-crane", "", true)), MqttMessageAction::Ignore));
    // Retained topic of a known container is kept
    assert!(matches!(mqtt_message_action(&settings, &registry, &msg("gantry-crane/web", "{}", true)), MqttMessageAction::Ignore));
    // Retained topic of an unknown container is cleared
    match mqtt_message_action(&settings, &registry, &msg("gantry-crane/gone", "{}", true)) {
        MqttMessageAction::UnpublishStale(m) => {
            assert_eq!(m.topic, "gantry-crane/gone");
            assert_eq!(m.payload, "");
            assert!(m.retained);
            assert_eq!(m.qos, 1);
        }
        other => panic!("unexpected {:?}", other),
    }
    // Requests
    match mqtt_message_action(&settings, &registry, &msg("gantry-crane/web/set", "restart", false)) {
        MqttMessageAction::Request { container_name, docker_name, request } => {
            assert_eq!(container_name, "/web");
            assert_eq!(docker_name, "web");
            assert_eq!(request, ContainerRequest::Restart);
        }
        other => panic!("unexpected {:?}", other),
    }
    match mqtt_message_action(&settings, &registry, &msg("gantry-crane/web/set", "explode", false)) {
        MqttMessageAction::UnknownRequest { container_name, payload } => {
            assert_eq!(container_name, "/web");
            assert_eq!(payload, "explode");
        }
        other => panic!("unexpected {:?}", other),
    }
    match mqtt_message_action(&settings, &registry, &msg("gantry-crane/db/set", "start", false)) {
        MqttMessageAction::UnknownContainer(name) => assert_eq!(name, "/db"),
        other => panic!("unexpected {:?}", other),
    }
    // Retained requests and other subtopics are ignored
    assert!(matches!(mqtt_message_action(&settings, &registry, &msg("gantry-crane/web/set", "start", true)), MqttMessageAction::Ignore));
    assert!(matches!(mqtt_message_action(&settings, &registry, &msg("gantry-crane/web/get", "start", false)), MqttMessageAction::Ignore));
    assert!(matches!(mqtt_message_action(&settings, &registry, &msg("gantry-crane/web", "start", false)), MqttMessageAction::Ignore));
}

#[test]
fn request_payloads() {
    assert_eq!(parse_request("start"), Some(ContainerRequest::Start));
    assert_eq!(parse_request("stop"), Some(ContainerRequest::Stop));
    assert_eq!(parse_request("restart"), Some(ContainerRequest::Restart));
    assert_eq!(parse_request("pause"), Some(ContainerRequest::Pause));
    assert_eq!(parse_request("unpause"), Some(ContainerRequest::Unpause));
    assert_eq!(parse_request("recreate"), Some(ContainerRequest::Recreate));
    assert_eq!(parse_request("pull_recreate"), Some(ContainerRequest::PullRecreate));
    assert_eq!(parse_request("Start"), None);
}

fn event(is_container: bool, action: Option<&str>, name: Option<&str>, old_name: Option<&str>) -> DockerEvent {
    DockerEvent {
        is_container,
        action: action.map(|s| s.to_string()),
        name: name.map(|s| s.to_string()),
        image: Some("nginx:latest".into()),
        old_name: old_name.map(|s| s.to_string()),
    }
}

#[test]
fn docker_event_actions() {
    match docker_event_action(event(true, Some("create"), Some("web"), None)) {
        DockerEventAction::Create { container_name, image } => {
            assert_eq!(container_name, "/web");
            assert_eq!(image.as_deref(), Some("nginx:latest"));
        }
        other => panic!("unexpected {:?}", other),
    }
    match docker_event_action(event(true, Some("destroy"), Some("web"), None)) {
        DockerEventAction::Destroy(name) => assert_eq!(name, "/web"),
        other => panic!("unexpected {:?}", other),
    }
    match docker_event_action(event(true, Some("rename"), Some("www"), Some("/web"))) {
        DockerEventAction::Rename { old_name, new_name } => {
            assert_eq!(old_name, "/web");
            assert_eq!(new_name, "/www");
        }
        other => panic!("unexpected {:?}", other),
    }
    assert!(matches!(docker_event_action(event(true, Some("rename"), Some("www"), None)), DockerEventAction::Ignore));
    for action in ["start", "stop", "restart", "pause", "unpause"] {
        assert!(matches!(docker_event_action(event(true, Some(action), Some("web"), None)), DockerEventAction::ForcePoll));
    }
    assert!(matches!(docker_event_action(event(true, Some("exec_start"), Some("web"), None)), DockerEventAction::Ignore));
    assert!(matches!(docker_event_action(event(false, Some("create"), Some("web"), None)), DockerEventAction::Ignore));
    assert!(matches!(docker_event_action(event(true, Some("create"), None, None)), DockerEventAction::Ignore));
    assert!(matches!(docker_event_action(event(true, None, Some("web"), None)), DockerEventAction::Ignore));
}

#[test]
fn label_filter() {
    let mut settings = Settings::default();
    assert!(is_container_enabled(&settings, &inspect(None)));
    settings.filter_by_label = true;
    assert!(!is_container_enabled(&settings, &inspect(None)));
    assert!(!is_container_enabled(&settings, &inspect(Some(vec![("other", "true")]))));
    assert!(is_container_enabled(&settings, &inspect(Some(vec![("other", "x"), ("gantry-crane.enable", "true")]))));
    assert!(!is_container_enabled(&settings, &inspect(Some(vec![("gantry-crane.enable", "false")]))));
    let no_config = ContainerInspect { name: None, state: None, host_config: None, config: None };
    assert!(!is_container_enabled(&settings, &no_config));
}

#[test]
fn clean_up_clears_retained_topics_under_base() {
    let settings = Settings::default();
    assert_eq!(clean_subscription_topic(&settings), "gantry-crane/#");
    let cleared = clean_action(&settings, &msg("gantry-crane/web", "{}", true)).unwrap();
    assert_eq!(cleared.topic, "gantry-crane/web");
    assert_eq!(cleared.payload, "");
    assert!(cleared.retained);
    assert_eq!(cleared.qos, 1);
    assert!(clean_action(&settings, &msg("gantry-crane/web", "{}", false)).is_none());
    assert!(clean_action(&settings, &msg("gantry-cranes/web", "{}", true)).is_none());
    assert!(clean_action(&settings, &msg("gantry-crane", "{}", true)).is_none());
}

#[test]
fn docker_names_drop_leading_slash() {
    assert_eq!(docker_name("/web"), "web");
    assert_eq!(docker_name("web"), "web");
    assert_eq!(docker_name(""), "");
}

#[test]
fn polling_suspends_and_resumes() {
    let mut state = PollState::new();
    assert!(state.on_wake(PollWake::TimerElapsed));
    assert!(state.on_wake(PollWake::ForcePoll));
    assert!(!state.on_wake(PollWake::Other));
    assert!(!state.on_wake(PollWake::SuspendPolling));
    assert!(!state.on_wake(PollWake::TimerElapsed));
    assert!(!state.on_wake(PollWake::ForcePoll));
    assert!(state.on_wake(PollWake::ResumePolling));
    assert!(state.polling_active);
    assert!(state.on_wake(PollWake::TimerElapsed));
    assert_eq!(PollWake::from_event(&Event::SuspendPolling), PollWake::SuspendPolling);
    assert_eq!(PollWake::from_event(&Event::MqttConnected), PollWake::Other);
}

#[test]
fn run_modes_and_config_path() {
    let args = |clean: bool, config: Option<&str>, version: bool| GantryCraneArgs {
        clean,
        config: config.map(|c| c.to_string()),
        version,
    };
    assert_eq!(args(false, None, false).mode(), RunMode::Bridge);
    assert_eq!(args(true, None, false).mode(), RunMode::Clean);
    assert_eq!(args(true, None, true).mode(), RunMode::PrintVersion);
    assert_eq!(args(false, None, true).mode(), RunMode::PrintVersion);
    assert_eq!(args(false, None, false).config_path(), "gantry-crane.toml");
    assert_eq!(args(false, Some("/etc/gc.toml"), false).config_path(), "/etc/gc.toml");
}

#[test]
fn button_presses_are_requests() {
    let settings = Arc::new(Settings::default());
    let mut registry = ContainerRegistry::new();
    registry.add_container(container(&settings, "/my_container"));
    let info = ContainerEventInfo { name: "/my_container".into(), is_host_networking: false };
    let ha = HomeAssistantContainer::new(settings.clone(), &info, "node".into());
    let expected = [
        ContainerRequest::Start,
        ContainerRequest::Stop,
        ContainerRequest::Restart,
        ContainerRequest::Pause,
        ContainerRequest::Unpause,
        ContainerRequest::Recreate,
        ContainerRequest::PullRecreate,
    ];
    assert_eq!(ha.buttons.len(), expected.len());
    for (button, want) in ha.buttons.iter().zip(expected) {
        let press = msg(&button.command_topic, &button.payload_press, false);
        match mqtt_message_action(&settings, &registry, &press) {
            MqttMessageAction::Request { container_name, docker_name, request } => {
                assert_eq!(container_name, "/my_container");
                assert_eq!(docker_name, "my_container");
                assert_eq!(request, want);
            }
            other => panic!("unexpected action {:?}", other),
        }
    }
}

#[test]
fn base_topic_with_slash_controls_but_never_clears() {
    let mut s = Settings::default();
    s.mqtt.base_topic = "home/docker".into();
    let settings = Arc::new(s);
    let mut registry = ContainerRegistry::new();
    registry.add_container(container(&settings, "/web"));
    let info = ContainerEventInfo { name: "/web".into(), is_host_networking: false };
    let ha = HomeAssistantContainer::new(settings.clone(), &info, "node".into());
    let press = msg(&ha.buttons[0].command_topic, &ha.buttons[0].payload_press, false);
    assert_eq!(press.topic, "home/docker/web/set");
    match mqtt_message_action(&settings, &registry, &press) {
        MqttMessageAction::Request { container_name, docker_name, request } => {
            assert_eq!(container_name, "/web");
            assert_eq!(docker_name, "web");
            assert_eq!(request, ContainerRequest::Start);
        }
        other => panic!("unexpected action {:?}", other),
    }
    // Retained topics under such a base topic are not cleared
    assert!(matches!(mqtt_message_action(&settings, &registry, &msg("home/docker/gone", "{}", true)), MqttMessageAction::Ignore));
    assert!(matches!(mqtt_message_action(&settings, &registry, &msg("home/web/set", "start", false)), MqttMessageAction::Ignore));
    assert!(matches!(mqtt_message_action(&settings, &registry, &msg("home/docker", "{}", true)), MqttMessageAction::Ignore));
}

#[test]
fn control_and_stale_topics_of_a_container() {
    let settings = Arc::new(Settings::default());
    let mut registry = ContainerRegistry::new();
    let web = container(&settings, "/web");
    let topic = web.get_topic();
    registry.add_container(web);

    let set = format!("{}/set", topic);
    match mqtt_message_action(&settings, &registry, &msg(&set, "restart", false)) {
        MqttMessageAction::Request { container_name, docker_name, request } => {
            assert_eq!(container_name, "/web");
            assert_eq!(docker_name, "web");
            assert_eq!(request, ContainerRequest::Restart);
        }
        other => panic!("unexpected action {:?}", other),
    }
    match mqtt_message_action(&settings, &registry, &msg(&set, "explode", false)) {
        MqttMessageAction::UnknownRequest { container_name, payload } => {
            assert_eq!(container_name, "/web");
            assert_eq!(payload, "explode");
        }
        other => panic!("unexpected action {:?}", other),
    }

    // The retained topic of a known container stays, that of a gone one is cleared
    assert!(matches!(mqtt_message_action(&settings, &registry, &msg(&topic, "{}", true)), MqttMessageAction::Ignore));
    let gone = container(&settings, "/gone").get_topic();
    match mqtt_message_action(&settings, &registry, &msg(&gone, "{}", true)) {
        MqttMessageAction::UnpublishStale(m) => {
            assert_eq!(m.topic, "gantry-crane/gone");
            assert_eq!(m.payload, "");
            assert!(m.retained);
            assert_eq!(m.qos, 1);
        }
        other => panic!("unexpected action {:?}", other),
    }
}
