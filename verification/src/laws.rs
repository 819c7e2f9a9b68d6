//! Properties of the library that relate several of its functions.

use vstd::prelude::*;

use crate::container::{Container, ContainerInspect};
use crate::homeassistant::container::{
    button_templates, expected_button, expected_sensor, sensor_templates, HomeAssistantContainer,
};
use crate::homeassistant::device::device_identifier;
use crate::homeassistant::{discovery_topic_container, HomeAssistantIntegration};
use crate::events::ContainerEventInfo;
use crate::mqtt::{availability_topic_of, MqttMessage, TopicTracker};
use crate::registry::ContainerRegistry;
use crate::recreate::{filtered_list, keep_not_in};
use crate::text::views;
use crate::settings::Settings;
use crate::constants::{SET_STATE_TOPIC, STATE_OFFLINE, STATE_ONLINE};
use crate::gantry_crane::{
    docker_event_action_holds, is_enabled, label_value, message_action_holds, request_of, DockerEvent, DockerEventAction, MqttMessageAction,
};
use crate::text::{before_first, contains_seq, has_prefix, lemma_split_concat, lemma_split_without_sep, split};

verus! {

/// A container's device has 10 sensors and 7 buttons, or 8 sensors when the container
/// uses the host's network: 17 or 15 discovery topics.
pub proof fn entity_counts(c: HomeAssistantContainer)
    requires
        c.has_entities(),
    ensures
        c.sensors@.len() == (if c.is_host_networking { 8int } else { 10int }),
        c.buttons@.len() == 7,
        c.entity_topics().len() == (if c.is_host_networking { 15int } else { 17int }),
{
    assert(c.sensor_views().len() == c.sensors@.len());
    assert(c.button_views().len() == c.buttons@.len());
    assert(sensor_templates(c.is_host_networking).len() == (if c.is_host_networking { 8int } else { 10int }));
    assert(button_templates().len() == 7);
}

/// Withdrawing a device clears exactly the discovery topics its announcement
/// published on, in the same order.
pub proof fn withdrawal_clears_announced_topics(
    c: HomeAssistantContainer,
    payloads: Seq<String>,
    announced: Seq<MqttMessage>,
    withdrawn: Seq<MqttMessage>,
)
    requires
        announced.len() == c.entity_topics().len(),
        forall|i: int| 0 <= i < announced.len() ==> (#[trigger] announced[i]).is(c.entity_topics()[i], payloads[i]@, true, 1),
        withdrawn.len() == c.entity_topics().len(),
        forall|i: int| 0 <= i < withdrawn.len() ==> (#[trigger] withdrawn[i]).is(c.entity_topics()[i], Seq::empty(), true, 1),
    ensures
        announced.len() == withdrawn.len(),
        forall|i: int| 0 <= i < announced.len() ==> (#[trigger] announced[i]).topic@ == withdrawn[i].topic@,
        forall|i: int| 0 <= i < withdrawn.len() ==> (#[trigger] withdrawn[i]).payload@.len() == 0,
        forall|i: int| 0 <= i < withdrawn.len() ==> (#[trigger] withdrawn[i]).retained,
{
    assert forall|i: int| 0 <= i < announced.len() implies (#[trigger] announced[i]).topic@ == withdrawn[i].topic@ by {
        assert(announced[i].is(c.entity_topics()[i], payloads[i]@, true, 1));
        assert(withdrawn[i].is(c.entity_topics()[i], Seq::empty(), true, 1));
    }
    assert forall|i: int| 0 <= i < withdrawn.len() implies (#[trigger] withdrawn[i]).payload@.len() == 0 by {
        assert(withdrawn[i].is(c.entity_topics()[i], Seq::empty(), true, 1));
    }
}

/// The sensors of a container's device read the topic the container's figures are
/// published on, and its buttons send requests to that topic's `set` subtopic.
pub proof fn entities_follow_the_container_topic(c: Container, ha: HomeAssistantContainer)
    requires
        ha.has_entities(),
        ha.settings == c.settings,
        ha.device.name@ == c.topic_name(),
    ensures
        forall|i: int| 0 <= i < ha.sensors@.len() ==> (#[trigger] ha.sensors@[i]).state_topic@ == c.topic_of(),
        forall|i: int| 0 <= i < ha.buttons@.len() ==> (#[trigger] ha.buttons@[i]).command_topic@ == c.topic_of() + "/"@
            + SET_STATE_TOPIC@,
{
    let base = ha.settings.mqtt.base_topic@;
    let dev = (*ha.device)@;
    let st = sensor_templates(ha.is_host_networking);
    let bt = button_templates();
    assert(ha.sensor_views().len() == ha.sensors@.len());
    assert(ha.button_views().len() == ha.buttons@.len());
    assert forall|i: int| 0 <= i < ha.sensors@.len() implies (#[trigger] ha.sensors@[i]).state_topic@ == c.topic_of() by {
        assert(ha.sensor_views()[i] == ha.sensors@[i]@);
        assert(ha.sensor_views()[i] == expected_sensor(base, dev, st[i]));
    }
    assert forall|i: int| 0 <= i < ha.buttons@.len() implies (#[trigger] ha.buttons@[i]).command_topic@ == c.topic_of()
        + "/"@ + SET_STATE_TOPIC@ by {
        assert(ha.button_views()[i] == ha.buttons@[i]@);
        assert(ha.button_views()[i] == expected_button(base, dev, bt[i]));
    }
}

/// The identifier of a device contains no spaces.
pub proof fn device_identifier_has_no_spaces(name: Seq<char>)
    ensures
        forall|i: int| 0 <= i < device_identifier(name).len() ==> #[trigger] device_identifier(name)[i] != ' ',
{
    reveal_strlit("gc_");
    let id = device_identifier(name);
    assert forall|i: int| 0 <= i < id.len() implies #[trigger] id[i] != ' ' by {
        if i >= 3 {
            assert(id[i] == crate::text::replace_char(name, ' ', '_')[i - 3]);
        }
    }
}

/// The last will and the message sent on connecting use the same availability topic,
/// with `offline` and `online`.
pub proof fn availability_messages_share_topic(settings: Settings, will: MqttMessage, online: MqttMessage)
    requires
        will.is(availability_topic_of(settings), STATE_OFFLINE@, true, 1),
        online.is(availability_topic_of(settings), STATE_ONLINE@, true, 0),
    ensures
        will.topic@ == online.topic@,
        will.payload@ != online.payload@,
{
    reveal_strlit("offline");
    reveal_strlit("online");
    assert(will.payload@.len() != online.payload@.len());
}

/// The bridge never forwards a message on a topic it has published on itself: once a
/// topic is recorded as published, it stays so, whatever else is recorded.
pub proof fn published_topics_are_never_forwarded(
    before: TopicTracker,
    after: TopicTracker,
    topic: Seq<char>,
    later: Set<Seq<char>>,
)
    requires
        after.published_topics() == before.published_topics().insert(topic).union(later),
    ensures
        after.published_topics().contains(topic),
{
}

/// A container added to the registry (`add_container`) can be found under its name,
/// and removing it again (`remove_container`) gives back the registry's other
/// containers as they were before it was added.
pub proof fn registry_add_then_remove(
    before: ContainerRegistry,
    added: ContainerRegistry,
    removed: ContainerRegistry,
    c: Container,
)
    requires
        added@ == before@.insert(c.name@, c),
        removed@ == added@.remove(c.name@),
    ensures
        added@.contains_key(c.name@) && added@[c.name@] == c,
        removed@ == before@.remove(c.name@),
        !removed@.contains_key(c.name@),
        forall|k: Seq<char>| k != c.name@ ==> (#[trigger] removed@.contains_key(k) <==> before@.contains_key(k)),
{
    assert(removed@ =~= before@.remove(c.name@));
}


/// Pressing any button of a container's device sends a message that the bridge takes
/// as that button's request for that container, for any MQTT base topic. The
/// container's name contains no `/` (Docker does not allow one in names).
pub proof fn button_press_is_a_request(
    ha: HomeAssistantContainer,
    i: int,
    known: Set<Seq<char>>,
    msg: MqttMessage,
    r: MqttMessageAction,
)
    requires
        ha.has_entities(),
        0 <= i < ha.buttons@.len(),
        !ha.device.name@.contains('/'),
        known.contains("/"@ + ha.device.name@),
        msg.topic@ == ha.buttons@[i].command_topic@,
        msg.payload@ == ha.buttons@[i].payload_press@,
        !msg.retained,
        message_action_holds(r, ha.settings.mqtt.base_topic@, known, msg),
    ensures
        r matches MqttMessageAction::Request { container_name, docker_name, request }
            && container_name@ == "/"@ + ha.device.name@
            && docker_name@ == ha.device.name@
            && request_of(ha.buttons@[i].payload_press@) == Some(request),
{
    let base = ha.settings.mqtt.base_topic@;
    let name = ha.device.name@;
    let bt = button_templates();
    assert(ha.button_views().len() == ha.buttons@.len());
    assert(ha.button_views()[i] == ha.buttons@[i]@);
    assert(ha.button_views()[i] == expected_button(base, (*ha.device)@, bt[i]));
    reveal_strlit("start");
    reveal_strlit("stop");
    reveal_strlit("restart");
    reveal_strlit("pause");
    reveal_strlit("unpause");
    reveal_strlit("recreate");
    reveal_strlit("pull_recreate");
    lemma_topic_parts(base, name);
    assert(request_of(bt[i].key) is Some);
}


/// The topics of a container start with the base topic and `/`, and what follows
/// splits at `/` into the name (and `set`) when the name contains no `/`, whatever the
/// base topic.
proof fn lemma_topic_parts(base: Seq<char>, name: Seq<char>)
    requires
        !name.contains('/'),
    ensures
        has_prefix(base + "/"@ + name, base + "/"@),
        split((base + "/"@ + name).skip((base + "/"@).len() as int), '/') == seq![name],
        has_prefix(base + "/"@ + name + "/"@ + SET_STATE_TOPIC@, base + "/"@),
        split((base + "/"@ + name + "/"@ + SET_STATE_TOPIC@).skip((base + "/"@).len() as int), '/') == seq![
            name,
            SET_STATE_TOPIC@,
        ],
{
    reveal_strlit("/");
    reveal_strlit("set");
    let set = SET_STATE_TOPIC@;
    let prefix = base + "/"@;
    let t1 = prefix + name;
    let t2 = prefix + name + "/"@ + set;
    assert(!set.contains('/')) by {
        if set.contains('/') {
            let k = choose|k: int| 0 <= k < set.len() && set[k] == '/';
            assert(set[k] == '/');
        }
    }
    assert(t1.take(prefix.len() as int) =~= prefix);
    assert(t1.skip(prefix.len() as int) =~= name);
    assert(t2.take(prefix.len() as int) =~= prefix);
    assert(t2.skip(prefix.len() as int) =~= name + seq!['/'] + set);
    lemma_split_concat(name, set, '/');
    lemma_split_without_sep(name, '/');
    lemma_split_without_sep(set, '/');
    assert(split(name + seq!['/'] + set, '/') =~= seq![name, set]);
}

/// A message that is not retained on the `set` subtopic of a known container's topic is
/// taken as a request for that container when its payload names one, and reported as an
/// unknown request otherwise, for any base topic; the container's name (after the
/// leading slash) contains no `/`.
pub proof fn control_message_reaches_container(c: Container, known: Set<Seq<char>>, msg: MqttMessage, r: MqttMessageAction)
    requires
        c.has_topic_name(),
        c.name@[0] == '/',
        !c.topic_name().contains('/'),
        known.contains(c.name@),
        msg.topic@ == c.topic_of() + "/"@ + SET_STATE_TOPIC@,
        !msg.retained,
        message_action_holds(r, c.settings.mqtt.base_topic@, known, msg),
    ensures
        request_of(msg.payload@) is Some ==> (r matches MqttMessageAction::Request { container_name, docker_name, request }
            && container_name@ == c.name@ && docker_name@ == c.topic_name()
            && request_of(msg.payload@) == Some(request)),
        request_of(msg.payload@) is None ==> (r matches MqttMessageAction::UnknownRequest { container_name, payload }
            && container_name@ == c.name@ && payload@ == msg.payload@),
{
    reveal_strlit("/");
    lemma_topic_parts(c.settings.mqtt.base_topic@, c.topic_name());
    assert("/"@ + c.topic_name() =~= c.name@);
}

/// A retained message on the topic of a container the bridge does not know is answered
/// with an empty retained message on the same topic, which removes it from the broker;
/// the topic of a known container is left alone. This holds for a base topic without
/// `/` (with one, retained topics are never cleared) and a container name (after the
/// leading slash) without `/`.
pub proof fn stale_container_topic_is_cleared(c: Container, known: Set<Seq<char>>, msg: MqttMessage, r: MqttMessageAction)
    requires
        c.has_topic_name(),
        c.name@[0] == '/',
        !contains_seq(c.settings.mqtt.base_topic@, "/"@),
        !c.topic_name().contains('/'),
        msg.topic@ == c.topic_of(),
        msg.retained,
        message_action_holds(r, c.settings.mqtt.base_topic@, known, msg),
    ensures
        known.contains(c.name@) ==> r is Ignore,
        !known.contains(c.name@) ==> (r matches MqttMessageAction::UnpublishStale(m) && m.topic@ == msg.topic@
            && m.payload@.len() == 0 && m.retained),
{
    reveal_strlit("/");
    lemma_topic_parts(c.settings.mqtt.base_topic@, c.topic_name());
    assert("/"@ + c.topic_name() =~= c.name@);
}


/// Announcing a container to the Home Assistant integration (`handle_event` with
/// `ContainerCreated`) and then reporting it removed (`ContainerRemoved`) withdraws the
/// discovery topics of the device made for it, 17 or, with host networking, 15, and
/// leaves the integration's other devices as they were before.
pub proof fn integration_create_then_remove(
    before: HomeAssistantIntegration,
    created: HomeAssistantIntegration,
    removed: HomeAssistantIntegration,
    info: ContainerEventInfo,
    msgs: Seq<MqttMessage>,
)
    requires
        created.containers().contains_key(info.name@),
        created.containers().remove(info.name@) == before.containers().remove(info.name@),
        created.containers()[info.name@].is_host_networking == info.is_host_networking,
        created.containers()[info.name@].has_entities(),
        removed.containers() == created.containers().remove(info.name@),
        msgs.len() == created.containers()[info.name@].entity_topics().len(),
        forall|i: int| 0 <= i < msgs.len() ==> #[trigger] msgs[i].is(
            created.containers()[info.name@].entity_topics()[i],
            Seq::empty(),
            true,
            1,
        ),
    ensures
        removed.containers() == before.containers().remove(info.name@),
        msgs.len() == (if info.is_host_networking { 15int } else { 17int }),
        forall|i: int| 0 <= i < msgs.len() ==> (#[trigger] msgs[i]).topic@
            == created.containers()[info.name@].entity_topics()[i] && msgs[i].payload@.len() == 0 && msgs[i].retained,
{
    entity_counts(created.containers()[info.name@]);
    assert forall|i: int| 0 <= i < msgs.len() implies (#[trigger] msgs[i]).topic@
        == created.containers()[info.name@].entity_topics()[i] && msgs[i].payload@.len() == 0 && msgs[i].retained by {
        assert(msgs[i].is(created.containers()[info.name@].entity_topics()[i], Seq::empty(), true, 1));
    }
}


/// The environment entries (and volumes and exposed ports) kept for a recreated
/// container are exactly the container's entries that occur nowhere in the image's
/// list, in their order: every entry the image already has is left to the image.
pub proof fn kept_entries_are_those_the_image_lacks(xs: Seq<Seq<char>>, ys: Seq<Seq<char>>)
    ensures
        keep_not_in(xs, ys) == xs.filter(|x: Seq<char>| !ys.contains(x)),
        forall|i: int| 0 <= i < keep_not_in(xs, ys).len() ==> !ys.contains(#[trigger] keep_not_in(xs, ys)[i]),
        forall|i: int| 0 <= i < xs.len() && !ys.contains(xs[i]) ==> keep_not_in(xs, ys).contains(#[trigger] xs[i]),
    decreases xs.len(),
{
    reveal(Seq::filter);
    let pred = |x: Seq<char>| !ys.contains(x);
    if xs.len() > 0 {
        kept_entries_are_those_the_image_lacks(xs.drop_last(), ys);
    }
    assert(keep_not_in(xs, ys) =~= xs.filter(pred));
    xs.filter_lemma(pred);
}


/// What a recreated container keeps of a list setting (environment, volumes, exposed
/// ports): with both the container and the image giving the list, exactly the
/// container's entries that the image's list lacks, in order; otherwise the
/// container's list as it is.
pub proof fn list_settings_drop_what_the_image_has(x: Option<Vec<String>>, image: Option<Vec<String>>)
    ensures
        match (x, image) {
            (Some(v), Some(i)) => filtered_list(x, image) == Some(
                views(v@).filter(|e: Seq<char>| !views(i@).contains(e)),
            ),
            (Some(v), None) => filtered_list(x, image) == Some(views(v@)),
            (None, _) => filtered_list(x, image) is None,
        },
{
    match (x, image) {
        (Some(v), Some(i)) => {
            kept_entries_are_those_the_image_lacks(views(v@), views(i@));
        },
        _ => {},
    }
}


/// The action of a Docker event, empty when it has none.
pub open spec fn action_of(ev: DockerEvent) -> Seq<char> {
    match ev.action {
        Some(a) => a@,
        None => Seq::empty(),
    }
}

/// The container a Docker event names, with the leading slash events leave out.
pub open spec fn container_of(ev: DockerEvent) -> Seq<char> {
    match ev.name {
        Some(n) => "/"@ + n@,
        None => Seq::empty(),
    }
}

/// How the bridge reacts to a Docker event, by the event's action: only `destroy`
/// removes a container, only `create` adds one, only `rename` (with the old name)
/// renames one, and only `start`, `stop`, `restart`, `pause` and `unpause` force a
/// poll; every other event, such as `die` or `kill`, is ignored. The container is the
/// event's `name` with a leading slash.
pub proof fn docker_event_reactions(ev: DockerEvent, r: DockerEventAction)
    requires
        docker_event_action_holds(r, ev),
    ensures
        !(r is Ignore) ==> ev.is_container && ev.name is Some && ev.action is Some,
        r is Destroy ==> action_of(ev) == "destroy"@ && r->Destroy_0@ == container_of(ev),
        r is Create ==> action_of(ev) == "create"@ && r->container_name@ == container_of(ev) && r->image == ev.image,
        r is Rename ==> action_of(ev) == "rename"@ && r->new_name@ == container_of(ev) && ev.old_name == Some(
            r->old_name,
        ),
        r is ForcePoll ==> (action_of(ev) == "start"@ || action_of(ev) == "stop"@ || action_of(ev) == "restart"@
            || action_of(ev) == "pause"@ || action_of(ev) == "unpause"@),
        (ev.is_container && ev.name is Some && ev.action is Some && action_of(ev) == "destroy"@) ==> r is Destroy,
        (ev.is_container && ev.name is Some && ev.action is Some && action_of(ev) == "create"@) ==> r is Create,
        (ev.is_container && ev.name is Some && ev.action is Some && action_of(ev) == "rename"@ && ev.old_name is Some)
            ==> r is Rename,
        (ev.is_container && ev.name is Some && ev.action is Some && (action_of(ev) == "start"@ || action_of(ev)
            == "stop"@ || action_of(ev) == "restart"@ || action_of(ev) == "pause"@ || action_of(ev) == "unpause"@))
            ==> r is ForcePoll,
{
    reveal_strlit("create");
    reveal_strlit("destroy");
    reveal_strlit("rename");
    reveal_strlit("start");
    reveal_strlit("stop");
    reveal_strlit("restart");
    reveal_strlit("pause");
    reveal_strlit("unpause");
    assert("destroy"@ != "create"@) by {
        assert("destroy"@.len() != "create"@.len());
    }
    assert("rename"@ != "create"@) by {
        assert("rename"@[0] != "create"@[0]);
    }
    assert("rename"@ != "destroy"@) by {
        assert("rename"@.len() != "destroy"@.len());
    }    assert("start"@ != "create"@) by {
        assert("start"@.len() != "create"@.len());
    }
    assert("start"@ != "destroy"@) by {
        assert("start"@.len() != "destroy"@.len());
    }
    assert("start"@ != "rename"@) by {
        assert("start"@.len() != "rename"@.len());
    }
    assert("stop"@ != "create"@) by {
        assert("stop"@.len() != "create"@.len());
    }
    assert("stop"@ != "destroy"@) by {
        assert("stop"@.len() != "destroy"@.len());
    }
    assert("stop"@ != "rename"@) by {
        assert("stop"@.len() != "rename"@.len());
    }
    assert("restart"@ != "create"@) by {
        assert("restart"@.len() != "create"@.len());
    }
    assert("restart"@ != "destroy"@) by {
        assert("restart"@[0] != "destroy"@[0]);
    }
    assert("restart"@ != "rename"@) by {
        assert("restart"@.len() != "rename"@.len());
    }
    assert("pause"@ != "create"@) by {
        assert("pause"@.len() != "create"@.len());
    }
    assert("pause"@ != "destroy"@) by {
        assert("pause"@.len() != "destroy"@.len());
    }
    assert("pause"@ != "rename"@) by {
        assert("pause"@.len() != "rename"@.len());
    }
    assert("unpause"@ != "create"@) by {
        assert("unpause"@.len() != "create"@.len());
    }
    assert("unpause"@ != "destroy"@) by {
        assert("unpause"@[0] != "destroy"@[0]);
    }
    assert("unpause"@ != "rename"@) by {
        assert("unpause"@.len() != "rename"@.len());
    }
}


/// The sensors of a container's device with the figure each shows and its unit: a
/// sensor shows the published figure named after it, in its own unit (`%` for
/// percentages, `MB` for amounts, none for texts).
pub open spec fn sensor_figures() -> Seq<(Seq<char>, Seq<char>, Option<Seq<char>>)> {
    seq![
        ("Image"@, "image"@, None),
        ("State"@, "state"@, None),
        ("Health"@, "health"@, None),
        ("CPU Percentage"@, "cpu_percentage"@, Some("%"@)),
        ("Memory Percentage"@, "mem_percentage"@, Some("%"@)),
        ("Memory Usage"@, "mem_mb"@, Some("MB"@)),
        ("Net RX"@, "net_rx_mb"@, Some("MB"@)),
        ("Net TX"@, "net_tx_mb"@, Some("MB"@)),
        ("Block RX"@, "block_rx_mb"@, Some("MB"@)),
        ("Block TX"@, "block_tx_mb"@, Some("MB"@)),
    ]
}

/// Each sensor of a container's device reads the published figure named after it, in
/// that figure's unit: the "Memory Percentage" sensor reads `mem_percentage` in `%`,
/// "Memory Usage" reads `mem_mb` in `MB`, and so on (see `sensor_figures`).
#[verifier::spinoff_prover]
pub proof fn sensors_show_their_figures(c: HomeAssistantContainer)
    requires
        c.has_entities(),
    ensures
        c.sensor_views().len() == c.sensors@.len(),
        forall|i: int| 0 <= i < c.sensor_views().len() ==> exists|k: int|
            0 <= k < sensor_figures().len() && (#[trigger] c.sensor_views()[i]).name == (
            #[trigger] sensor_figures()[k]).0 && c.sensor_views()[i].value_template == Some(
                "{{ value_json['"@ + sensor_figures()[k].1 + "'] }}"@,
            ) && c.sensor_views()[i].unit_of_measurement == sensor_figures()[k].2,
{
    let base = c.settings.mqtt.base_topic@;
    let dev = (*c.device)@;
    let st = sensor_templates(c.is_host_networking);
    lemma_templates_show_their_figures(c.is_host_networking);
    assert forall|i: int| 0 <= i < c.sensor_views().len() implies exists|k: int|
        0 <= k < sensor_figures().len() && (#[trigger] c.sensor_views()[i]).name == (
        #[trigger] sensor_figures()[k]).0 && c.sensor_views()[i].value_template == Some(
            "{{ value_json['"@ + sensor_figures()[k].1 + "'] }}"@,
        ) && c.sensor_views()[i].unit_of_measurement == sensor_figures()[k].2 by {
        assert(c.sensor_views()[i] == expected_sensor(base, dev, st[i]));
        let k = choose|k: int| 0 <= k < sensor_figures().len() && #[trigger] sensor_figures()[k] == (st[i].name, st[i].field, st[i].unit);
        assert(sensor_figures()[k] == (st[i].name, st[i].field, st[i].unit));
        assert(0 <= k < sensor_figures().len() && c.sensor_views()[i].name == sensor_figures()[k].0
            && c.sensor_views()[i].value_template == Some("{{ value_json['"@ + sensor_figures()[k].1 + "'] }}"@)
            && c.sensor_views()[i].unit_of_measurement == sensor_figures()[k].2);
    }
}

/// Each sensor template is a row of `sensor_figures`.
proof fn lemma_templates_show_their_figures(host: bool)
    ensures
        forall|i: int| 0 <= i < sensor_templates(host).len() ==> exists|k: int|
            0 <= k < sensor_figures().len() && #[trigger] sensor_figures()[k] == (
                (#[trigger] sensor_templates(host)[i]).name,
                sensor_templates(host)[i].field,
                sensor_templates(host)[i].unit,
            ),
{
    let st = sensor_templates(host);
    let tb = sensor_figures();
    assert forall|i: int| 0 <= i < st.len() implies exists|k: int|
        0 <= k < tb.len() && #[trigger] tb[k] == (#[trigger] st[i].name, st[i].field, st[i].unit) by {
        if !host {
            if i == 0 {
                assert(tb[0] == (st[0].name, st[0].field, st[0].unit));
            } else if i == 1 {
                assert(tb[1] == (st[1].name, st[1].field, st[1].unit));
            } else if i == 2 {
                assert(tb[2] == (st[2].name, st[2].field, st[2].unit));
            } else if i == 3 {
                assert(tb[3] == (st[3].name, st[3].field, st[3].unit));
            } else if i == 4 {
                assert(tb[4] == (st[4].name, st[4].field, st[4].unit));
            } else if i == 5 {
                assert(tb[5] == (st[5].name, st[5].field, st[5].unit));
            } else if i == 6 {
                assert(tb[6] == (st[6].name, st[6].field, st[6].unit));
            } else if i == 7 {
                assert(tb[7] == (st[7].name, st[7].field, st[7].unit));
            } else if i == 8 {
                assert(tb[8] == (st[8].name, st[8].field, st[8].unit));
            } else if i == 9 {
                assert(tb[9] == (st[9].name, st[9].field, st[9].unit));
            }
        } else {
            if i == 0 {
                assert(tb[0] == (st[0].name, st[0].field, st[0].unit));
            } else if i == 1 {
                assert(tb[1] == (st[1].name, st[1].field, st[1].unit));
            } else if i == 2 {
                assert(tb[2] == (st[2].name, st[2].field, st[2].unit));
            } else if i == 3 {
                assert(tb[3] == (st[3].name, st[3].field, st[3].unit));
            } else if i == 4 {
                assert(tb[4] == (st[4].name, st[4].field, st[4].unit));
            } else if i == 5 {
                assert(tb[5] == (st[5].name, st[5].field, st[5].unit));
            } else if i == 6 {
                assert(tb[8] == (st[6].name, st[6].field, st[6].unit));
            } else if i == 7 {
                assert(tb[9] == (st[7].name, st[7].field, st[7].unit));
            }
        }
    }
}


/// The labels of an inspected container, none when it reports none.
pub open spec fn labels_of(inspect: ContainerInspect) -> Seq<(String, String)> {
    match inspect.config {
        Some(config) => match config.labels {
            Some(labels) => labels@,
            None => Seq::empty(),
        },
        None => Seq::empty(),
    }
}

/// No two labels have the same key, as with Docker's label maps.
pub open spec fn distinct_keys(labels: Seq<(String, String)>) -> bool {
    forall|i: int, j: int| 0 <= i < j < labels.len() ==> (#[trigger] labels[i]).0@ != (#[trigger] labels[j]).0@
}

proof fn lemma_label_value(labels: Seq<(String, String)>, key: Seq<char>)
    ensures
        label_value(labels, key) matches Some(v) ==> exists|i: int|
            0 <= i < labels.len() && (#[trigger] labels[i]).0@ == key && labels[i].1@ == v,
        distinct_keys(labels) ==> forall|i: int|
            0 <= i < labels.len() && (#[trigger] labels[i]).0@ == key ==> label_value(labels, key) == Some(
                labels[i].1@,
            ),
    decreases labels.len(),
{
    if labels.len() > 0 {
        let rest = labels.drop_first();
        lemma_label_value(rest, key);
        if label_value(labels, key) is Some && labels[0].0@ != key {
            let i = choose|i: int| 0 <= i < rest.len() && (#[trigger] rest[i]).0@ == key && rest[i].1@ == label_value(
                labels,
                key,
            )->0;
            assert(labels[i + 1] == rest[i]);
        }
        if distinct_keys(labels) {
            assert(distinct_keys(rest)) by {
                assert forall|i: int, j: int| 0 <= i < j < rest.len() implies (#[trigger] rest[i]).0@ != (
                #[trigger] rest[j]).0@ by {
                    assert(rest[i] == labels[i + 1] && rest[j] == labels[j + 1]);
                }
            }
            assert forall|i: int| 0 <= i < labels.len() && (#[trigger] labels[i]).0@ == key implies label_value(
                labels,
                key,
            ) == Some(labels[i].1@) by {
                if i > 0 {
                    assert(labels[0].0@ != labels[i].0@);
                    assert(rest[i - 1] == labels[i]);
                }
            }
        }
    }
}

/// Which containers are bridged: all when filtering by label is off; with it on,
/// exactly those whose labels hold `gantry-crane.enable` with the value `true`,
/// wherever that label stands among the others (label keys being distinct, as in
/// Docker). Whenever a container is bridged under the filter, it has that label.
pub proof fn label_filter_selects_enabled_containers(settings: Settings, inspect: ContainerInspect)
    ensures
        !settings.filter_by_label ==> is_enabled(settings, inspect),
        settings.filter_by_label && is_enabled(settings, inspect) ==> exists|i: int|
            0 <= i < labels_of(inspect).len() && (#[trigger] labels_of(inspect)[i]).0@ == "gantry-crane.enable"@
                && labels_of(inspect)[i].1@ == "true"@,
        settings.filter_by_label && distinct_keys(labels_of(inspect)) && (exists|i: int|
            0 <= i < labels_of(inspect).len() && (#[trigger] labels_of(inspect)[i]).0@ == "gantry-crane.enable"@
                && labels_of(inspect)[i].1@ == "true"@) ==> is_enabled(settings, inspect),
{
    reveal_strlit("gantry-crane.enable");
    let l = labels_of(inspect);
    lemma_label_value(l, "gantry-crane.enable"@);
    if settings.filter_by_label && distinct_keys(l) && (exists|i: int|
        0 <= i < l.len() && (#[trigger] l[i]).0@ == "gantry-crane.enable"@ && l[i].1@ == "true"@) {
        let i = choose|i: int| 0 <= i < l.len() && (#[trigger] l[i]).0@ == "gantry-crane.enable"@ && l[i].1@ == "true"@;
        assert(label_value(l, "gantry-crane.enable"@) == Some(l[i].1@));
    }
}


/// A retained topic is taken for a discovery topic of this bridge exactly when, split at
/// `/`, it reads `<discovery prefix>/<component>/<node id>/<device>__<entity>/config`,
/// whatever the component (`sensor`, `button`, ...); the device is the part before
/// the first `__`.
pub proof fn discovery_topics_of_any_component(settings: Settings, topic: Seq<char>)
    ensures
        ({
            let p = split(topic, '/');
            (p.len() == 5 && p[0] == settings.homeassistant.base_topic@ && p[2] == settings.homeassistant.node_id@
                && contains_seq(p[3], "__"@) && p[4] == "config"@) ==> discovery_topic_container(settings, topic)
                == Some(before_first(p[3], "__"@))
        }),
        ({
            let p = split(topic, '/');
            discovery_topic_container(settings, topic) is Some ==> (p.len() == 5 && p[0]
                == settings.homeassistant.base_topic@ && p[2] == settings.homeassistant.node_id@ && p[4] == "config"@)
        }),
{
}

/// Two topics that differ only in their component part are treated alike: the stale
/// discovery topics of a gone container's buttons are cleared just as those of its
/// sensors.
pub proof fn discovery_topics_alike_across_components(settings: Settings, t1: Seq<char>, t2: Seq<char>)
    requires
        split(t1, '/').len() == split(t2, '/').len(),
        forall|i: int| 0 <= i < split(t1, '/').len() && i != 1 ==> split(t1, '/')[i] == split(t2, '/')[i],
    ensures
        discovery_topic_container(settings, t1) == discovery_topic_container(settings, t2),
{
    let p1 = split(t1, '/');
    let p2 = split(t2, '/');
    if p1.len() == 5 {
        assert(p1[0] == p2[0]);
        assert(p1[2] == p2[2]);
        assert(p1[3] == p2[3]);
        assert(p1[4] == p2[4]);
    }
}

} // verus!
