//! MQTT messages, the topics the bridge publishes on, and the bookkeeping of
//! published and subscribed topics that decides which received messages are
//! forwarded.

use vstd::prelude::*;
use vstd::hash_set::StringHashSet;

use crate::constants::{AVAILABILITY_TOPIC, STATE_OFFLINE, STATE_ONLINE};
use crate::settings::Settings;
use crate::text::{decimal, decimal_string, to_owned_string};

verus! {

/// A message received from or to be published on the broker.
#[derive(Debug, Clone, PartialEq, Eq)]
pub struct MqttMessage {
    pub topic: String,
    pub payload: String,
    pub retained: bool,
    pub qos: i32,
}

impl MqttMessage {
    pub fn new(topic: String, payload: String, retained: bool, qos: i32) -> (r: Self)
        ensures
            r.topic == topic,
            r.payload == payload,
            r.retained == retained,
            r.qos == qos,
    {
        MqttMessage { topic, payload, retained, qos }
    }

    /// A copy of the message.
    pub fn duplicate(&self) -> (r: Self)
        ensures
            r == *self,
    {
        MqttMessage {
            topic: self.topic.clone(),
            payload: self.payload.clone(),
            retained: self.retained,
            qos: self.qos,
        }
    }

    /// The message has the given topic, payload, retain flag and quality of service.
    pub open spec fn is(self, topic: Seq<char>, payload: Seq<char>, retained: bool, qos: i32) -> bool {
        &&& self.topic@ == topic
        &&& self.payload@ == payload
        &&& self.retained == retained
        &&& self.qos == qos
    }
}

/// `<base topic>/availability`.
pub open spec fn availability_topic_of(settings: Settings) -> Seq<char> {
    settings.mqtt.base_topic@ + "/"@ + AVAILABILITY_TOPIC@
}

/// The topic that carries the bridge's availability.
pub fn availability_topic(settings: &Settings) -> (r: String)
    ensures
        r@ == availability_topic_of(*settings),
{
    settings.mqtt.base_topic.clone().concat("/").concat(AVAILABILITY_TOPIC)
}

/// The URI scheme: MQTT over WebSockets (`ws`, or `wss` with TLS) when WebSockets are
/// configured, plain MQTT (`tcp`, or `ssl` with TLS) otherwise.
pub open spec fn broker_scheme_of(settings: Settings) -> Seq<char> {
    if settings.mqtt.websocket {
        if settings.mqtt.tls_encryption { "wss"@ } else { "ws"@ }
    } else {
        if settings.mqtt.tls_encryption { "ssl"@ } else { "tcp"@ }
    }
}

/// `<scheme>://host:port`.
pub open spec fn broker_uri_of(settings: Settings) -> Seq<char> {
    broker_scheme_of(settings) + "://"@ + settings.mqtt.host@ + ":"@ + decimal(settings.mqtt.port as nat)
}

/// The URI of the broker the client connects to.
pub fn broker_uri(settings: &Settings) -> (r: String)
    ensures
        r@ == broker_uri_of(*settings),
{
    let scheme = if settings.mqtt.websocket {
        if settings.mqtt.tls_encryption {
            "wss"
        } else {
            "ws"
        }
    } else if settings.mqtt.tls_encryption {
        "ssl"
    } else {
        "tcp"
    };
    let port = decimal_string(settings.mqtt.port as u64);
    to_owned_string(scheme).concat("://").concat(settings.mqtt.host.as_str()).concat(":").concat(
        port.as_str(),
    )
}

/// The last will the broker publishes when the bridge disappears: `offline` on the
/// availability topic, retained, QoS 1.
pub fn last_will(settings: &Settings) -> (r: MqttMessage)
    ensures
        r.is(availability_topic_of(*settings), STATE_OFFLINE@, true, 1),
{
    MqttMessage::new(availability_topic(settings), to_owned_string(STATE_OFFLINE), true, 1)
}

/// Published on every (re)connection: `online` on the availability topic, retained,
/// QoS 0.
pub fn online_message(settings: &Settings) -> (r: MqttMessage)
    ensures
        r.is(availability_topic_of(*settings), STATE_ONLINE@, true, 0),
{
    MqttMessage::new(availability_topic(settings), to_owned_string(STATE_ONLINE), true, 0)
}

/// The availability payload for a state: none clears the retained topic.
pub open spec fn availability_payload(state: Option<bool>) -> Seq<char> {
    match state {
        None => ""@,
        Some(true) => STATE_ONLINE@,
        Some(false) => STATE_OFFLINE@,
    }
}

/// The retained QoS 1 message that sets the availability topic to the given state
/// before disconnecting.
pub fn availability_message(settings: &Settings, state: Option<bool>) -> (r: MqttMessage)
    ensures
        r.is(availability_topic_of(*settings), availability_payload(state), true, 1),
{
    let payload = match state {
        None => to_owned_string(""),
        Some(true) => to_owned_string(STATE_ONLINE),
        Some(false) => to_owned_string(STATE_OFFLINE),
    };
    MqttMessage::new(availability_topic(settings), payload, true, 1)
}

/// The availability message sent before disconnecting: a clean-up removes the
/// retained availability (empty payload), a normal shutdown sets it to `offline`.
pub fn disconnect_message(settings: &Settings, clean: bool) -> (r: MqttMessage)
    ensures
        r.is(availability_topic_of(*settings), if clean { Seq::empty() } else { STATE_OFFLINE@ }, true, 1),
{
    proof {
        reveal_strlit("");
    }
    assert(""@ =~= Seq::<char>::empty());
    let state = if clean {
        None
    } else {
        Some(false)
    };
    availability_message(settings, state)
}

/// The topics the client has published on and the topics it has subscribed to.
/// Messages that arrive on a topic the client published on are its own and are not
/// forwarded; subscriptions are renewed after every reconnection.
pub struct TopicTracker {
    published: StringHashSet,
    subscribed: Vec<String>,
}

impl TopicTracker {
    /// The topics published on so far.
    pub closed spec fn published_topics(&self) -> Set<Seq<char>> {
        self.published@
    }

    /// The topics subscribed to so far, in order.
    pub closed spec fn subscribed_topics(&self) -> Seq<Seq<char>> {
        self.subscribed@.map_values(|t: String| t@)
    }

    pub fn new() -> (r: Self)
        ensures
            r.published_topics() == Set::<Seq<char>>::empty(),
            r.subscribed_topics() == Seq::<Seq<char>>::empty(),
    {
        let r = TopicTracker { published: StringHashSet::new(), subscribed: Vec::new() };
        assert(r.subscribed_topics() =~= Seq::<Seq<char>>::empty());
        r
    }

    /// Records that a message is published on `topic`.
    pub fn record_published(&mut self, topic: &str)
        ensures
            final(self).published_topics() == old(self).published_topics().insert(topic@),
            final(self).subscribed_topics() == old(self).subscribed_topics(),
    {
        self.published.insert(to_owned_string(topic));
    }

    /// Records a successful subscription to `topic`.
    pub fn record_subscribed(&mut self, topic: String)
        ensures
            final(self).subscribed_topics() == old(self).subscribed_topics().push(topic@),
            final(self).published_topics() == old(self).published_topics(),
    {
        self.subscribed.push(topic);
        assert(self.subscribed@.map_values(|t: String| t@) =~= old(self).subscribed@.map_values(
            |t: String| t@,
        ).push(topic@));
    }

    /// Whether a received message on `topic` is forwarded to the rest of the bridge:
    /// only if the bridge never published on that topic itself.
    pub fn should_forward(&self, topic: &str) -> (r: bool)
        ensures
            r == !self.published_topics().contains(topic@),
    {
        !self.published.contains(topic)
    }

    /// The topics to subscribe to again after a reconnection, each with QoS 0, or
    /// none when nothing was subscribed.
    pub fn resubscription(&self) -> (r: Option<(Vec<String>, Vec<i32>)>)
        ensures
            self.subscribed_topics().len() == 0 <==> r is None,
            r matches Some((topics, qos)) ==> {
                &&& topics@.map_values(|t: String| t@) == self.subscribed_topics()
                &&& qos@ == Seq::new(topics@.len(), |i: int| 0i32)
            },
    {
        let n = self.subscribed.len();
        if n == 0 {
            return None;
        }
        let mut topics: Vec<String> = Vec::new();
        let mut qos: Vec<i32> = Vec::new();
        let mut i: usize = 0;
        while i < n
            invariant
                n == self.subscribed@.len(),
                i <= n,
                topics@.len() == i,
                qos@.len() == i,
                forall|k: int| 0 <= k < i ==> #[trigger] topics@[k]@ == self.subscribed@[k]@,
                forall|k: int| 0 <= k < i ==> #[trigger] qos@[k] == 0,
            decreases n - i,
        {
            topics.push(self.subscribed[i].clone());
            qos.push(0);
            i = i + 1;
        }
        assert(topics@.map_values(|t: String| t@) =~= self.subscribed_topics());
        assert(qos@ =~= Seq::new(topics@.len(), |i: int| 0i32));
        Some((topics, qos))
    }
}

} // verus!
