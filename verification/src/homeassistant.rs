//! The one-shot discovery announcement for a home-automation hub.
//!
//! When discovery is enabled, the daemon announces its three metrics
//! once at startup, as retained messages on well-known topics; the hub
//! then knows how to read the state messages that follow.

use vstd::prelude::*;

use crate::configuration::Configuration;
use crate::hostname::hostname;
use crate::messages::MessageToPublish;
use crate::messages::state_topic_str;
use crate::messages::build_state_topic;
use crate::text::dash_to_underscore;
use crate::text::dashes_to_underscores;
use crate::text::json_quoted;
use crate::text::append_json_string;

verus! {

/// The three metrics a reading carries.
#[derive(Clone, Copy, Debug, PartialEq, Eq, Structural)]
pub enum MetricKind {
    Temperature,
    Pressure,
    Humidity,
}

/// The device class of a metric, as the hub spells it; also the key of
/// the metric in the state payload.
pub open spec fn metric_class(k: MetricKind) -> Seq<char> {
    match k {
        MetricKind::Temperature => "temperature"@,
        MetricKind::Pressure => "pressure"@,
        MetricKind::Humidity => "humidity"@,
    }
}

/// The capitalized label of a metric, appended to the device name.
pub open spec fn metric_label(k: MetricKind) -> Seq<char> {
    match k {
        MetricKind::Temperature => "Temperature"@,
        MetricKind::Pressure => "Pressure"@,
        MetricKind::Humidity => "Humidity"@,
    }
}

/// The unit a metric is reported in.
pub open spec fn metric_unit(k: MetricKind) -> Seq<char> {
    match k {
        MetricKind::Temperature => "\u{b0}C"@,
        MetricKind::Pressure => "Pa"@,
        MetricKind::Humidity => "%"@,
    }
}

/// The topic of one discovery message:
/// `homeassistant/sensor/<hostname>_<kind>/config`.
pub open spec fn discovery_topic_str(host: Seq<char>, k: MetricKind) -> Seq<char> {
    "homeassistant/sensor/"@ + host + "_"@ + metric_class(k) + "/config"@
}

/// The entity identifier of one metric: the hostname with dashes
/// turned to underscores, an underscore, and the metric's class.
pub open spec fn object_id_str(host: Seq<char>, k: MetricKind) -> Seq<char> {
    dashes_to_underscores(host) + "_"@ + metric_class(k)
}

/// The display name of one metric: the device name, a space, and the
/// metric's label.
pub open spec fn display_name_str(device_name: Seq<char>, k: MetricKind) -> Seq<char> {
    device_name + " "@ + metric_label(k)
}

/// The template the hub uses to pull the metric out of a state payload.
pub open spec fn value_template_str(k: MetricKind) -> Seq<char> {
    "{{ value_json."@ + metric_class(k) + " }}"@
}

/// The JSON document of one discovery message, keys in alphabetical
/// order: device class, a five-minute expiry, display name, entity
/// identifier, the state topic, the unit, and the value template.
pub open spec fn discovery_payload_str(
    device_name: Seq<char>,
    base: Seq<char>,
    host: Seq<char>,
    k: MetricKind,
) -> Seq<char> {
    "{\"device_class\":"@ + json_quoted(metric_class(k)) + ",\"expire_after\":300,\"name\":"@
        + json_quoted(display_name_str(device_name, k)) + ",\"object_id\":"@ + json_quoted(
        object_id_str(host, k),
    ) + ",\"state_topic\":"@ + json_quoted(state_topic_str(base, host))
        + ",\"unit_of_measurement\":"@ + json_quoted(metric_unit(k)) + ",\"value_template\":"@
        + json_quoted(value_template_str(k)) + "}"@
}

/// What one discovery message must hold, given the hostname that was
/// looked up.
pub open spec fn is_discovery_message(
    msg: MessageToPublish,
    config: Configuration,
    host: Seq<char>,
    k: MetricKind,
) -> bool {
    &&& msg.topic@ == discovery_topic_str(host, k)
    &&& msg.payload@ == discovery_payload_str(
        config.device_name@,
        config.mqtt_topic_base@,
        host,
        k,
    )
    &&& msg.retain == true
}

/// What the whole discovery batch must hold: one message per metric,
/// temperature first, then pressure, then humidity.
pub open spec fn is_discovery_list(
    msgs: Seq<MessageToPublish>,
    config: Configuration,
    host: Seq<char>,
) -> bool {
    &&& msgs.len() == 3
    &&& is_discovery_message(msgs[0], config, host, MetricKind::Temperature)
    &&& is_discovery_message(msgs[1], config, host, MetricKind::Pressure)
    &&& is_discovery_message(msgs[2], config, host, MetricKind::Humidity)
}

/// The device class of a metric, as a string slice.
fn metric_class_str(k: MetricKind) -> (r: &'static str)
    ensures
        r@ == metric_class(k),
{
    match k {
        MetricKind::Temperature => "temperature",
        MetricKind::Pressure => "pressure",
        MetricKind::Humidity => "humidity",
    }
}

/// The capitalized label of a metric, as a string slice.
fn metric_label_str(k: MetricKind) -> (r: &'static str)
    ensures
        r@ == metric_label(k),
{
    match k {
        MetricKind::Temperature => "Temperature",
        MetricKind::Pressure => "Pressure",
        MetricKind::Humidity => "Humidity",
    }
}

/// The unit of a metric, as a string slice.
fn metric_unit_str(k: MetricKind) -> (r: &'static str)
    ensures
        r@ == metric_unit(k),
{
    match k {
        MetricKind::Temperature => "\u{b0}C",
        MetricKind::Pressure => "Pa",
        MetricKind::Humidity => "%",
    }
}

/// Builds the topic of one discovery message.
fn build_discovery_topic(host: &str, k: MetricKind) -> (t: String)
    ensures
        t@ == discovery_topic_str(host@, k),
{
    let mut t = String::new();
    t.append("homeassistant/sensor/");
    t.append(host);
    t.append("_");
    t.append(metric_class_str(k));
    t.append("/config");
    proof {
        assert(t@ =~= discovery_topic_str(host@, k));
    }
    t
}

/// Builds the JSON document of one discovery message.
fn build_discovery_payload(config: &Configuration, host: &str, k: MetricKind) -> (p: String)
    ensures
        p@ == discovery_payload_str(config.device_name@, config.mqtt_topic_base@, host@, k),
{
    let mut display_name = String::new();
    display_name.append(config.device_name.as_str());
    display_name.append(" ");
    display_name.append(metric_label_str(k));
    proof {
        assert(display_name@ =~= display_name_str(config.device_name@, k));
    }
    let mut object_id = dash_to_underscore(host);
    object_id.append("_");
    object_id.append(metric_class_str(k));
    proof {
        assert(object_id@ =~= object_id_str(host@, k));
    }
    let state_topic = build_state_topic(config.mqtt_topic_base.as_str(), host);
    let mut value_template = String::new();
    value_template.append("{{ value_json.");
    value_template.append(metric_class_str(k));
    value_template.append(" }}");
    proof {
        assert(value_template@ =~= value_template_str(k));
    }
    let mut p = String::new();
    p.append("{\"device_class\":");
    append_json_string(&mut p, metric_class_str(k));
    p.append(",\"expire_after\":300,\"name\":");
    append_json_string(&mut p, display_name.as_str());
    p.append(",\"object_id\":");
    append_json_string(&mut p, object_id.as_str());
    p.append(",\"state_topic\":");
    append_json_string(&mut p, state_topic.as_str());
    p.append(",\"unit_of_measurement\":");
    append_json_string(&mut p, metric_unit_str(k));
    p.append(",\"value_template\":");
    append_json_string(&mut p, value_template.as_str());
    p.append("}");
    proof {
        assert(p@ =~= discovery_payload_str(
            config.device_name@,
            config.mqtt_topic_base@,
            host@,
            k,
        ));
    }
    p
}

/// Builds one retained discovery message.
fn build_discovery_message(config: &Configuration, host: &str, k: MetricKind) -> (msg:
    MessageToPublish)
    ensures
        is_discovery_message(msg, *config, host@, k),
{
    MessageToPublish {
        topic: build_discovery_topic(host, k),
        payload: build_discovery_payload(config, host, k),
        retain: true,
    }
}

/// The discovery batch for a hostname already looked up: empty when
/// discovery is disabled, else one retained message per metric.
pub fn get_discovery_messages_for_host(config: &Configuration, host: &str) -> (r: Vec<
    MessageToPublish,
>)
    ensures
        !config.enable_homeassistant_discovery ==> r@.len() == 0,
        config.enable_homeassistant_discovery ==> is_discovery_list(r@, *config, host@),
{
    let mut r: Vec<MessageToPublish> = Vec::new();
    if !config.enable_homeassistant_discovery {
        return r;
    }
    r.push(build_discovery_message(config, host, MetricKind::Temperature));
    r.push(build_discovery_message(config, host, MetricKind::Pressure));
    r.push(build_discovery_message(config, host, MetricKind::Humidity));
    r
}

/// The discovery batch: empty when discovery is disabled, else exactly
/// three retained messages, one per metric, built for the OS hostname,
/// which is taken once per call.
pub fn get_discovery_messages(config: &Configuration) -> (r: Vec<MessageToPublish>)
    ensures
        !config.enable_homeassistant_discovery ==> r@.len() == 0,
        config.enable_homeassistant_discovery ==> r@.len() == 3 && exists|host: Seq<char>|
            is_discovery_list(r@, *config, host),
{
    let host = hostname();
    let r = get_discovery_messages_for_host(config, host.as_str());
    proof {
        if config.enable_homeassistant_discovery {
            assert(is_discovery_list(r@, *config, host@));
        }
    }
    r
}

/// The discovery batch is a function of the configuration and the
/// hostname alone: two batches built from the same configuration and
/// hostname are equal, message by message.
pub proof fn lemma_discovery_idempotent(
    a: Seq<MessageToPublish>,
    b: Seq<MessageToPublish>,
    config: Configuration,
    host: Seq<char>,
)
    requires
        is_discovery_list(a, config, host),
        is_discovery_list(b, config, host),
    ensures
        a.len() == b.len(),
        forall|i: int|
            0 <= i < a.len() ==> a[i].topic@ == b[i].topic@ && a[i].payload@ == b[i].payload@
                && a[i].retain == b[i].retain,
{
}

/// Every message of an enabled discovery batch is retained, and its
/// topic is `homeassistant/sensor/`, the hostname, an underscore, one
/// of the three metric classes, and `/config`.
pub proof fn lemma_discovery_list_shape(
    msgs: Seq<MessageToPublish>,
    config: Configuration,
    host: Seq<char>,
)
    requires
        is_discovery_list(msgs, config, host),
    ensures
        msgs.len() == 3,
        forall|i: int| 0 <= i < msgs.len() ==> msgs[i].retain == true,
        forall|i: int| #![trigger msgs[i]]
            0 <= i < msgs.len() ==> exists|k: MetricKind|
                #![trigger metric_class(k)]
                msgs[i].topic@ == "homeassistant/sensor/"@ + host + "_"@ + metric_class(k)
                    + "/config"@,
{
    assert forall|i: int| #![trigger msgs[i]] 0 <= i < msgs.len() implies exists|k: MetricKind|
        #![trigger metric_class(k)]
        msgs[i].topic@ == "homeassistant/sensor/"@ + host + "_"@ + metric_class(k)
            + "/config"@ by {
        if i == 0 {
            assert(msgs[0].topic@ == "homeassistant/sensor/"@ + host + "_"@ + metric_class(
                MetricKind::Temperature,
            ) + "/config"@);
        } else if i == 1 {
            assert(msgs[1].topic@ == "homeassistant/sensor/"@ + host + "_"@ + metric_class(
                MetricKind::Pressure,
            ) + "/config"@);
        } else {
            assert(msgs[2].topic@ == "homeassistant/sensor/"@ + host + "_"@ + metric_class(
                MetricKind::Humidity,
            ) + "/config"@);
        }
    }
}

} // verus!
