//! Outbound MQTT messages, and the builder of the state message.

use vstd::prelude::*;

use crate::configuration::Configuration;
use crate::hostname::hostname;
use crate::measurement::Measurements;
use crate::text::append_milli;
use crate::text::lemma_milli_roundtrip;
use crate::text::milli_str;
use crate::text::milli_val;

verus! {

/// One message bound for the broker.
#[derive(Clone, Debug)]
pub struct MessageToPublish {
    pub topic: String,
    pub payload: String,
    pub retain: bool,
}

/// The topic that carries live readings: `<topic_base>/<hostname>/state`.
pub open spec fn state_topic_str(base: Seq<char>, host: Seq<char>) -> Seq<char> {
    base + "/"@ + host + "/state"@
}

/// The JSON document of one reading: an object with the keys
/// `temperature`, `pressure` and `humidity`, each a plain decimal number.
pub open spec fn state_payload_str(m: Measurements) -> Seq<char> {
    "{\"temperature\":"@ + milli_str(m.temperature.milli as int) + ",\"pressure\":"@ + milli_str(
        m.pressure.milli as int,
    ) + ",\"humidity\":"@ + milli_str(m.humidity.milli as int) + "}"@
}

/// What the state message for a reading must hold, given the hostname
/// that was looked up: the state topic, the JSON document of the
/// reading, and no retain flag.
pub open spec fn is_state_message(
    msg: MessageToPublish,
    m: Measurements,
    base: Seq<char>,
    host: Seq<char>,
) -> bool {
    &&& msg.topic@ == state_topic_str(base, host)
    &&& msg.payload@ == state_payload_str(m)
    &&& msg.retain == false
}

/// Builds the state topic for a given hostname.
pub fn build_state_topic(base: &str, host: &str) -> (t: String)
    ensures
        t@ == state_topic_str(base@, host@),
{
    let mut t = String::new();
    t.append(base);
    t.append("/");
    t.append(host);
    t.append("/state");
    proof {
        assert(t@ =~= state_topic_str(base@, host@));
    }
    t
}

/// Builds the JSON document of one reading.
pub fn build_state_payload(m: &Measurements) -> (p: String)
    requires
        m.valid(),
    ensures
        p@ == state_payload_str(*m),
{
    let mut p = String::new();
    p.append("{\"temperature\":");
    append_milli(&mut p, m.temperature.milli);
    p.append(",\"pressure\":");
    append_milli(&mut p, m.pressure.milli);
    p.append(",\"humidity\":");
    append_milli(&mut p, m.humidity.milli);
    p.append("}");
    proof {
        assert(p@ =~= state_payload_str(*m));
    }
    p
}

/// The messages that publish one reading, for a hostname already
/// looked up: exactly one non-retained state message.
pub fn measurements_to_messages_for_host(
    m: &Measurements,
    config: &Configuration,
    host: &str,
) -> (r: Vec<MessageToPublish>)
    requires
        m.valid(),
    ensures
        r@.len() == 1,
        is_state_message(r@[0], *m, config.mqtt_topic_base@, host@),
{
    let topic = build_state_topic(config.mqtt_topic_base.as_str(), host);
    let payload = build_state_payload(m);
    let mut r: Vec<MessageToPublish> = Vec::new();
    r.push(MessageToPublish { topic, payload, retain: false });
    r
}

/// The messages that publish one reading: exactly one non-retained
/// state message on `<topic_base>/<hostname>/state`, whose payload is
/// the JSON document of the reading. The hostname is the OS hostname,
/// taken once per call.
pub fn measurements_to_messages(m: &Measurements, config: &Configuration) -> (r: Vec<
    MessageToPublish,
>)
    requires
        m.valid(),
    ensures
        r@.len() == 1,
        exists|host: Seq<char>|
            is_state_message(r@[0], *m, config.mqtt_topic_base@, host),
{
    let host = hostname();
    let r = measurements_to_messages_for_host(m, config, host.as_str());
    proof {
        assert(is_state_message(r@[0], *m, config.mqtt_topic_base@, host@));
    }
    r
}

/// The index of the first occurrence of `c` in `s`, or `-1`.
pub open spec fn find_char(s: Seq<char>, c: char) -> int
    decreases s.len(),
{
    if s.len() == 0 {
        -1
    } else if s[0] == c {
        0
    } else {
        let r = find_char(s.subrange(1, s.len() as int), c);
        if r < 0 {
            -1
        } else {
            1 + r
        }
    }
}

/// Where a sequence free of `c` meets one that starts with `c`, the
/// first occurrence of `c` is exactly at the seam.
pub proof fn lemma_find_char_concat(u: Seq<char>, w: Seq<char>, c: char)
    requires
        forall|i: int| 0 <= i < u.len() ==> #[trigger] u[i] != c,
        w.len() > 0,
        w[0] == c,
    ensures
        find_char(u + w, c) == u.len(),
    decreases u.len(),
{
    if u.len() == 0 {
        assert(u + w =~= w);
    } else {
        assert((u + w)[0] == u[0]);
        lemma_find_char_concat(u.subrange(1, u.len() as int), w, c);
        assert((u + w).subrange(1, (u + w).len() as int) =~= u.subrange(1, u.len() as int) + w);
    }
}

/// The three numbers a state payload carries, in thousandths, read
/// back by position: the text after the temperature key up to the
/// first comma, then the text after the pressure key up to the next
/// comma, then the text after the humidity key up to the closing
/// brace.
pub open spec fn state_payload_values(s: Seq<char>) -> (int, int, int) {
    let r1 = s.subrange("{\"temperature\":"@.len() as int, s.len() as int);
    let i = find_char(r1, ',');
    let x = r1.subrange(0, i);
    let r2 = r1.subrange(i + ",\"pressure\":"@.len(), r1.len() as int);
    let j = find_char(r2, ',');
    let y = r2.subrange(0, j);
    let r3 = r2.subrange(j + ",\"humidity\":"@.len(), r2.len() as int);
    let k = find_char(r3, '}');
    let z = r3.subrange(0, k);
    (milli_val(x), milli_val(y), milli_val(z))
}

/// Round trip: the JSON document of a reading determines the reading.
/// Reading the three number fields back out of `state_payload_str`
/// gives exactly the three encoded values.
#[verifier::rlimit(100)]
pub proof fn lemma_state_payload_roundtrip(m: Measurements)
    requires
        m.valid(),
    ensures
        state_payload_values(state_payload_str(m)) == (
            m.temperature.milli as int,
            m.pressure.milli as int,
            m.humidity.milli as int,
        ),
{
    reveal_strlit("{\"temperature\":");
    reveal_strlit(",\"pressure\":");
    reveal_strlit(",\"humidity\":");
    reveal_strlit("}");
    let s = state_payload_str(m);
    let pre = "{\"temperature\":"@;
    let sep2 = ",\"pressure\":"@;
    let sep3 = ",\"humidity\":"@;
    let x = milli_str(m.temperature.milli as int);
    let y = milli_str(m.pressure.milli as int);
    let z = milli_str(m.humidity.milli as int);
    lemma_milli_roundtrip(m.temperature.milli as int);
    lemma_milli_roundtrip(m.pressure.milli as int);
    lemma_milli_roundtrip(m.humidity.milli as int);
    let r1 = s.subrange(pre.len() as int, s.len() as int);
    assert(r1 =~= x + (sep2 + y + sep3 + z + "}"@));
    lemma_find_char_concat(x, sep2 + y + sep3 + z + "}"@, ',');
    let i = find_char(r1, ',');
    assert(i == x.len());
    assert(r1.subrange(0, i) =~= x);
    let r2 = r1.subrange(i + sep2.len(), r1.len() as int);
    assert(r2 =~= y + (sep3 + z + "}"@));
    lemma_find_char_concat(y, sep3 + z + "}"@, ',');
    let j = find_char(r2, ',');
    assert(j == y.len());
    assert(r2.subrange(0, j) =~= y);
    let r3 = r2.subrange(j + sep3.len(), r2.len() as int);
    assert(r3 =~= z + "}"@);
    lemma_find_char_concat(z, "}"@, '}');
    let k = find_char(r3, '}');
    assert(k == z.len());
    assert(r3.subrange(0, k) =~= z);
}

} // verus!
