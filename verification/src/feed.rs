//! The Kafka side of the consist feed: how consumers and producers are configured, and
//! what the relay forwards.
use vstd::prelude::*;
use crate::text::{chars_of, string_of};

verus! {

/// The views of a list of settings.
pub open spec fn settings_view(v: Seq<(String, String)>) -> Seq<(Seq<char>, Seq<char>)> {
    v.map_values(|p: (String, String)| (p.0@, p.1@))
}

/// The settings of a consumer of the upstream feed: the broker, the consumer group, reading
/// from the earliest offset, PLAIN SASL over TLS with the given user, and automatic
/// commits.
pub open spec fn consumer_settings_of(
    host: Seq<char>,
    group: Seq<char>,
    username: Seq<char>,
    password: Seq<char>,
) -> Seq<(Seq<char>, Seq<char>)> {
    seq![
        ("bootstrap.servers"@, host),
        ("group.id"@, group),
        ("auto.offset.reset"@, "earliest"@),
        ("security.protocol"@, "SASL_SSL"@),
        ("sasl.mechanism"@, "PLAIN"@),
        ("sasl.username"@, username),
        ("sasl.password"@, password),
        ("enable.auto.commit"@, "true"@),
    ]
}

fn own(s: &str) -> (r: String)
    ensures
        r@ == s@,
{
    let cs = chars_of(s);
    string_of(cs.as_slice())
}

/// The settings of a consumer of the upstream feed, in the order they are set.
pub fn consumer_settings(host: &str, group: &str, username: &str, password: &str) -> (r: Vec<(String, String)>)
    ensures
        settings_view(r@) == consumer_settings_of(host@, group@, username@, password@),
{
    let mut r: Vec<(String, String)> = Vec::new();
    r.push((own("bootstrap.servers"), own(host)));
    r.push((own("group.id"), own(group)));
    r.push((own("auto.offset.reset"), own("earliest")));
    r.push((own("security.protocol"), own("SASL_SSL")));
    r.push((own("sasl.mechanism"), own("PLAIN")));
    r.push((own("sasl.username"), own(username)));
    r.push((own("sasl.password"), own(password)));
    r.push((own("enable.auto.commit"), own("true")));
    assert(settings_view(r@) =~= consumer_settings_of(host@, group@, username@, password@));
    r
}

/// The settings of the relay's producer to the downstream broker: a five second message
/// timeout, over IPv4.
pub open spec fn producer_settings_of(host: Seq<char>) -> Seq<(Seq<char>, Seq<char>)> {
    seq![
        ("bootstrap.servers"@, host),
        ("message.timeout.ms"@, "5000"@),
        ("broker.address.family"@, "v4"@),
    ]
}

/// The settings of the relay's producer, in the order they are set.
pub fn producer_settings(host: &str) -> (r: Vec<(String, String)>)
    ensures
        settings_view(r@) == producer_settings_of(host@),
{
    let mut r: Vec<(String, String)> = Vec::new();
    r.push((own("bootstrap.servers"), own(host)));
    r.push((own("message.timeout.ms"), own("5000")));
    r.push((own("broker.address.family"), own("v4")));
    assert(settings_view(r@) =~= producer_settings_of(host@));
    r
}

/// A record that the relay sends downstream.
pub struct RelayRecord {
    pub topic: String,
    pub key: Option<Vec<u8>>,
    pub payload: Vec<u8>,
    /// Header names with their values.
    pub headers: Vec<(String, Option<String>)>,
}

/// The header that marks a record as relayed.
pub open spec fn relay_header_of(h: (String, Option<String>)) -> bool {
    &&& h.0@ == "ProcessedBy"@
    &&& h.1 matches Some(v) && v@ == "KafkaProxy"@
}

fn copy_bytes(b: &[u8]) -> (r: Vec<u8>)
    ensures
        r@ == b@,
{
    let mut r: Vec<u8> = Vec::new();
    let n = b.len();
    for i in 0..n
        invariant
            n == b@.len(),
            r@ == b@.take(i as int),
    {
        r.push(b[i]);
        assert(b@.take(i + 1) =~= b@.take(i as int).push(b@[i as int]));
    }
    assert(b@.take(n as int) =~= b@);
    r
}

/// The record that the relay sends for a message read upstream: to the same topic, with
/// the same key, the same payload (empty where the message has none), and the header
/// `ProcessedBy: KafkaProxy`.
pub fn relay_record(topic: &str, key: Option<&[u8]>, payload: Option<&[u8]>) -> (r: RelayRecord)
    ensures
        r.topic@ == topic@,
        match key {
            Some(k) => r.key matches Some(v) && v@ == k@,
            None => r.key is None,
        },
        r.payload@ == match payload {
            Some(p) => p@,
            None => Seq::<u8>::empty(),
        },
        r.headers@.len() == 1,
        relay_header_of(r.headers@[0]),
{
    let key_copy = match key {
        Some(k) => Some(copy_bytes(k)),
        None => None,
    };
    let body = match payload {
        Some(p) => copy_bytes(p),
        None => Vec::new(),
    };
    let mut headers: Vec<(String, Option<String>)> = Vec::new();
    headers.push((own("ProcessedBy"), Some(own("KafkaProxy"))));
    RelayRecord { topic: own(topic), key: key_copy, payload: body, headers }
}

} // verus!
