use crate::record::BrokerTimestamp;
use crate::record::RawRecord;
use rdkafka::config::ClientConfig;
use rdkafka::consumer::BaseConsumer;
use rdkafka::consumer::Consumer;
use rdkafka::error::KafkaError;
use rdkafka::message::Message;
use rdkafka::message::Timestamp;
use std::time::Instant;
use vstd::prelude::*;

verus! {

#[verifier::external_type_specification]
#[verifier::external_body]
pub struct ExClientConfig(ClientConfig);

#[verifier::external_type_specification]
#[verifier::external_body]
pub struct ExKafkaError(KafkaError);

/// An open broker connection, owned by one session: the client library's
/// consumer, opaque to the rest of the library, which reaches it only through
/// the functions below.
#[verifier::external_body]
pub struct Connection {
    consumer: BaseConsumer,
}

#[verifier::external_type_specification]
#[verifier::external_body]
pub struct ExInstant(Instant);

/// The settings that a client configuration holds, key to value.
pub uninterp spec fn config_entries(c: ClientConfig) -> Map<Seq<char>, Seq<char>>;

/// Relies on `ClientConfig::new`: a new configuration holds no settings.
#[verifier::external_body]
pub(crate) fn new_client_config() -> (r: ClientConfig)
    ensures
        config_entries(r).dom() == Set::<Seq<char>>::empty(),
{
    ClientConfig::new()
}

/// Relies on `ClientConfig::set`: the setting for `key` becomes `value`,
/// replacing any earlier one, and the others stay.
#[verifier::external_body]
pub(crate) fn set_client_config(c: &mut ClientConfig, key: &str, value: &str)
    ensures
        config_entries(*final(c)) == config_entries(*old(c)).insert(key@, value@),
{
    c.set(key, value);
}

/// Relies on `ClientConfig::create`: builds a consumer from the settings,
/// or says why the client library refused them.
#[verifier::external_body]
pub(crate) fn create_consumer(c: &ClientConfig) -> (r: Result<Connection, KafkaError>) {
    c.create::<BaseConsumer>().map(|consumer| Connection { consumer })
}

/// Relies on `Consumer::subscribe`: subscribes the consumer to one topic.
/// The topic list it builds turns each name into a C string and panics on a
/// NUL character, so the topic holds none.
#[verifier::external_body]
pub(crate) fn subscribe_topic(c: &Connection, topic: &str) -> (r: Result<(), KafkaError>)
    requires
        !topic@.contains('\0'),
{
    c.consumer.subscribe(&[topic])
}

/// Relies on `BaseConsumer::poll`: waits up to `wait_ms` for one record,
/// copying what the tail view reads out of it.
#[verifier::external_body]
pub(crate) fn poll_record(c: &Connection, wait_ms: u64) -> (r: Option<Result<RawRecord, KafkaError>>) {
    c.consumer.poll(std::time::Duration::from_millis(wait_ms)).map(|res| res.map(|m| RawRecord {
        partition: m.partition(),
        offset: m.offset(),
        key: m.key().map(|k| k.to_vec()),
        timestamp: match m.timestamp() {
            Timestamp::NotAvailable => BrokerTimestamp::NotAvailable,
            Timestamp::CreateTime(ms) => BrokerTimestamp::CreateTime(ms),
            Timestamp::LogAppendTime(ms) => BrokerTimestamp::LogAppendTime(ms),
        },
        payload: m.payload().map(|p| p.to_vec()),
    }))
}

/// Relies on `Instant::now`: the current moment of the monotonic clock.
#[verifier::external_body]
pub(crate) fn clock_now() -> (r: Instant) {
    Instant::now()
}

/// Relies on `Instant::elapsed`: whole milliseconds since `t`.
#[verifier::external_body]
pub(crate) fn millis_since(t: &Instant) -> (r: u64) {
    t.elapsed().as_millis() as u64
}

} // verus!
