//! Payload encodings and the messages handed to the broker client.
//!
//! Two encodings exist side by side. The raw encoding publishes temperature and
//! humidity separately, each as the four big-endian bytes of a
//! single-precision number, and carries no timestamp. The structured encoding
//! publishes one record of temperature, humidity and timestamp per tick; its
//! bytes are produced by the driver's serializer and framed here.

use vstd::prelude::*;

verus! {

/// An IEEE 754 single-precision number, carried as its 32-bit pattern.
///
/// The crate never computes with the number; it only moves the pattern around
/// and lays it out in payloads, so the pattern is all it keeps.
#[derive(Clone, Copy, Debug, PartialEq, Eq, Structural)]
pub struct Single {
    pub bits: u32,
}

/// One sample of the sensor.
#[derive(Clone, Copy, Debug, PartialEq, Eq, Structural)]
pub struct SensorReading {
    pub temperature: Single,
    pub humidity: Single,
}

/// The telemetry record of one tick: a sample and the time it was taken, in
/// milliseconds since the Unix epoch.
#[derive(Clone, Copy, Debug, PartialEq, Eq, Structural)]
pub struct Msg {
    pub temperature: Single,
    pub humidity: Single,
    pub timestamp: i64,
}

/// Delivery guarantee asked of the broker client.
#[derive(Clone, Copy, Debug, PartialEq, Eq, Structural)]
pub enum QoS {
    AtMostOnce,
    AtLeastOnce,
    ExactlyOnce,
}

/// Which payload encoding the agent publishes.
#[derive(Clone, Copy, Debug, PartialEq, Eq, Structural)]
pub enum Encoding {
    Raw,
    Structured,
}

/// A message ready for the broker client.
#[derive(Clone, Debug, PartialEq, Eq)]
pub struct OutboundMessage {
    pub topic: String,
    pub payload: Vec<u8>,
    pub qos: QoS,
    pub retain: bool,
}

/// What an [`OutboundMessage`] holds, as mathematical sequences.
pub struct OutboundMessageView {
    pub topic: Seq<char>,
    pub payload: Seq<u8>,
    pub qos: QoS,
    pub retain: bool,
}

impl View for OutboundMessage {
    type V = OutboundMessageView;

    open spec fn view(&self) -> OutboundMessageView {
        OutboundMessageView {
            topic: self.topic@,
            payload: self.payload@,
            qos: self.qos,
            retain: self.retain,
        }
    }
}

/// The four bytes of `bits`, most significant first.
pub open spec fn be_bytes(bits: u32) -> Seq<u8> {
    seq![
        (bits / 0x100_0000) as u8,
        (bits / 0x1_0000 % 0x100) as u8,
        (bits / 0x100 % 0x100) as u8,
        (bits % 0x100) as u8,
    ]
}

/// The number whose big-endian layout is the first four bytes of `bytes`.
pub open spec fn be_value(bytes: Seq<u8>) -> int {
    bytes[0] * 0x100_0000 + bytes[1] * 0x1_0000 + bytes[2] * 0x100 + bytes[3]
}

/// What decoding a raw payload yields: a pattern when the payload has exactly
/// four bytes, nothing otherwise.
pub open spec fn raw_decoding(payload: Seq<u8>) -> Option<Single> {
    if payload.len() == 4 {
        Some(Single { bits: be_value(payload) as u32 })
    } else {
        None
    }
}

/// Topic of temperature messages, and of structured records, for a client.
pub open spec fn temperature_topic_of(client_id: Seq<char>) -> Seq<char> {
    "temperature/"@ + client_id
}

/// Topic of humidity messages for a client.
pub open spec fn humidity_topic_of(client_id: Seq<char>) -> Seq<char> {
    "humidity/"@ + client_id
}

/// A telemetry message: delivered at least once, never retained.
pub open spec fn telemetry_message(topic: Seq<char>, payload: Seq<u8>) -> OutboundMessageView {
    OutboundMessageView { topic, payload, qos: QoS::AtLeastOnce, retain: false }
}

/// The temperature message of the raw encoding.
pub open spec fn raw_temperature_message(
    client_id: Seq<char>,
    reading: SensorReading,
) -> OutboundMessageView {
    telemetry_message(temperature_topic_of(client_id), be_bytes(reading.temperature.bits))
}

/// The humidity message of the raw encoding.
pub open spec fn raw_humidity_message(
    client_id: Seq<char>,
    reading: SensorReading,
) -> OutboundMessageView {
    telemetry_message(humidity_topic_of(client_id), be_bytes(reading.humidity.bits))
}

/// The one message of the structured encoding, around a serialized record.
pub open spec fn structured_message_of(
    client_id: Seq<char>,
    payload: Seq<u8>,
) -> OutboundMessageView {
    telemetry_message(temperature_topic_of(client_id), payload)
}

impl Default for Encoding {
    /// The structured encoding is the one published unless told otherwise.
    fn default() -> (encoding: Encoding)
        ensures
            encoding == Encoding::Structured,
    {
        Encoding::Structured
    }
}

impl Single {
    /// The payload of the raw encoding: the pattern in big-endian byte order.
    pub fn to_be_bytes(self) -> (payload: Vec<u8>)
        ensures
            payload@ == be_bytes(self.bits),
    {
        let bits: u32 = self.bits;
        let mut payload: Vec<u8> = Vec::new();
        payload.push((bits / 0x100_0000) as u8);
        payload.push((bits / 0x1_0000 % 0x100) as u8);
        payload.push((bits / 0x100 % 0x100) as u8);
        payload.push((bits % 0x100) as u8);
        payload
    }

    /// Reads a raw payload back. A payload of any length but four is no
    /// single-precision number.
    pub fn from_be_bytes(payload: &[u8]) -> (value: Option<Single>)
        ensures
            value == raw_decoding(payload@),
    {
        if payload.len() != 4 {
            return None;
        }
        let b0: u32 = payload[0] as u32;
        let b1: u32 = payload[1] as u32;
        let b2: u32 = payload[2] as u32;
        let b3: u32 = payload[3] as u32;
        Some(Single { bits: b0 * 0x100_0000 + b1 * 0x1_0000 + b2 * 0x100 + b3 })
    }
}

impl Msg {
    /// Pairs a sample with the time it was taken.
    pub fn new(reading: SensorReading, timestamp: i64) -> (record: Msg)
        ensures
            record.temperature == reading.temperature,
            record.humidity == reading.humidity,
            record.timestamp == timestamp,
    {
        Msg { temperature: reading.temperature, humidity: reading.humidity, timestamp }
    }

    /// The sample inside the record.
    pub open spec fn reading(self) -> SensorReading {
        SensorReading { temperature: self.temperature, humidity: self.humidity }
    }
}

impl OutboundMessage {
    /// A copy of the message, field for field.
    pub fn duplicate(&self) -> (copy: OutboundMessage)
        ensures
            copy@ == self@,
    {
        let mut payload: Vec<u8> = Vec::new();
        let mut i: usize = 0;
        while i < self.payload.len()
            invariant
                i <= self.payload.len(),
                payload@ == self.payload@.subrange(0, i as int),
            decreases self.payload.len() - i,
        {
            payload.push(self.payload[i]);
            i = i + 1;
        }
        assert(payload@ =~= self.payload@);
        OutboundMessage {
            topic: self.topic.clone(),
            payload,
            qos: self.qos,
            retain: self.retain,
        }
    }
}

/// `temperature/<client-id>`.
pub fn temperature_topic(client_id: &str) -> (topic: String)
    ensures
        topic@ == temperature_topic_of(client_id@),
{
    String::from_str("temperature/").concat(client_id)
}

/// `humidity/<client-id>`.
pub fn humidity_topic(client_id: &str) -> (topic: String)
    ensures
        topic@ == humidity_topic_of(client_id@),
{
    String::from_str("humidity/").concat(client_id)
}

/// The two messages of the raw encoding, temperature first.
pub fn encode_raw(client_id: &str, reading: SensorReading) -> (messages: (
    OutboundMessage,
    OutboundMessage,
))
    ensures
        messages.0@ == raw_temperature_message(client_id@, reading),
        messages.1@ == raw_humidity_message(client_id@, reading),
{
    let temperature = OutboundMessage {
        topic: temperature_topic(client_id),
        payload: reading.temperature.to_be_bytes(),
        qos: QoS::AtLeastOnce,
        retain: false,
    };
    let humidity = OutboundMessage {
        topic: humidity_topic(client_id),
        payload: reading.humidity.to_be_bytes(),
        qos: QoS::AtLeastOnce,
        retain: false,
    };
    (temperature, humidity)
}

/// The message of the structured encoding: the serialized record, unchanged,
/// on the temperature topic.
pub fn encode_structured(client_id: &str, payload: Vec<u8>) -> (message: OutboundMessage)
    ensures
        message@ == structured_message_of(client_id@, payload@),
{
    OutboundMessage {
        topic: temperature_topic(client_id),
        payload,
        qos: QoS::AtLeastOnce,
        retain: false,
    }
}

/// Decoding the raw payload of a number gives the number back, bit for bit:
/// the payload has four bytes, and reading them most significant first
/// restores the pattern.
pub proof fn lemma_raw_round_trip(value: Single)
    ensures
        be_bytes(value.bits).len() == 4,
        raw_decoding(be_bytes(value.bits)) == Some(value),
{
}

/// Two numbers with the same raw payload are the same number.
pub proof fn lemma_raw_payload_is_injective(a: Single, b: Single)
    requires
        be_bytes(a.bits) == be_bytes(b.bits),
    ensures
        a == b,
{
    lemma_raw_round_trip(a);
    lemma_raw_round_trip(b);
}

/// Every telemetry message, of either encoding, asks for at-least-once
/// delivery and is not retained.
pub proof fn lemma_telemetry_delivery(
    client_id: Seq<char>,
    reading: SensorReading,
    payload: Seq<u8>,
)
    ensures
        raw_temperature_message(client_id, reading).qos == QoS::AtLeastOnce,
        raw_humidity_message(client_id, reading).qos == QoS::AtLeastOnce,
        structured_message_of(client_id, payload).qos == QoS::AtLeastOnce,
        !raw_temperature_message(client_id, reading).retain,
        !raw_humidity_message(client_id, reading).retain,
        !structured_message_of(client_id, payload).retain,
{
}

} // verus!
