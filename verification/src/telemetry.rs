//! The main loop: read the sensor, read the clock, encode, publish, sleep, and
//! again, forever.
//!
//! [`MainLoop`] is the state machine. The driver performs each [`LoopAction`]
//! and reports what happened as a [`LoopEvent`]. One record is made per tick,
//! and nothing is kept from one tick to the next: a failed read skips the
//! tick, a message that cannot be published is tried again a bounded number
//! of times and then dropped. No failure leaves the loop.

use crate::wire::{
    encode_raw, encode_structured, raw_humidity_message, raw_temperature_message,
    structured_message_of, Encoding, Msg, OutboundMessage, OutboundMessageView, SensorReading,
};
use vstd::prelude::*;

verus! {

/// Why the sensor gave no sample.
#[derive(Clone, Copy, Debug, PartialEq, Eq, Structural)]
pub enum SensorError {
    ChecksumMismatch,
    Timeout,
    Protocol,
}

/// The transport did not take a message; `code` is the transport's own.
#[derive(Clone, Copy, Debug, PartialEq, Eq, Structural)]
pub struct PublishError {
    pub code: i32,
}

/// The transport took a message under this identifier.
#[derive(Clone, Copy, Debug, PartialEq, Eq, Structural)]
pub struct Ack {
    pub message_id: u32,
}

/// How a tick ended; the driver logs it while it sleeps.
#[derive(Clone, Copy, Debug, PartialEq, Eq, Structural)]
pub enum TickOutcome {
    /// Every message of the tick was taken by the transport.
    Published,
    /// No sample: the tick was skipped.
    SensorFailed(SensorError),
    /// No timestamp: the tick was skipped.
    ClockUnavailable,
    /// A message was refused once more than it may be retried, and dropped
    /// together with what was to follow it in this tick.
    PublishFailed(PublishError),
}

/// Where the loop stands, and what it holds for the tick under way.
#[derive(Debug, PartialEq, Eq)]
pub enum LoopState {
    AwaitingSensor,
    AwaitingClock { reading: SensorReading },
    AwaitingPayload { record: Msg },
    Publishing { message: OutboundMessage, then: Option<OutboundMessage>, failures: u8 },
    Sleeping { outcome: TickOutcome },
}

/// A [`LoopState`], with its messages as mathematical sequences.
pub enum LoopStateView {
    AwaitingSensor,
    AwaitingClock { reading: SensorReading },
    AwaitingPayload { record: Msg },
    Publishing { message: OutboundMessageView, then: Option<OutboundMessageView>, failures: u8 },
    Sleeping { outcome: TickOutcome },
}

impl View for LoopState {
    type V = LoopStateView;

    open spec fn view(&self) -> LoopStateView {
        match *self {
            LoopState::AwaitingSensor => LoopStateView::AwaitingSensor,
            LoopState::AwaitingClock { reading } => LoopStateView::AwaitingClock { reading },
            LoopState::AwaitingPayload { record } => LoopStateView::AwaitingPayload { record },
            LoopState::Publishing { message, then, failures } => LoopStateView::Publishing {
                message: message@,
                then: match then {
                    Some(next) => Some(next@),
                    None => None,
                },
                failures,
            },
            LoopState::Sleeping { outcome } => LoopStateView::Sleeping { outcome },
        }
    }
}

/// What the driver reports.
#[derive(Debug, PartialEq, Eq)]
pub enum LoopEvent {
    /// The sensor was read.
    SensorRead(Result<SensorReading, SensorError>),
    /// The clock was read; the timestamp is in milliseconds since the Unix
    /// epoch, and missing where the time source had none to give.
    ClockRead(Option<i64>),
    /// The record was serialized into these bytes.
    Serialized(Vec<u8>),
    /// The transport answered a publish.
    Published(Result<Ack, PublishError>),
    /// The sleep is over.
    Slept,
}

/// What the driver is to do next.
#[derive(Debug, PartialEq, Eq)]
pub enum LoopAction {
    /// Read the sensor and report `SensorRead`.
    ReadSensor,
    /// Read the clock and report `ClockRead`.
    ReadClock,
    /// Serialize the record, with its three fields under the names
    /// `temperature`, `humidity` and `timestamp`, and report `Serialized`.
    Serialize(Msg),
    /// Publish the message and report `Published`.
    Publish(OutboundMessage),
    /// Log how the tick ended, sleep, and report `Slept`.
    Sleep { millis: u32, outcome: TickOutcome },
}

/// A [`LoopAction`], with its message as mathematical sequences.
pub enum LoopActionView {
    ReadSensor,
    ReadClock,
    Serialize(Msg),
    Publish(OutboundMessageView),
    Sleep { millis: u32, outcome: TickOutcome },
}

impl View for LoopAction {
    type V = LoopActionView;

    open spec fn view(&self) -> LoopActionView {
        match *self {
            LoopAction::ReadSensor => LoopActionView::ReadSensor,
            LoopAction::ReadClock => LoopActionView::ReadClock,
            LoopAction::Serialize(record) => LoopActionView::Serialize(record),
            LoopAction::Publish(message) => LoopActionView::Publish(message@),
            LoopAction::Sleep { millis, outcome } => LoopActionView::Sleep { millis, outcome },
        }
    }
}

/// The main loop: whom it publishes for and how, the sleep between ticks, how
/// often a refused message is tried again, and the current state.
#[derive(Debug, PartialEq, Eq)]
pub struct MainLoop {
    pub client_id: String,
    pub encoding: Encoding,
    pub sleep_ms: u32,
    pub retries: u8,
    pub state: LoopState,
}

/// The state in which publishing begins, once sample and timestamp are there.
/// The raw encoding has its two messages ready; the structured encoding first
/// needs the record serialized.
pub open spec fn after_timestamp(
    client_id: Seq<char>,
    encoding: Encoding,
    reading: SensorReading,
    timestamp: i64,
) -> LoopStateView {
    match encoding {
        Encoding::Raw => LoopStateView::Publishing {
            message: raw_temperature_message(client_id, reading),
            then: Some(raw_humidity_message(client_id, reading)),
            failures: 0,
        },
        Encoding::Structured => LoopStateView::AwaitingPayload {
            record: Msg {
                temperature: reading.temperature,
                humidity: reading.humidity,
                timestamp,
            },
        },
    }
}

/// The state after the transport answered the publish of `message`.
pub open spec fn after_publish(
    retries: u8,
    message: OutboundMessageView,
    then: Option<OutboundMessageView>,
    failures: u8,
    answer: Result<Ack, PublishError>,
) -> LoopStateView {
    match answer {
        Ok(_) => match then {
            Some(next) => LoopStateView::Publishing { message: next, then: None, failures: 0 },
            None => LoopStateView::Sleeping { outcome: TickOutcome::Published },
        },
        Err(error) => if failures < retries {
            LoopStateView::Publishing { message, then, failures: (failures + 1) as u8 }
        } else {
            LoopStateView::Sleeping { outcome: TickOutcome::PublishFailed(error) }
        },
    }
}

/// The state after `event`. An event that does not answer what the state is
/// waiting for changes nothing.
pub open spec fn next_loop_state(
    client_id: Seq<char>,
    encoding: Encoding,
    retries: u8,
    state: LoopStateView,
    event: LoopEvent,
) -> LoopStateView {
    match (state, event) {
        (LoopStateView::AwaitingSensor, LoopEvent::SensorRead(Ok(reading))) => {
            LoopStateView::AwaitingClock { reading }
        },
        (LoopStateView::AwaitingSensor, LoopEvent::SensorRead(Err(error))) => {
            LoopStateView::Sleeping { outcome: TickOutcome::SensorFailed(error) }
        },
        (LoopStateView::AwaitingClock { reading }, LoopEvent::ClockRead(Some(timestamp))) => {
            after_timestamp(client_id, encoding, reading, timestamp)
        },
        (LoopStateView::AwaitingClock { .. }, LoopEvent::ClockRead(None)) => {
            LoopStateView::Sleeping { outcome: TickOutcome::ClockUnavailable }
        },
        (LoopStateView::AwaitingPayload { .. }, LoopEvent::Serialized(payload)) => {
            LoopStateView::Publishing {
                message: structured_message_of(client_id, payload@),
                then: None,
                failures: 0,
            }
        },
        (LoopStateView::Publishing { message, then, failures }, LoopEvent::Published(answer)) => {
            after_publish(retries, message, then, failures, answer)
        },
        (LoopStateView::Sleeping { .. }, LoopEvent::Slept) => LoopStateView::AwaitingSensor,
        _ => state,
    }
}

impl LoopStateView {
    /// How far the tick has come, counted in states.
    pub open spec fn progress(self) -> nat {
        match self {
            LoopStateView::AwaitingSensor => 0,
            LoopStateView::AwaitingClock { .. } => 1,
            LoopStateView::AwaitingPayload { .. } => 2,
            LoopStateView::Publishing { then: Some(_), .. } => 3,
            LoopStateView::Publishing { then: None, .. } => 4,
            LoopStateView::Sleeping { .. } => 5,
        }
    }
}

/// The action that leads out of `state`.
pub open spec fn pending_loop_action(sleep_ms: u32, state: LoopStateView) -> LoopActionView {
    match state {
        LoopStateView::AwaitingSensor => LoopActionView::ReadSensor,
        LoopStateView::AwaitingClock { .. } => LoopActionView::ReadClock,
        LoopStateView::AwaitingPayload { record } => LoopActionView::Serialize(record),
        LoopStateView::Publishing { message, .. } => LoopActionView::Publish(message),
        LoopStateView::Sleeping { outcome } => LoopActionView::Sleep { millis: sleep_ms, outcome },
    }
}

impl MainLoop {
    /// A loop about to read the sensor for its first tick.
    pub fn new(client_id: String, encoding: Encoding, sleep_ms: u32, retries: u8) -> (main_loop:
        MainLoop)
        ensures
            main_loop.client_id@ == client_id@,
            main_loop.encoding == encoding,
            main_loop.sleep_ms == sleep_ms,
            main_loop.retries == retries,
            main_loop.state@ == LoopStateView::AwaitingSensor,
    {
        MainLoop { client_id, encoding, sleep_ms, retries, state: LoopState::AwaitingSensor }
    }

    /// The action that leads out of the current state. There always is one:
    /// the loop has no final state.
    pub fn pending(&self) -> (action: LoopAction)
        ensures
            action@ == pending_loop_action(self.sleep_ms, self.state@),
    {
        match &self.state {
            LoopState::AwaitingSensor => LoopAction::ReadSensor,
            LoopState::AwaitingClock { reading: _ } => LoopAction::ReadClock,
            LoopState::AwaitingPayload { record } => LoopAction::Serialize(*record),
            LoopState::Publishing { message, then: _, failures: _ } => LoopAction::Publish(
                message.duplicate(),
            ),
            LoopState::Sleeping { outcome } => LoopAction::Sleep {
                millis: self.sleep_ms,
                outcome: *outcome,
            },
        }
    }

    /// Takes the driver's report and answers with the next action. A report
    /// that does not answer the pending action is ignored, and the pending
    /// action is given again.
    pub fn step(&mut self, event: LoopEvent) -> (action: LoopAction)
        ensures
            final(self).client_id@ == old(self).client_id@,
            final(self).encoding == old(self).encoding,
            final(self).sleep_ms == old(self).sleep_ms,
            final(self).retries == old(self).retries,
            final(self).state@ == next_loop_state(
                old(self).client_id@,
                old(self).encoding,
                old(self).retries,
                old(self).state@,
                event,
            ),
            action@ == pending_loop_action(old(self).sleep_ms, final(self).state@),
    {
        let mut state = LoopState::AwaitingSensor;
        core::mem::swap(&mut self.state, &mut state);
        let next = match state {
            LoopState::AwaitingSensor => match event {
                LoopEvent::SensorRead(Ok(reading)) => LoopState::AwaitingClock { reading },
                LoopEvent::SensorRead(Err(error)) => LoopState::Sleeping {
                    outcome: TickOutcome::SensorFailed(error),
                },
                _ => LoopState::AwaitingSensor,
            },
            LoopState::AwaitingClock { reading } => match event {
                LoopEvent::ClockRead(Some(timestamp)) => match self.encoding {
                    Encoding::Raw => {
                        let (temperature, humidity) = encode_raw(self.client_id.as_str(), reading);
                        LoopState::Publishing {
                            message: temperature,
                            then: Some(humidity),
                            failures: 0,
                        }
                    },
                    Encoding::Structured => LoopState::AwaitingPayload {
                        record: Msg::new(reading, timestamp),
                    },
                },
                LoopEvent::ClockRead(None) => LoopState::Sleeping {
                    outcome: TickOutcome::ClockUnavailable,
                },
                _ => LoopState::AwaitingClock { reading },
            },
            LoopState::AwaitingPayload { record } => match event {
                LoopEvent::Serialized(payload) => LoopState::Publishing {
                    message: encode_structured(self.client_id.as_str(), payload),
                    then: None,
                    failures: 0,
                },
                _ => LoopState::AwaitingPayload { record },
            },
            LoopState::Publishing { message, then, failures } => match event {
                LoopEvent::Published(Ok(_)) => match then {
                    Some(next) => LoopState::Publishing { message: next, then: None, failures: 0 },
                    None => LoopState::Sleeping { outcome: TickOutcome::Published },
                },
                LoopEvent::Published(Err(error)) => {
                    if failures < self.retries {
                        LoopState::Publishing { message, then, failures: failures + 1 }
                    } else {
                        LoopState::Sleeping { outcome: TickOutcome::PublishFailed(error) }
                    }
                },
                _ => LoopState::Publishing { message, then, failures },
            },
            LoopState::Sleeping { outcome } => match event {
                LoopEvent::Slept => LoopState::AwaitingSensor,
                _ => LoopState::Sleeping { outcome },
            },
        };
        self.state = next;
        self.pending()
    }
}

/// A failed read costs its own tick and no other. The failure is followed by
/// the sleep, the sleep by the next read, and a sample and a timestamp then
/// lead to publishing exactly as in a loop that never failed.
pub proof fn lemma_failed_read_skips_one_tick(
    client_id: Seq<char>,
    encoding: Encoding,
    retries: u8,
    sleep_ms: u32,
    error: SensorError,
    reading: SensorReading,
    timestamp: i64,
)
    ensures
        ({
            let failed = next_loop_state(
                client_id,
                encoding,
                retries,
                LoopStateView::AwaitingSensor,
                LoopEvent::SensorRead(Err(error)),
            );
            let rested = next_loop_state(client_id, encoding, retries, failed, LoopEvent::Slept);
            let sampled = next_loop_state(
                client_id,
                encoding,
                retries,
                rested,
                LoopEvent::SensorRead(Ok(reading)),
            );
            let stamped = next_loop_state(
                client_id,
                encoding,
                retries,
                sampled,
                LoopEvent::ClockRead(Some(timestamp)),
            );
            &&& failed == LoopStateView::Sleeping { outcome: TickOutcome::SensorFailed(error) }
            &&& pending_loop_action(sleep_ms, failed) == LoopActionView::Sleep {
                millis: sleep_ms,
                outcome: TickOutcome::SensorFailed(error),
            }
            &&& rested == LoopStateView::AwaitingSensor
            &&& pending_loop_action(sleep_ms, rested) == LoopActionView::ReadSensor
            &&& sampled == LoopStateView::AwaitingClock { reading }
            &&& stamped == after_timestamp(client_id, encoding, reading, timestamp)
            &&& encoding == Encoding::Raw ==> pending_loop_action(sleep_ms, stamped)
                == LoopActionView::Publish(raw_temperature_message(client_id, reading))
            &&& encoding == Encoding::Structured ==> pending_loop_action(sleep_ms, stamped)
                == LoopActionView::Serialize(
                Msg { temperature: reading.temperature, humidity: reading.humidity, timestamp },
            )
        }),
{
}

/// Within a tick the loop only moves forward. A report either changes nothing,
/// or takes the tick a state further, or counts one more refusal of the
/// message being published, of which there are never more than the retries
/// allow, or, after the sleep, begins the next tick. So a tick makes one record
/// at most, publishes each of its messages a bounded number of times, and
/// ends.
pub proof fn lemma_tick_only_advances(
    client_id: Seq<char>,
    encoding: Encoding,
    retries: u8,
    state: LoopStateView,
    event: LoopEvent,
)
    ensures
        ({
            let next = next_loop_state(client_id, encoding, retries, state, event);
            ||| next == state
            ||| next.progress() > state.progress()
            ||| state is Sleeping && next == LoopStateView::AwaitingSensor
            ||| {
                &&& state matches LoopStateView::Publishing { message, then, failures }
                &&& failures < retries
                &&& next == LoopStateView::Publishing {
                    message,
                    then,
                    failures: (failures + 1) as u8,
                }
            }
        }),
{
}

/// A refused message is published again while retries are left, and then
/// dropped: the tick ends in the sleep, never in a stop.
pub proof fn lemma_refused_publish_ends_in_sleep(
    client_id: Seq<char>,
    encoding: Encoding,
    retries: u8,
    message: OutboundMessageView,
    then: Option<OutboundMessageView>,
    failures: u8,
    error: PublishError,
)
    ensures
        ({
            let publishing = LoopStateView::Publishing { message, then, failures };
            let next = next_loop_state(
                client_id,
                encoding,
                retries,
                publishing,
                LoopEvent::Published(Err(error)),
            );
            &&& failures < retries ==> next == LoopStateView::Publishing {
                message,
                then,
                failures: (failures + 1) as u8,
            }
            &&& failures >= retries ==> next == LoopStateView::Sleeping {
                outcome: TickOutcome::PublishFailed(error),
            }
        }),
{
}

/// The sleep is never skipped: a tick begins only after the sleep that ended
/// the tick before it.
pub proof fn lemma_next_tick_follows_sleep(
    client_id: Seq<char>,
    encoding: Encoding,
    retries: u8,
    state: LoopStateView,
    event: LoopEvent,
)
    requires
        next_loop_state(client_id, encoding, retries, state, event) is AwaitingSensor,
    ensures
        state is AwaitingSensor || (state is Sleeping && event is Slept),
{
}

/// Every tick ends where it began: however it went, after the sleep the loop
/// is about to read the sensor and holds nothing of the tick that is over.
pub proof fn lemma_sleep_leads_to_next_tick(
    client_id: Seq<char>,
    encoding: Encoding,
    retries: u8,
    sleep_ms: u32,
    outcome: TickOutcome,
)
    ensures
        next_loop_state(
            client_id,
            encoding,
            retries,
            LoopStateView::Sleeping { outcome },
            LoopEvent::Slept,
        ) == LoopStateView::AwaitingSensor,
        pending_loop_action(sleep_ms, LoopStateView::AwaitingSensor) == LoopActionView::ReadSensor,
{
}

/// The structured message carries the serialized record as it was handed in,
/// on the temperature topic of the client.
pub proof fn lemma_structured_payload_is_untouched(
    client_id: Seq<char>,
    encoding: Encoding,
    retries: u8,
    sleep_ms: u32,
    record: Msg,
    payload: Vec<u8>,
)
    ensures
        pending_loop_action(
            sleep_ms,
            next_loop_state(
                client_id,
                encoding,
                retries,
                LoopStateView::AwaitingPayload { record },
                LoopEvent::Serialized(payload),
            ),
        ) == LoopActionView::Publish(structured_message_of(client_id, payload@)),
{
}

} // verus!
