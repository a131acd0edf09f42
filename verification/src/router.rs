//! Inbound broker messages.
//!
//! The broker client hands every event to a callback. Only received messages
//! matter, and of those only complete ones are routed; today routing means
//! logging the topic and dropping the message. A fragment of a larger message
//! is reported with a warning and dropped. Nothing here changes any state, so
//! the callback may run beside the main loop.

use vstd::prelude::*;

verus! {

/// How much of a message an inbound delivery carries.
#[derive(Clone, Copy, Debug, PartialEq, Eq, Structural)]
pub enum Details {
    Complete,
    InitialChunk { total_data_size: usize },
    SubsequentChunk { current_data_offset: usize, total_data_size: usize },
}

/// One inbound delivery.
#[derive(Clone, Debug, PartialEq, Eq)]
pub struct InboundMessage {
    pub topic: Option<String>,
    pub payload: Vec<u8>,
    pub details: Details,
}

/// An event of the broker client.
#[derive(Clone, Debug, PartialEq, Eq)]
pub enum BrokerEvent {
    BeforeConnect,
    Connected(bool),
    Disconnected,
    Subscribed(u32),
    Unsubscribed(u32),
    Published(u32),
    Received(InboundMessage),
    Deleted(u32),
}

/// What to do with an inbound delivery.
#[derive(Clone, Debug, PartialEq, Eq)]
pub enum Disposition {
    /// A complete message: log its topic, then drop it.
    Log { topic: String },
    /// A fragment: report a warning, then drop it.
    Warn,
}

/// A [`Disposition`], with the topic as a mathematical sequence.
pub enum DispositionView {
    Log { topic: Seq<char> },
    Warn,
}

impl View for Disposition {
    type V = DispositionView;

    open spec fn view(&self) -> DispositionView {
        match *self {
            Disposition::Log { topic } => DispositionView::Log { topic: topic@ },
            Disposition::Warn => DispositionView::Warn,
        }
    }
}

impl InboundMessage {
    /// The delivery is a whole message with its topic.
    pub open spec fn complete(self) -> bool {
        self.details is Complete && self.topic is Some
    }

    /// Whether the delivery is a whole message with its topic.
    pub fn is_complete(&self) -> (complete: bool)
        ensures
            complete == self.complete(),
    {
        match self.details {
            Details::Complete => self.topic.is_some(),
            _ => false,
        }
    }
}

/// The disposition of a delivery.
pub open spec fn disposition_of(message: InboundMessage) -> DispositionView {
    if message.complete() {
        DispositionView::Log { topic: message.topic->Some_0@ }
    } else {
        DispositionView::Warn
    }
}

/// The disposition of a broker event: that of the delivery for a received
/// message, none for every other event.
pub open spec fn inbound_disposition(event: BrokerEvent) -> Option<DispositionView> {
    match event {
        BrokerEvent::Received(message) => Some(disposition_of(message)),
        _ => None,
    }
}

/// Routes one delivery: a complete message is logged by its topic, anything
/// else is reported as a fragment. Neither is an error.
pub fn process_message(message: &InboundMessage) -> (disposition: Disposition)
    ensures
        disposition@ == disposition_of(*message),
{
    match message.details {
        Details::Complete => match &message.topic {
            Some(topic) => Disposition::Log { topic: topic.clone() },
            None => Disposition::Warn,
        },
        _ => Disposition::Warn,
    }
}

/// The callback for broker events: received messages are routed, all other
/// events pass without a trace.
pub fn on_inbound(event: &BrokerEvent) -> (disposition: Option<Disposition>)
    ensures
        disposition is Some <==> event is Received,
        match disposition {
            Some(d) => Some(d@) == inbound_disposition(*event),
            None => inbound_disposition(*event) is None,
        },
{
    match event {
        BrokerEvent::Received(message) => Some(process_message(message)),
        _ => None,
    }
}

/// A fragment is never routed: whatever it carries, it ends in a warning.
pub proof fn lemma_fragments_only_warn(message: InboundMessage)
    requires
        !(message.details is Complete),
    ensures
        disposition_of(message) == DispositionView::Warn,
{
}

} // verus!
