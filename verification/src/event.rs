//! What the endpoint reports to whoever listens.

use crate::session::{CallSession, SessionView};
use vstd::prelude::*;

verus! {

pub enum EndpointEvent {
    Registered,
    RegistrationFailed { error: String },
    Unregistered,
    CallRinging { session: CallSession },
    CallAnswered { session: CallSession },
    CallStateChanged { session: CallSession },
    CallTerminated { session: CallSession, reason: String },
    DtmfReceived { call_id: String, digit: char, method: String },
    /// The frequency that the detector measured travels beside the event.
    BeepDetected { call_id: String, duration_ms: u64 },
    BeepTimeout { call_id: String },
    AudioCaptureComplete { session_id: String, async_id: u64, cancelled: bool },
    AudioPlayoutComplete { session_id: String, async_id: u64 },
    Shutdown,
}

/// An event with its texts as sequences.
pub enum EventView {
    Registered,
    RegistrationFailed { error: Seq<char> },
    Unregistered,
    CallRinging { session: SessionView },
    CallAnswered { session: SessionView },
    CallStateChanged { session: SessionView },
    CallTerminated { session: SessionView, reason: Seq<char> },
    DtmfReceived { call_id: Seq<char>, digit: char, method: Seq<char> },
    BeepDetected { call_id: Seq<char>, duration_ms: u64 },
    BeepTimeout { call_id: Seq<char> },
    AudioCaptureComplete { session_id: Seq<char>, async_id: u64, cancelled: bool },
    AudioPlayoutComplete { session_id: Seq<char>, async_id: u64 },
    Shutdown,
}

impl View for EndpointEvent {
    type V = EventView;

    open spec fn view(&self) -> EventView {
        match self {
            EndpointEvent::Registered => EventView::Registered,
            EndpointEvent::RegistrationFailed { error } => EventView::RegistrationFailed {
                error: error@,
            },
            EndpointEvent::Unregistered => EventView::Unregistered,
            EndpointEvent::CallRinging { session } => EventView::CallRinging { session: session@ },
            EndpointEvent::CallAnswered { session } => EventView::CallAnswered { session: session@ },
            EndpointEvent::CallStateChanged { session } => EventView::CallStateChanged {
                session: session@,
            },
            EndpointEvent::CallTerminated { session, reason } => EventView::CallTerminated {
                session: session@,
                reason: reason@,
            },
            EndpointEvent::DtmfReceived { call_id, digit, method } => EventView::DtmfReceived {
                call_id: call_id@,
                digit: *digit,
                method: method@,
            },
            EndpointEvent::BeepDetected { call_id, duration_ms } => EventView::BeepDetected {
                call_id: call_id@,
                duration_ms: *duration_ms,
            },
            EndpointEvent::BeepTimeout { call_id } => EventView::BeepTimeout { call_id: call_id@ },
            EndpointEvent::AudioCaptureComplete { session_id, async_id, cancelled } => EventView::AudioCaptureComplete {
                session_id: session_id@,
                async_id: *async_id,
                cancelled: *cancelled,
            },
            EndpointEvent::AudioPlayoutComplete { session_id, async_id } => EventView::AudioPlayoutComplete {
                session_id: session_id@,
                async_id: *async_id,
            },
            EndpointEvent::Shutdown => EventView::Shutdown,
        }
    }
}

/// An optional event with its texts as sequences.
pub open spec fn event_view(event: Option<EndpointEvent>) -> Option<EventView> {
    match event {
        Some(e) => Some(e@),
        None => None,
    }
}

/// The event as a model is of the same kind and shows what it carries.
pub proof fn the_model_shows_the_event(e: EndpointEvent)
    ensures
        e is Registered <==> e@ is Registered,
        e is Unregistered <==> e@ is Unregistered,
        e is Shutdown <==> e@ is Shutdown,
        e is RegistrationFailed <==> e@ is RegistrationFailed,
        e matches EndpointEvent::RegistrationFailed { error } ==> e@->error == error@,
        e is CallRinging <==> e@ is CallRinging,
        e matches EndpointEvent::CallRinging { session } ==> e@->CallRinging_session == session@,
        e is CallAnswered <==> e@ is CallAnswered,
        e matches EndpointEvent::CallAnswered { session } ==> e@->CallAnswered_session == session@,
        e is CallStateChanged <==> e@ is CallStateChanged,
        e matches EndpointEvent::CallStateChanged { session } ==> e@->CallStateChanged_session
            == session@,
        e is CallTerminated <==> e@ is CallTerminated,
        e matches EndpointEvent::CallTerminated { session, reason } ==> e@->CallTerminated_session
            == session@ && e@->reason == reason@,
        e is DtmfReceived <==> e@ is DtmfReceived,
        e matches EndpointEvent::DtmfReceived { call_id, digit, method } ==> e@->DtmfReceived_call_id
            == call_id@ && e@->digit == digit && e@->method == method@,
        e is BeepDetected <==> e@ is BeepDetected,
        e matches EndpointEvent::BeepDetected { call_id, duration_ms } ==> e@->BeepDetected_call_id
            == call_id@ && e@->duration_ms == duration_ms,
        e is BeepTimeout <==> e@ is BeepTimeout,
        e matches EndpointEvent::BeepTimeout { call_id } ==> e@->BeepTimeout_call_id == call_id@,
        e is AudioCaptureComplete <==> e@ is AudioCaptureComplete,
        e matches EndpointEvent::AudioCaptureComplete { session_id, async_id, cancelled }
            ==> e@->AudioCaptureComplete_session_id == session_id@
            && e@->AudioCaptureComplete_async_id == async_id && e@->cancelled == cancelled,
        e is AudioPlayoutComplete <==> e@ is AudioPlayoutComplete,
        e matches EndpointEvent::AudioPlayoutComplete { session_id, async_id }
            ==> e@->AudioPlayoutComplete_session_id == session_id@
            && e@->AudioPlayoutComplete_async_id == async_id,
{
}

/// An optional event as a model is there exactly where the event is, and shows it.
pub proof fn the_model_shows_an_optional_event(event: Option<EndpointEvent>)
    ensures
        event_view(event) is Some <==> event is Some,
        event matches Some(e) ==> event_view(event) == Some(e@),
{
}

} // verus!
