//! What is known of a call.

use crate::map::TextMap;
use vstd::prelude::*;

verus! {

/// Who placed the call.
#[derive(Clone, Copy, Debug, PartialEq, Eq, Structural)]
pub enum CallDirection {
    Inbound,
    Outbound,
}

/// How far a call has come.
#[derive(Clone, Copy, Debug, PartialEq, Eq, Structural)]
pub enum CallState {
    /// Signalling is under way; there is no media yet.
    Pending,
    /// Media flows.
    Confirmed,
}

pub struct CallSession {
    pub call_id: String,
    pub direction: CallDirection,
    pub state: CallState,
    pub remote_uri: String,
    pub call_uuid: Option<String>,
    pub extra_headers: TextMap<String>,
}

/// A session with its texts as sequences.
#[verifier::ext_equal]
pub struct SessionView {
    pub call_id: Seq<char>,
    pub direction: CallDirection,
    pub state: CallState,
    pub remote_uri: Seq<char>,
    pub call_uuid: Option<Seq<char>>,
    pub extra_headers: Map<Seq<char>, Seq<char>>,
}

/// An optional text as an optional sequence.
pub open spec fn text_view(text: Option<String>) -> Option<Seq<char>> {
    match text {
        Some(t) => Some(t@),
        None => None,
    }
}

pub fn copy_text(text: &Option<String>) -> (copy: Option<String>)
    ensures
        text_view(copy) == text_view(*text),
{
    match text {
        Some(t) => Some(t.clone()),
        None => None,
    }
}

impl View for CallSession {
    type V = SessionView;

    open spec fn view(&self) -> SessionView {
        SessionView {
            call_id: self.call_id@,
            direction: self.direction,
            state: self.state,
            remote_uri: self.remote_uri@,
            call_uuid: text_view(self.call_uuid),
            extra_headers: self.extra_headers.texts(),
        }
    }
}

impl SessionView {
    /// A session at the beginning of its call.
    pub open spec fn fresh(call_id: Seq<char>, direction: CallDirection) -> SessionView {
        SessionView {
            call_id,
            direction,
            state: CallState::Pending,
            remote_uri: Seq::empty(),
            call_uuid: None,
            extra_headers: Map::empty(),
        }
    }
}

impl CallSession {
    pub fn new(call_id: String, direction: CallDirection) -> (session: CallSession)
        ensures
            session@ == SessionView::fresh(call_id@, direction),
    {
        let session = CallSession {
            call_id,
            direction,
            state: CallState::Pending,
            remote_uri: String::new(),
            call_uuid: None,
            extra_headers: TextMap::new(),
        };
        assert(session@.extra_headers =~= Map::empty());
        session
    }

    pub fn copy(&self) -> (session: CallSession)
        ensures
            session@ == self@,
    {
        CallSession {
            call_id: self.call_id.clone(),
            direction: self.direction,
            state: self.state,
            remote_uri: self.remote_uri.clone(),
            call_uuid: copy_text(&self.call_uuid),
            extra_headers: self.extra_headers.copy(),
        }
    }
}

/// A session at the beginning of its call has its id and direction, waits for signalling, and knows
/// nothing of the peer.
pub proof fn a_session_begins_pending(call_id: Seq<char>, direction: CallDirection)
    ensures
        SessionView::fresh(call_id, direction).call_id == call_id,
        SessionView::fresh(call_id, direction).direction == direction,
        SessionView::fresh(call_id, direction).state == CallState::Pending,
        SessionView::fresh(call_id, direction).remote_uri.len() == 0,
        SessionView::fresh(call_id, direction).call_uuid is None,
        SessionView::fresh(call_id, direction).extra_headers.dom() == Set::<Seq<char>>::empty(),
{
}

/// The session as a model shows what is held of it, each part in its place.
pub proof fn the_model_shows_the_session(s: CallSession, name: Seq<char>)
    ensures
        s@.call_id == s.call_id@,
        s@.direction == s.direction,
        s@.state == s.state,
        s@.remote_uri == s.remote_uri@,
        s@.call_uuid is Some <==> s.call_uuid is Some,
        s.call_uuid matches Some(id) ==> s@.call_uuid == Some(id@),
        s@.extra_headers.dom().contains(name) <==> s.extra_headers@.dom().contains(name),
        s.extra_headers@.dom().contains(name) ==> s@.extra_headers[name]
            == s.extra_headers@[name]@,
{
}

/// An optional text as a sequence is there exactly where the text is, and holds its characters.
pub proof fn the_model_shows_an_optional_text(text: Option<String>)
    ensures
        text_view(text) is Some <==> text is Some,
        text matches Some(t) ==> text_view(text) == Some(t@),
{
}

} // verus!
