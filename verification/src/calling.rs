//! Placing, receiving and ending calls.

use crate::call::{call_id, new_call_context, queues_of, random_call_id, setup_rtp_attach, Attached, CallView, DialogSide, NewCall, QueuePlan, SdpAnswer};
use crate::endpoint::{Credential, EndpointConfig, EndpointView, SipEndpoint};
use crate::error::{not_active, other, EndpointError, ErrorView};
use crate::event::{event_view, EndpointEvent, EventView};
use crate::message::{call_uuid, caller_of, classify_termination, extract_x_headers, extract_x_headers_from_request, first_from, termination_label, with_passed_on, Request, Response, SipHeader, TerminatedReason};
use crate::recv_loop::RecvLoop;
use crate::registration::{status_message, status_message_text, OK};
use crate::session::{copy_text, text_view, CallDirection, CallSession, CallState, SessionView};
use crate::text::{decimal, decimal_text, joined};
use crate::transport::NetAddr;
use crate::uri::{over_tcp, parse_uri, read_uri, uri_reading, with_transport};
use vstd::prelude::*;
use vstd::string::*;

verus! {

/// The status that a call is refused with when answering it fails.
pub const SERVER_ERROR: u16 = 500;

/// A call that is to be placed.
pub struct OutboundCall {
    pub dest: String,
    pub caller: String,
    pub contact: String,
    pub credential: Credential,
    pub local_host: String,
    pub public_addr: Option<NetAddr>,
    pub headers: Option<Vec<(String, String)>>,
    pub external_call_id: Option<String>,
}

/// A call that was not established.
pub struct Refused {
    pub error: EndpointError,
    pub event: Option<EndpointEvent>,
}

/// A call that came in and is to be answered.
pub struct Ringing {
    pub session: CallSession,
    pub voice: QueuePlan,
    pub background: QueuePlan,
    pub event: EndpointEvent,
}

/// An accepted call whose media could not be set up.
pub struct FailedMedia {
    /// Whether its dialog is to be ended.
    pub bye: bool,
    /// Whether the tasks of the call are to be told to stop.
    pub cancel: bool,
    pub event: EndpointEvent,
}

/// A call that could not be answered.
pub struct FailedAnswer {
    /// Whether the tasks of the call are to be told to stop.
    pub cancel: bool,
    /// Whether its dialog is to be refused, with the status [`SERVER_ERROR`].
    pub reject: bool,
    pub event: EndpointEvent,
}

/// A call that was let go.
pub struct Hangup {
    /// Whether the tasks of the call are to be told to stop. Those of a call that had ended were.
    pub cancel: bool,
    pub event: Option<EndpointEvent>,
    /// The dialog that is to be told.
    pub bye: Option<DialogSide>,
}

/// A call that was refused.
pub struct Rejection {
    /// Whether its dialog is to be told.
    pub reject: bool,
    /// Whether the tasks of the call are to be told to stop.
    pub cancel: bool,
    pub event: EndpointEvent,
}

/// What is heard while a dialog is watched.
pub enum DialogEvent {
    /// The call or the endpoint was told to stop.
    Cancelled,
    /// Nothing more will be heard of the dialog.
    Closed,
    /// The peer refreshes the session.
    Updated,
    /// The dialog ended. `text` is the reason as it is reported.
    Terminated { reason: TerminatedReason, text: String },
    Other,
}

/// What is done on it.
pub enum WatchStep {
    Stop,
    Continue,
    /// The refresh is answered with success and the description of our side, where there is one.
    Respond { sdp: Option<String> },
    /// The watch is over and the call is to be cancelled. `side` says who ended it.
    Ended { side: &'static str, event: Option<EndpointEvent> },
}

/// A refresh of a session that is to be sent.
pub struct Refresh {
    pub sdp: String,
    pub dialog: Option<DialogSide>,
}

impl EndpointView {
    /// Why no call can be placed, if so.
    pub open spec fn unready(self) -> Option<ErrorView> {
        if !self.connected {
            Some(ErrorView::NotInitialized)
        } else if self.credential is None || self.contact_uri is None || self.aor is None {
            Some(ErrorView::NotRegistered)
        } else if self.local_addr is None {
            Some(ErrorView::NotInitialized)
        } else {
            None
        }
    }

    /// The state once the call was terminated: it stays, and its tasks are told to stop.
    pub open spec fn terminated(self, id: Seq<char>) -> EndpointView {
        if self.active(id) {
            self.with_call(id, CallView { terminated: true, cancelled: true, ..self.calls[id] })
        } else {
            self
        }
    }

    /// The state once the end of a call was noticed from outside.
    pub open spec fn ended(self, id: Seq<char>) -> EndpointView {
        if self.has(id) {
            self.with_call(id, CallView { terminated: true, cancelled: true, ..self.calls[id] })
        } else {
            self
        }
    }

    /// Whether a call is here and has ended.
    pub open spec fn over(self, id: Seq<char>) -> bool {
        self.has(id) && self.calls[id].terminated
    }

    /// The state once the media of a call was lost, where `terminated` says whether the receive
    /// loop knows the call to have ended.
    pub open spec fn silenced(self, id: Seq<char>, terminated: bool) -> EndpointView {
        if terminated || self.over(id) {
            self
        } else {
            self.ended(id)
        }
    }

    /// What the loss of the media of a call reports, with the session that the receive loop keeps.
    pub open spec fn silence_report(
        self,
        id: Seq<char>,
        session: SessionView,
        terminated: bool,
    ) -> Option<EventView> {
        if terminated || self.over(id) {
            None
        } else {
            Some(EventView::CallTerminated { session, reason: "media timeout"@ })
        }
    }

    /// Whether the end of a call that is here is old news: nothing more is reported of it, and
    /// terminating it or losing its media changes nothing.
    pub open spec fn settled(
        self,
        id: Seq<char>,
        reason: Seq<char>,
        session: SessionView,
        terminated: bool,
    ) -> bool {
        &&& self.over(id)
        &&& self.termination(id, reason) is None
        &&& self.silence_report(id, session, terminated) is None
        &&& self.terminated(id) == self
        &&& self.silenced(id, terminated) == self
    }

    /// What terminating a call reports.
    pub open spec fn termination(self, id: Seq<char>, reason: Seq<char>) -> Option<EventView> {
        if self.active(id) {
            Some(EventView::CallTerminated { session: self.calls[id].session, reason })
        } else {
            None
        }
    }

    /// The dialog that is told when the call is let go.
    pub open spec fn farewell(self, id: Seq<char>) -> Option<DialogSide> {
        if self.has(id) {
            self.calls[id].dialog()
        } else {
            None
        }
    }

    /// The description of our side of a call.
    pub open spec fn described(self, id: Seq<char>) -> Option<Seq<char>> {
        if self.has(id) {
            self.calls[id].local_sdp
        } else {
            None
        }
    }
}

/// The caller that a call names: the address of record, unless the application gives another.
pub open spec fn named_caller(from: Option<Result<Seq<char>, Seq<char>>>, aor: Seq<char>) -> Result<
    Seq<char>,
    ErrorView,
> {
    match from {
        Some(Ok(uri)) => Ok(uri),
        Some(Err(why)) => Err(ErrorView::Other("invalid from_uri: "@ + why)),
        None => Ok(aor),
    }
}

/// The caller that a call names, given what was read from the one that the application gives.
pub fn name_caller(from: Option<Result<String, String>>, aor: &str) -> (r: Result<
    String,
    EndpointError,
>)
    ensures
        match named_caller(
            match from {
                Some(Ok(uri)) => Some(Ok(uri@)),
                Some(Err(why)) => Some(Err(why@)),
                None => None,
            },
            aor@,
        ) {
            Ok(caller) => r is Ok && r->Ok_0@ == caller,
            Err(e) => r is Err && r->Err_0@ == e,
        },
{
    match from {
        Some(Ok(uri)) => Ok(uri),
        Some(Err(why)) => Err(EndpointError::Other(joined("invalid from_uri: ", why.as_str()))),
        None => Ok(aor.to_owned()),
    }
}

/// The session of a call that we placed, once it was accepted.
pub open spec fn outbound_session(id: Seq<char>, dest: Seq<char>, headers: Seq<SipHeader>) -> SessionView {
    (SessionView {
        remote_uri: dest,
        ..SessionView::fresh(id, CallDirection::Outbound)
    }).with_headers(headers)
}

/// The session of a call that came in.
pub open spec fn inbound_session(id: Seq<char>, headers: Seq<SipHeader>) -> SessionView {
    (SessionView {
        remote_uri: match first_from(headers) {
            Some(value) => "From: "@ + value,
            None => Seq::empty(),
        },
        ..SessionView::fresh(id, CallDirection::Inbound)
    }).with_headers(headers)
}

/// What an incoming call does: it is filed under its id and reported as ringing.
pub open spec fn rings(
    before: EndpointView,
    after: EndpointView,
    id: Seq<char>,
    headers: Seq<SipHeader>,
    ringing: Ringing,
) -> bool {
    let session = inbound_session(id, headers);
    &&& after == before.with_call(
        id,
        CallView { server_dialog: true, ..CallView::fresh(session) },
    )
    &&& ringing.session@ == session
    &&& ringing.event@ == EventView::CallRinging { session }
    &&& ringing.voice.is_voice_of(id, before.config.output_sample_rate)
    &&& ringing.background.is_background_of(id, before.config.output_sample_rate)
}

impl OutboundCall {
    /// Who is called. The invitation goes over TCP unless the destination says otherwise.
    pub fn callee(&self) -> (r: Result<String, EndpointError>)
        ensures
            match uri_reading(over_tcp(self.dest@)) {
                Ok(uri) => r is Ok && r->Ok_0@ == uri,
                Err(why) => r is Err && r->Err_0@ == ErrorView::Other(why),
            },
    {
        read_uri(with_transport(self.dest.as_str()).as_str())
    }
}

impl SipEndpoint {
    /// The call to place, from the address of record.
    pub fn call(&self, dest_uri: &str, headers: Option<Vec<(String, String)>>) -> (r: Result<
        OutboundCall,
        EndpointError,
    >)
        ensures
            match r {
                Ok(out) => {
                    &&& self@.unready() is None
                    &&& Some(out.caller@) == self@.aor
                    &&& self.places(out, dest_uri@, headers, None)
                },
                Err(e) => self@.unready() == Some(e@),
            },
    {
        self.call_with_from(dest_uri, None, headers, None)
    }

    /// Whether a call to place is to the destination, with what the registration left and what the
    /// application gives.
    pub open spec fn places(
        &self,
        out: OutboundCall,
        dest: Seq<char>,
        headers: Option<Vec<(String, String)>>,
        external_call_id: Option<Seq<char>>,
    ) -> bool {
        &&& out.dest@ == dest
        &&& self@.contact_uri == Some(out.contact@)
        &&& self@.credential == Some(out.credential@)
        &&& self@.local_addr is Some
        &&& out.local_host@ == self@.local_addr->Some_0.host
        &&& out.public_addr == self@.public_addr
        &&& out.headers == headers
        &&& text_view(out.external_call_id) == external_call_id
    }

    /// The call to place, from the given caller or else the address of record.
    pub fn call_with_from(
        &self,
        dest_uri: &str,
        from_uri: Option<&str>,
        headers: Option<Vec<(String, String)>>,
        external_call_id: Option<String>,
    ) -> (r: Result<OutboundCall, EndpointError>)
        ensures
            match self@.unready() {
                Some(e) => r is Err && r->Err_0@ == e,
                None => match named_caller(
                    match from_uri {
                        Some(from) => Some(uri_reading(from@)),
                        None => None,
                    },
                    self@.aor->Some_0,
                ) {
                    Ok(caller) => r is Ok && r->Ok_0.caller@ == caller && self.places(
                        r->Ok_0,
                        dest_uri@,
                        headers,
                        text_view(external_call_id),
                    ),
                    Err(e) => r is Err && r->Err_0@ == e,
                },
            },
    {
        if !self.connected {
            return Err(EndpointError::NotInitialized);
        }
        let (credential, contact, aor) = match (&self.credential, &self.contact_uri, &self.aor) {
            (Some(credential), Some(contact), Some(aor)) => (credential, contact, aor),
            _ => return Err(EndpointError::NotRegistered),
        };
        let local = match &self.local_addr {
            Some(local) => local,
            None => return Err(EndpointError::NotInitialized),
        };
        let from: Option<Result<String, String>> = match from_uri {
            Some(from) => Some(parse_uri(from)),
            None => None,
        };
        let caller = name_caller(from, aor.as_str())?;
        Ok(
            OutboundCall {
                dest: dest_uri.to_owned(),
                caller,
                contact: contact.clone(),
                credential: credential.copy(),
                local_host: local.host.clone(),
                public_addr: self.public_addr,
                headers,
                external_call_id,
            },
        )
    }

    /// The callee answered, or did not. A call that was accepted still needs its media.
    pub fn on_invite_response(&self, dest: &str, call_id: &str, resp: Option<&Response>) -> (r: Result<
        NewCall,
        Refused,
    >)
        ensures
            match resp {
                None => {
                    &&& r is Err
                    &&& r->Err_0.error@ == ErrorView::Other("no response"@)
                    &&& r->Err_0.event is None
                },
                Some(resp) => if resp.code == OK {
                    &&& r is Ok
                    &&& r->Ok_0.session@ == outbound_session(call_id@, dest@, resp.headers@)
                    &&& r->Ok_0.context@ == (CallView {
                        client_dialog: true,
                        ..CallView::fresh(r->Ok_0.session@)
                    })
                    &&& queues_of(r->Ok_0, call_id@, self@.config.output_sample_rate)
                } else {
                    let message = status_message(resp.code, resp.reason@);
                    &&& r is Err
                    &&& r->Err_0.error@ == ErrorView::Sip { code: resp.code as i32, message }
                    &&& event_view(r->Err_0.event) == Some(
                        EventView::CallTerminated {
                            session: SessionView::fresh(call_id@, CallDirection::Outbound),
                            reason: message,
                        },
                    )
                },
            },
            r is Ok <==> resp is Some && resp->0.code == 200,
            r is Ok ==> r->Ok_0.context@.client_dialog && !r->Ok_0.context@.server_dialog
                && r->Ok_0.session@.call_id == call_id@ && r->Ok_0.session@.remote_uri == dest@
                && r->Ok_0.session@.direction == CallDirection::Outbound,
    {
        let resp = match resp {
            Some(resp) => resp,
            None => return Err(Refused { error: other("no response"), event: None }),
        };
        if resp.code != OK {
            let message = status_message_text(resp.code, resp.reason.as_str());
            let reason = message.clone();
            return Err(
                Refused {
                    error: EndpointError::Sip { code: resp.code as i32, message },
                    event: Some(
                        EndpointEvent::CallTerminated {
                            session: CallSession::new(call_id.to_owned(), CallDirection::Outbound),
                            reason,
                        },
                    ),
                },
            );
        }
        let mut new = new_call_context(
            call_id,
            CallDirection::Outbound,
            self.config.output_sample_rate,
        );
        new.session.remote_uri = dest.to_owned();
        extract_x_headers(resp, &mut new.session);
        new.context.session = new.session.copy();
        new.context.client_dialog = true;
        Ok(new)
    }

    /// The media of an accepted call could not be set up: its dialog, where there is one, is to be
    /// ended, or the peer would wait for media that never comes, and its tasks are to stop.
    pub fn outbound_media_failed(&self, new: &NewCall, why: &str) -> (failed: FailedMedia)
        ensures
            failed.bye == new.context.client_dialog,
            failed.cancel,
            failed.event@ == (EventView::CallTerminated {
                session: new.context.session@,
                reason: "rtp_setup_failed: "@ + why@,
            }),
    {
        FailedMedia {
            bye: new.context.client_dialog,
            cancel: true,
            event: EndpointEvent::CallTerminated {
                session: new.context.session.copy(),
                reason: joined("rtp_setup_failed: ", why),
            },
        }
    }

    /// An accepted call has its media: it is filed, and reported with the session that signalling
    /// made.
    pub fn call_established(&mut self, new: NewCall, local_sdp: String) -> (event: EndpointEvent)
        ensures
            final(self)@ == old(self)@.with_call(
                new.session@.call_id,
                CallView { local_sdp: Some(local_sdp@), ..new.context@ },
            ),
            event@ == (EventView::CallStateChanged { session: new.session@ }),
    {
        let NewCall { mut context, session, voice: _, background: _ } = new;
        context.local_sdp = Some(local_sdp);
        let id = session.call_id.clone();
        self.put_call(id, context);
        EndpointEvent::CallStateChanged { session }
    }

    /// A call came in, and is given an id made of a random number.
    pub fn handle_incoming(&mut self, req: &Request) -> (ringing: Ringing)
        ensures
            exists|n: u64|
                rings(old(self)@, final(self)@, #[trigger] call_id(n), req.headers@, ringing),
    {
        let id = random_call_id();
        self.incoming_call(id.as_str(), req)
    }

    /// A call came in, under the given id.
    pub fn incoming_call(&mut self, id: &str, req: &Request) -> (ringing: Ringing)
        ensures
            rings(old(self)@, final(self)@, id@, req.headers@, ringing),
    {
        let NewCall { mut context, mut session, voice, background } = new_call_context(
            id,
            CallDirection::Inbound,
            self.config.output_sample_rate,
        );
        if let Some(line) = caller_of(req) {
            session.remote_uri = line;
        }
        extract_x_headers_from_request(req, &mut session);
        context.session = session.copy();
        context.server_dialog = true;
        self.put_call(id.to_owned(), context);
        let event = EndpointEvent::CallRinging { session: session.copy() };
        Ringing { session, voice, background, event }
    }

    /// Where media for an incoming call is announced: the public address, and the host of our end
    /// of the connection.
    pub fn answer_from(&self) -> (r: (Option<NetAddr>, String))
        ensures
            r.0 == self@.public_addr,
            r.1@ == (match self@.local_addr {
                Some(local) => local.host,
                None => "0.0.0.0"@,
            }),
    {
        let host = match &self.local_addr {
            Some(local) => local.host.clone(),
            None => "0.0.0.0".to_owned(),
        };
        (self.public_addr, host)
    }

    /// Attaches the media that was agreed on to an incoming call, which is then to be accepted with
    /// the description of our side.
    pub fn auto_answer_inbound(&mut self, call_id: &str, answer: &SdpAnswer, local_sdp: String) -> (r:
        Result<Attached, EndpointError>)
        ensures
            !old(self)@.has(call_id@) ==> {
                &&& r is Err
                &&& r->Err_0@ == ErrorView::CallNotActive(call_id@)
                &&& final(self)@ == old(self)@
            },
            old(self)@.has(call_id@) ==> {
                let call = old(self)@.calls[call_id@];
                if call.server_dialog {
                    &&& r is Ok
                    &&& call.attaches(
                        *answer,
                        old(self)@.config.input_sample_rate,
                        old(self)@.config.output_sample_rate,
                        r->Ok_0,
                    )
                    &&& final(self)@ == old(self)@.with_call(
                        call_id@,
                        CallView { local_sdp: Some(local_sdp@), ..call.confirmed() },
                    )
                } else {
                    &&& r is Err
                    &&& r->Err_0@ == ErrorView::Other("no server_dialog"@)
                    &&& final(self)@ == old(self)@
                }
            },
    {
        let ctx = self.with_call(call_id)?;
        if !ctx.server_dialog {
            return Err(other("no server_dialog"));
        }
        match self.take_call(call_id) {
            Some((id, mut ctx)) => {
                let attached = setup_rtp_attach(
                    &mut ctx,
                    answer,
                    self.config.input_sample_rate,
                    self.config.output_sample_rate,
                );
                ctx.local_sdp = Some(local_sdp);
                self.put_call(id, ctx);
                Ok(attached)
            },
            None => Err(not_active(call_id)),
        }
    }

    /// An incoming call could not be answered: it is let go and its tasks are to stop, unless it
    /// already was.
    pub fn auto_answer_failed(&mut self, call_id: &str, why: &str) -> (failed: Option<FailedAnswer>)
        ensures
            final(self)@ == old(self)@.without_call(call_id@),
            match failed {
                Some(f) => {
                    let call = old(self)@.calls[call_id@];
                    &&& old(self)@.has(call_id@)
                    &&& f.reject == call.server_dialog
                    &&& f.cancel
                    &&& f.event@ == (EventView::CallTerminated {
                        session: call.session,
                        reason: "auto_answer_failed: "@ + why@,
                    })
                },
                None => !old(self)@.has(call_id@),
            },
    {
        match self.take_call(call_id) {
            Some((_, ctx)) => Some(
                FailedAnswer {
                    cancel: true,
                    reject: ctx.server_dialog,
                    event: EndpointEvent::CallTerminated {
                        session: ctx.session,
                        reason: joined("auto_answer_failed: ", why),
                    },
                },
            ),
            None => None,
        }
    }

    /// Nothing is left to do here: incoming calls are answered as they come in.
    pub fn answer(&self, call_id: &str, code: u16) -> (r: Result<(), EndpointError>)
        ensures
            r is Ok,
    {
        Ok(())
    }

    /// Terminates a call that has not ended, and reports it. The call stays until it is hung up.
    pub fn terminate_sip_call(&mut self, call_id: &str, reason: String) -> (event: Option<
        EndpointEvent,
    >)
        ensures
            final(self)@ == old(self)@.terminated(call_id@),
            event_view(event) == old(self)@.termination(call_id@, reason@),
    {
        match self.take_call(call_id) {
            Some((id, mut ctx)) => {
                let event: Option<EndpointEvent> = if ctx.terminated {
                    None
                } else {
                    ctx.terminated = true;
                    ctx.cancelled = true;
                    Some(EndpointEvent::CallTerminated { session: ctx.session.copy(), reason })
                };
                self.put_call(id, ctx);
                event
            },
            None => None,
        }
    }

    /// Terminates a call, where it has not ended, and lets it go. The tasks of one that had not
    /// ended are to stop.
    pub fn hangup(&mut self, call_id: &str) -> (h: Hangup)
        ensures
            final(self)@ == old(self)@.without_call(call_id@),
            event_view(h.event) == old(self)@.termination(call_id@, "local hangup"@),
            h.bye == old(self)@.farewell(call_id@),
            h.cancel == old(self)@.active(call_id@),
            old(self)@.has(call_id@) && old(self)@.calls[call_id@].client_dialog ==> h.bye == Some(
                DialogSide::Client,
            ),
            old(self)@.has(call_id@) && !old(self)@.calls[call_id@].client_dialog && old(
                self,
            )@.calls[call_id@].server_dialog ==> h.bye == Some(DialogSide::Server),
            h.bye is None <==> !old(self)@.has(call_id@) || (!old(
                self,
            )@.calls[call_id@].client_dialog && !old(self)@.calls[call_id@].server_dialog),
            h.event is Some <==> old(self)@.has(call_id@) && !old(
                self,
            )@.calls[call_id@].terminated,
            h.cancel <==> h.event is Some,
            !final(self)@.has(call_id@),
    {
        let event = self.terminate_sip_call(call_id, "local hangup".to_owned());
        let cancel: bool = event.is_some();
        match self.take_call(call_id) {
            Some((_, ctx)) => Hangup { cancel, event, bye: ctx.dialog() },
            None => Hangup { cancel, event, bye: None },
        }
    }

    /// Refuses a call with the given status and lets it go. Its tasks stop when its
    /// dialog ends.
    pub fn reject(&mut self, call_id: &str, code: u16) -> (r: Result<Rejection, EndpointError>)
        ensures
            final(self)@ == old(self)@.without_call(call_id@),
            match r {
                Ok(rejection) => {
                    let call = old(self)@.calls[call_id@];
                    &&& old(self)@.has(call_id@)
                    &&& rejection.reject == call.server_dialog
                    &&& !rejection.cancel
                    &&& rejection.event@ == (EventView::CallTerminated {
                        session: call.session,
                        reason: "Rejected "@ + decimal(code as nat),
                    })
                },
                Err(e) => !old(self)@.has(call_id@) && e@ == ErrorView::CallNotActive(call_id@),
            },
    {
        match self.take_call(call_id) {
            Some((_, ctx)) => Ok(
                Rejection {
                    reject: ctx.server_dialog,
                    cancel: false,
                    event: EndpointEvent::CallTerminated {
                        session: ctx.session,
                        reason: joined("Rejected ", decimal_text(code as u64).as_str()),
                    },
                },
            ),
            None => Err(not_active(call_id)),
        }
    }

    /// Takes in what is heard while the dialog of a call is watched. A refresh is answered with the
    /// session unchanged; the end of the dialog terminates the call.
    pub fn watch_dialog(&mut self, call_id: &str, direction: CallDirection, heard: DialogEvent) -> (step:
        WatchStep)
        ensures
            match heard {
                DialogEvent::Cancelled | DialogEvent::Closed => step is Stop && final(self)@ == old(
                    self,
                )@,
                DialogEvent::Other => step is Continue && final(self)@ == old(self)@,
                DialogEvent::Updated => {
                    &&& step is Respond
                    &&& text_view(step->Respond_sdp) == old(self)@.described(call_id@)
                    &&& final(self)@ == old(self)@
                },
                DialogEvent::Terminated { reason, text } => {
                    &&& step is Ended
                    &&& step->Ended_side@ == termination_label(reason, direction)
                    &&& event_view(step->Ended_event) == old(self)@.termination(call_id@, text@)
                    &&& final(self)@ == old(self)@.ended(call_id@)
                },
            },
    {
        match heard {
            DialogEvent::Cancelled | DialogEvent::Closed => WatchStep::Stop,
            DialogEvent::Other => WatchStep::Continue,
            DialogEvent::Updated => WatchStep::Respond {
                sdp: match self.calls.get(call_id) {
                    Some(ctx) => copy_text(&ctx.local_sdp),
                    None => None,
                },
            },
            DialogEvent::Terminated { reason, text } => {
                let side = classify_termination(&reason, direction);
                let event = self.terminate_sip_call(call_id, text);
                if let Some((id, mut ctx)) = self.take_call(call_id) {
                    ctx.cancelled = true;
                    self.put_call(id, ctx);
                }
                WatchStep::Ended { side, event }
            },
        }
    }

    /// A refresh of the session is due. Nothing is sent, and no more refreshes are due, once the
    /// call is gone or where our side has no description.
    pub fn refresh(&self, call_id: &str) -> (r: Option<Refresh>)
        ensures
            match r {
                Some(refresh) => {
                    &&& self@.described(call_id@) == Some(refresh.sdp@)
                    &&& refresh.dialog == self@.calls[call_id@].dialog()
                },
                None => self@.described(call_id@) is None,
            },
    {
        match self.calls.get(call_id) {
            Some(ctx) => match &ctx.local_sdp {
                Some(sdp) => Some(Refresh { sdp: sdp.clone(), dialog: ctx.dialog() }),
                None => None,
            },
            None => None,
        }
    }

    /// The media of a call was lost. That is reported and terminates the call, unless the call had
    /// ended before: by its own state where it is still here, and by `terminated`, which the receive
    /// loop keeps for a call that may be gone.
    pub fn media_timeout(&mut self, call_id: &str, l: &RecvLoop, terminated: bool) -> (event: Option<
        EndpointEvent,
    >)
        ensures
            event_view(event) == old(self)@.silence_report(call_id@, l.session@, terminated),
            final(self)@ == old(self)@.silenced(call_id@, terminated),
    {
        let over: bool = match self.calls.get(call_id) {
            Some(ctx) => ctx.terminated,
            None => false,
        };
        let event = l.media_timeout(terminated || over);
        if event.is_some() {
            if let Some((id, mut ctx)) = self.take_call(call_id) {
                ctx.terminated = true;
                ctx.cancelled = true;
                self.put_call(id, ctx);
            }
        }
        event
    }
}

/// A call ends once: once terminated, terminating it again or hanging it up reports nothing, and
/// terminating it again changes nothing.
pub proof fn a_call_ends_once(e: EndpointView, id: Seq<char>, reason: Seq<char>)
    ensures
        e.terminated(id).termination(id, reason) is None,
        e.terminated(id).terminated(id) == e.terminated(id),
{
}

/// Whoever notices the end of a call first reports it: once a call was terminated, its dialog ended
/// or its media was lost, none of the three reports anything more as long as the call is here.
pub proof fn the_end_is_reported_by_whoever_notices_first(
    e: EndpointView,
    id: Seq<char>,
    reason: Seq<char>,
    session: SessionView,
    terminated: bool,
)
    requires
        e.has(id),
    ensures
        e.terminated(id).settled(id, reason, session, terminated),
        e.ended(id).settled(id, reason, session, terminated),
        e.silenced(id, false).settled(id, reason, session, terminated),
{
}

/// The first of the three to notice the end of an active call does the same to it, whichever it is.
pub proof fn every_end_is_the_same_end(e: EndpointView, id: Seq<char>)
    requires
        e.active(id),
    ensures
        e.ended(id) == e.terminated(id),
        e.silenced(id, false) == e.terminated(id),
{
}

/// Terminating a call keeps it, with all that it holds, and its dialog can still be told when it is
/// hung up.
pub proof fn a_terminated_call_stays(e: EndpointView, id: Seq<char>)
    ensures
        e.terminated(id).calls.dom() == e.calls.dom(),
        e.terminated(id).farewell(id) == e.farewell(id),
        e.has(id) ==> e.terminated(id).calls[id].session == e.calls[id].session,
{
    assert(e.terminated(id).calls.dom() =~= e.calls.dom());
}

/// A call that was hung up is gone: hanging it up again reports nothing, tells nobody and changes
/// nothing.
pub proof fn a_hung_up_call_is_gone(e: EndpointView, id: Seq<char>, reason: Seq<char>)
    ensures
        !e.without_call(id).has(id),
        e.without_call(id).termination(id, reason) is None,
        e.without_call(id).farewell(id) is None,
        e.without_call(id).without_call(id) == e.without_call(id),
{
    assert(e.calls.remove(id).remove(id) =~= e.calls.remove(id));
}

/// Ending a call, one way or the other, touches no other call.
pub proof fn other_calls_are_untouched(e: EndpointView, id: Seq<char>, another: Seq<char>)
    requires
        id != another,
    ensures
        e.terminated(id).has(another) == e.has(another),
        e.without_call(id).has(another) == e.has(another),
        e.has(another) ==> e.terminated(id).calls[another] == e.calls[another]
            && e.without_call(id).calls[another] == e.calls[another],
{
}

/// Every call stays filed under the id that its session carries: at the beginning, when a call comes
/// in, when one is filed or changed under its id, and when one ends.
pub proof fn calls_stay_filed(
    e: EndpointView,
    config: EndpointConfig,
    id: Seq<char>,
    call: CallView,
    headers: Seq<SipHeader>,
    after: EndpointView,
    ringing: Ringing,
)
    requires
        e.filed(),
    ensures
        EndpointView::initial(config).filed(),
        e.terminated(id).filed(),
        e.without_call(id).filed(),
        call.session.call_id == id ==> e.with_call(id, call).filed(),
        rings(e, after, id, headers, ringing) ==> after.filed(),
{
}

/// Whoever is at the other end of a call is told when it is let go: on the dialog that we opened
/// where there is one, else on the peer's. Nobody is told only where there is no such call or it has
/// neither dialog.
pub proof fn the_peer_is_told_of_the_end(e: EndpointView, id: Seq<char>)
    ensures
        e.calls.dom().contains(id) && e.calls[id].client_dialog ==> e.farewell(id) == Some(
            DialogSide::Client,
        ),
        e.calls.dom().contains(id) && !e.calls[id].client_dialog && e.calls[id].server_dialog
            ==> e.farewell(id) == Some(DialogSide::Server),
        e.farewell(id) is None <==> !e.calls.dom().contains(id) || (!e.calls[id].client_dialog
            && !e.calls[id].server_dialog),
{
}

/// The end of a call is reported exactly where the call is here and has not ended, with its session
/// and the reason that was given.
pub proof fn the_end_of_an_active_call_is_reported(
    e: EndpointView,
    id: Seq<char>,
    reason: Seq<char>,
)
    ensures
        e.termination(id, reason) is Some <==> e.calls.dom().contains(id) && !e.calls[id].terminated,
        e.termination(id, reason) matches Some(event) ==> event is CallTerminated
            && event->CallTerminated_session == e.calls[id].session && event->reason == reason,
{
}

/// The loss of the media of a call is reported exactly where neither the receive loop nor the call
/// itself knows of its end, with the session that the loop keeps.
pub proof fn the_loss_of_media_is_reported(
    e: EndpointView,
    id: Seq<char>,
    session: SessionView,
    terminated: bool,
)
    ensures
        e.over(id) <==> e.calls.dom().contains(id) && e.calls[id].terminated,
        e.silence_report(id, session, terminated) is Some <==> !terminated && !(
        e.calls.dom().contains(id) && e.calls[id].terminated),
        e.silence_report(id, session, terminated) matches Some(event) ==> event is CallTerminated
            && event->CallTerminated_session == session && event->reason == "media timeout"@,
        e.silence_report(id, session, terminated) is None ==> e.silenced(id, terminated) == e,
        e.silence_report(id, session, terminated) is Some && e.has(id) ==> e.silenced(
            id,
            terminated,
        ).over(id),
{
}

/// A call that ends is marked as ended and its tasks are told to stop; nothing else of it changes,
/// and nothing but the call.
pub proof fn ending_a_call_marks_it_and_no_more(e: EndpointView, id: Seq<char>)
    requires
        e.calls.dom().contains(id),
    ensures
        ({
            let call = e.calls[id];
            let after = e.ended(id).calls[id];
            &&& e.ended(id).calls.dom() == e.calls.dom()
            &&& after.terminated
            &&& after.cancelled
            &&& after.session == call.session
            &&& after.media == call.media
            &&& after.muted == call.muted
            &&& after.paused == call.paused
            &&& after.held == call.held
            &&& after.beep_detection == call.beep_detection
            &&& after.recording == call.recording
            &&& after.resampler_rate == call.resampler_rate
            &&& after.client_dialog == call.client_dialog
            &&& after.server_dialog == call.server_dialog
            &&& after.local_sdp == call.local_sdp
            &&& e.ended(id) == (EndpointView { calls: e.calls.insert(id, after), ..e })
            &&& !call.terminated ==> e.terminated(id) == e.ended(id)
            &&& call.terminated ==> e.terminated(id) == e
        }),
{
    assert(e.ended(id).calls.dom() =~= e.calls.dom());
}

/// A call that is not here can neither end nor be described.
pub proof fn a_call_that_is_not_here_does_nothing(e: EndpointView, id: Seq<char>)
    requires
        !e.calls.dom().contains(id),
    ensures
        e.ended(id) == e,
        e.terminated(id) == e,
        e.described(id) is None,
{
}

/// The description of our side of a call is the one that is kept with it.
pub proof fn a_call_is_described_by_what_is_kept(e: EndpointView, id: Seq<char>)
    requires
        e.calls.dom().contains(id),
    ensures
        e.described(id) == e.calls[id].local_sdp,
{
}

/// A call can be placed exactly where there is a connection with our end of it known, and a
/// registration left a credential, a contact and an address of record. Without a connection, or
/// without our end of it, the endpoint is not initialised; without what a registration leaves, it
/// is not registered.
pub proof fn a_call_needs_connection_and_registration(e: EndpointView)
    ensures
        e.unready() is None <==> e.connected && e.credential is Some && e.contact_uri is Some
            && e.aor is Some && e.local_addr is Some,
        !e.connected ==> e.unready() == Some(ErrorView::NotInitialized),
        e.connected && (e.credential is None || e.contact_uri is None || e.aor is None)
            ==> e.unready() == Some(ErrorView::NotRegistered),
        e.connected && e.credential is Some && e.contact_uri is Some && e.aor is Some
            && e.local_addr is None ==> e.unready() == Some(ErrorView::NotInitialized),
{
}

/// A call names the caller that the application gives, where that can be read, and the address of
/// record where it gives none.
pub proof fn the_given_caller_comes_first(
    from: Option<Result<Seq<char>, Seq<char>>>,
    aor: Seq<char>,
)
    ensures
        from is None ==> named_caller(from, aor) == Ok::<Seq<char>, ErrorView>(aor),
        from matches Some(Ok(uri)) ==> named_caller(from, aor) == Ok::<Seq<char>, ErrorView>(uri),
        from matches Some(Err(why)) ==> named_caller(from, aor) == Err::<Seq<char>, ErrorView>(
            ErrorView::Other("invalid from_uri: "@ + why),
        ),
{
}

/// A call that we placed has the id it was given, goes out, waits for its media, and has whom we
/// called at its other end; its headers are those of the answer that are passed on.
pub proof fn an_outbound_call_names_whom_we_called(
    id: Seq<char>,
    dest: Seq<char>,
    headers: Seq<SipHeader>,
)
    ensures
        ({
            let session = outbound_session(id, dest, headers);
            &&& session.call_id == id
            &&& session.direction == CallDirection::Outbound
            &&& session.state == CallState::Pending
            &&& session.remote_uri == dest
            &&& session.extra_headers == with_passed_on(Map::empty(), headers)
            &&& session.call_uuid == call_uuid(session.extra_headers)
        }),
{
}

/// A call that came in has the id it was given, comes in, waits for its media, and has whoever
/// called at its other end, as the `From` header displays; its headers are those of the request that
/// are passed on.
pub proof fn an_inbound_call_names_who_called(id: Seq<char>, headers: Seq<SipHeader>)
    ensures
        ({
            let session = inbound_session(id, headers);
            &&& session.call_id == id
            &&& session.direction == CallDirection::Inbound
            &&& session.state == CallState::Pending
            &&& first_from(headers) matches Some(value) ==> session.remote_uri == "From: "@ + value
            &&& first_from(headers) is None ==> session.remote_uri.len() == 0
            &&& session.extra_headers == with_passed_on(Map::empty(), headers)
            &&& session.call_uuid == call_uuid(session.extra_headers)
        }),
{
}

/// An incoming call is filed under its id with the peer's dialog, not ended and without media yet,
/// and is reported as ringing with the session it is filed with; its queues are set up at the rate
/// that audio is supplied at. Nothing else changes.
pub proof fn an_incoming_call_is_filed_and_rings(
    before: EndpointView,
    after: EndpointView,
    id: Seq<char>,
    headers: Seq<SipHeader>,
    ringing: Ringing,
    another: Seq<char>,
)
    requires
        rings(before, after, id, headers, ringing),
    ensures
        after.calls.dom().contains(id),
        after.calls[id].session == inbound_session(id, headers),
        after.calls[id].server_dialog,
        !after.calls[id].client_dialog,
        !after.calls[id].terminated,
        !after.calls[id].cancelled,
        !after.calls[id].media,
        !after.calls[id].muted,
        !after.calls[id].paused,
        !after.calls[id].held,
        !after.calls[id].beep_detection,
        !after.calls[id].recording,
        after.calls[id].resampler_rate is None,
        after.calls[id].local_sdp is None,
        another != id ==> (after.calls.dom().contains(another) <==> before.calls.dom().contains(
            another,
        )),
        another != id && before.calls.dom().contains(another) ==> after.calls[another]
            == before.calls[another],
        after == (EndpointView { calls: after.calls, ..before }),
        ringing.session@ == after.calls[id].session,
        ringing.event is CallRinging,
        ringing.event->CallRinging_session@ == after.calls[id].session,
        ringing.voice.id@ == id,
        ringing.voice.queue_ms == 400,
        ringing.voice.sample_rate == before.config.output_sample_rate,
        ringing.background.id@ == id + "-bg"@,
        ringing.background.queue_ms == 200,
        ringing.background.sample_rate == before.config.output_sample_rate,
{
}

/// A call is placed to its destination with what the registration left, and carries the headers and
/// the id that the application gives, whatever they are.
pub proof fn a_call_is_placed_as_asked(
    e: SipEndpoint,
    out: OutboundCall,
    dest: Seq<char>,
    headers: Option<Vec<(String, String)>>,
    external_call_id: Option<Seq<char>>,
)
    requires
        e.places(out, dest, headers, external_call_id),
    ensures
        out.dest@ == dest,
        e.contact_uri is Some && out.contact@ == e.contact_uri->0@,
        e.credential is Some && out.credential.username@ == e.credential->0.username@
            && out.credential.password@ == e.credential->0.password@,
        e.local_addr is Some && out.local_host@ == e.local_addr->0.host@,
        out.public_addr == e.public_addr,
        out.headers == headers,
        out.external_call_id is Some <==> external_call_id is Some,
        out.external_call_id matches Some(id) ==> external_call_id == Some(id@),
{
}

/// A call that could not be answered is refused with the status of a server's error: 500, as the
/// protocol has it.
pub proof fn a_failed_answer_has_its_status()
    ensures
        SERVER_ERROR == 500,
        OK == 200,
{
}

} // verus!
