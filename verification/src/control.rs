//! Requests within a call: key presses, information, transfer and hold.

use crate::call::{CallView, DialogSide};
use crate::endpoint::SipEndpoint;
use crate::error::{other, EndpointError, ErrorView};
use crate::text::{a_text_contains_its_parts, chars_of, contains_text, occurs_at, replace, replace_absent, replace_all, replaced_pattern_is_gone, replacing_back_restores, replacing_goes_from_left_to_right, same_text, what_is_contained_is_a_part};
use crate::uri::{read_uri, uri_reading};
use vstd::prelude::*;
use vstd::string::*;

verus! {

/// Milliseconds that a key is pressed for, where it is sent as a telephone event.
pub const DTMF_DURATION_MS: u32 = 200;

/// What a session description is sent as.
pub const SDP_TYPE: &'static str = "application/sdp";

/// What a key press is sent as, where it goes by signalling.
pub const DTMF_RELAY_TYPE: &'static str = "application/dtmf-relay";

/// Key presses that are to be sent, one after the other.
pub enum DtmfPlan {
    /// By signalling, as bodies of type [`DTMF_RELAY_TYPE`], on the dialog where there is one.
    Info { dialog: Option<DialogSide>, bodies: Vec<String> },
    /// As telephone events of [`DTMF_DURATION_MS`] each, where there is media.
    Events { media: bool, digits: Vec<char> },
}

/// A piece of information that is to be sent on a dialog.
pub struct Info {
    pub dialog: DialogSide,
    pub content_type: String,
    pub body: String,
}

/// A transfer that is to be asked for on a dialog.
pub struct Transfer {
    pub dialog: DialogSide,
    pub uri: String,
}

/// A description, of type [`SDP_TYPE`], that is to be offered anew, on the dialog where there is
/// one.
pub struct Reinvite {
    pub dialog: Option<DialogSide>,
    pub sdp: String,
}

/// Whether a method of sending key presses goes by signalling.
pub open spec fn by_signalling(method: Seq<char>) -> bool {
    method == "sip_info"@ || method == "info"@
}

/// The body that tells of a key press.
pub open spec fn press(digit: char) -> Seq<char> {
    "Signal="@.push(digit) + "\r\nDuration=160\r\n"@
}

/// The description of a call put on hold: we send and do not listen.
pub open spec fn on_hold(sdp: Seq<char>) -> Seq<char> {
    replace_all(sdp, "a=sendrecv"@, "a=sendonly"@)
}

/// The description of a call taken off hold.
pub open spec fn off_hold(sdp: Seq<char>) -> Seq<char> {
    replace_all(replace_all(sdp, "a=sendonly"@, "a=sendrecv"@), "a=inactive"@, "a=sendrecv"@)
}

impl SipEndpoint {
    /// The key presses to send, as telephone events.
    pub fn send_dtmf(&self, call_id: &str, digits: &str) -> (r: Result<DtmfPlan, EndpointError>)
        ensures
            match r {
                Ok(plan) => {
                    &&& self@.has(call_id@)
                    &&& plan is Events
                    &&& plan->Events_media == self@.calls[call_id@].media
                    &&& plan->Events_digits@ == digits@
                },
                Err(e) => !self@.has(call_id@) && e@ == ErrorView::CallNotActive(call_id@),
            },
    {
        proof {
            reveal_strlit("rfc2833");
            reveal_strlit("sip_info");
            reveal_strlit("info");
            assert("rfc2833"@.len() == 7);
            assert("sip_info"@.len() == 8);
            assert("info"@.len() == 4);
        }
        self.send_dtmf_with_method(call_id, digits, "rfc2833")
    }

    /// The key presses to send, by the given method.
    pub fn send_dtmf_with_method(&self, call_id: &str, digits: &str, method: &str) -> (r: Result<
        DtmfPlan,
        EndpointError,
    >)
        ensures
            match r {
                Ok(plan) => {
                    let call = self@.calls[call_id@];
                    &&& self@.has(call_id@)
                    &&& if by_signalling(method@) {
                        &&& plan is Info
                        &&& plan->Info_dialog == call.dialog()
                        &&& plan->Info_bodies@.len() == digits@.len()
                        &&& forall|i: int|
                            0 <= i < digits@.len() ==> (#[trigger] plan->Info_bodies@[i])@
                                == press(digits@[i])
                    } else {
                        &&& plan is Events
                        &&& plan->Events_media == call.media
                        &&& plan->Events_digits@ == digits@
                    }
                },
                Err(e) => !self@.has(call_id@) && e@ == ErrorView::CallNotActive(call_id@),
            },
    {
        let ctx = self.with_call(call_id)?;
        let keys = chars_of(digits);
        if !same_text(method, "sip_info") && !same_text(method, "info") {
            return Ok(DtmfPlan::Events { media: ctx.media, digits: keys });
        }
        let mut bodies: Vec<String> = Vec::new();
        let mut i: usize = 0;
        while i < keys.len()
            invariant
                keys@ == digits@,
                i <= keys@.len(),
                bodies@.len() == i,
                forall|j: int| 0 <= j < i ==> (#[trigger] bodies@[j])@ == press(keys@[j]),
            decreases keys@.len() - i,
        {
            let mut body = "Signal=".to_owned();
            body.push(keys[i]);
            body.append("\r\nDuration=160\r\n");
            bodies.push(body);
            i += 1;
        }
        Ok(DtmfPlan::Info { dialog: ctx.dialog(), bodies })
    }

    /// The information to send: nothing where the call has no dialog.
    pub fn send_info(&self, call_id: &str, content_type: &str, body: &str) -> (r: Result<
        Option<Info>,
        EndpointError,
    >)
        ensures
            match r {
                Ok(info) => {
                    &&& self@.has(call_id@)
                    &&& match info {
                        Some(info) => {
                            &&& self@.calls[call_id@].dialog() == Some(info.dialog)
                            &&& info.content_type@ == content_type@
                            &&& info.body@ == body@
                        },
                        None => self@.calls[call_id@].dialog() is None,
                    }
                },
                Err(e) => !self@.has(call_id@) && e@ == ErrorView::CallNotActive(call_id@),
            },
    {
        let ctx = self.with_call(call_id)?;
        match ctx.dialog() {
            Some(dialog) => Ok(
                Some(
                    Info {
                        dialog,
                        content_type: content_type.to_owned(),
                        body: body.to_owned(),
                    },
                ),
            ),
            None => Ok(None),
        }
    }

    /// The transfer to ask for: nothing where the call has no dialog.
    pub fn transfer(&self, call_id: &str, dest_uri: &str) -> (r: Result<
        Option<Transfer>,
        EndpointError,
    >)
        ensures
            if !self@.has(call_id@) {
                r is Err && r->Err_0@ == ErrorView::CallNotActive(call_id@)
            } else {
                match (uri_reading(dest_uri@), self@.calls[call_id@].dialog()) {
                    (Err(why), _) => r is Err && r->Err_0@ == ErrorView::Other(why),
                    (Ok(uri), None) => r is Ok && r->Ok_0 is None,
                    (Ok(uri), Some(dialog)) => {
                        &&& r is Ok
                        &&& r->Ok_0 is Some
                        &&& r->Ok_0->Some_0.dialog == dialog
                        &&& r->Ok_0->Some_0.uri@ == uri
                    },
                }
            },
    {
        let ctx = self.with_call(call_id)?;
        let uri = read_uri(dest_uri)?;
        match ctx.dialog() {
            Some(dialog) => Ok(Some(Transfer { dialog, uri })),
            None => Ok(None),
        }
    }

    /// A transfer to another of our calls, which is not offered.
    pub fn transfer_attended(&self, call_id: &str, target: &str) -> (r: Result<(), EndpointError>)
        ensures
            r is Err,
            r->Err_0@ == ErrorView::Other("attended transfer not supported"@),
    {
        Err(other("attended transfer not supported"))
    }

    /// The description to offer to put a call on hold: nothing where it already is.
    pub fn hold(&self, call_id: &str) -> (r: Result<Option<Reinvite>, EndpointError>)
        ensures
            if !self@.has(call_id@) {
                r is Err && r->Err_0@ == ErrorView::CallNotActive(call_id@)
            } else {
                let call = self@.calls[call_id@];
                if call.held {
                    r is Ok && r->Ok_0 is None
                } else {
                    match call.local_sdp {
                        None => r is Err && r->Err_0@ == ErrorView::Other("no SDP"@),
                        Some(sdp) => {
                            &&& r is Ok
                            &&& r->Ok_0 is Some
                            &&& r->Ok_0->Some_0.dialog == call.dialog()
                            &&& r->Ok_0->Some_0.sdp@ == on_hold(sdp)
                        },
                    }
                }
            },
    {
        let ctx = self.with_call(call_id)?;
        if ctx.held {
            return Ok(None);
        }
        match &ctx.local_sdp {
            None => Err(other("no SDP")),
            Some(sdp) => {
                proof {
                    reveal_strlit("a=sendrecv");
                }
                let sdp = replace(sdp.as_str(), "a=sendrecv", "a=sendonly");
                Ok(Some(Reinvite { dialog: ctx.dialog(), sdp }))
            },
        }
    }

    /// The description to offer to take a call off hold: nothing where it is not on hold.
    pub fn unhold(&self, call_id: &str) -> (r: Result<Option<Reinvite>, EndpointError>)
        ensures
            if !self@.has(call_id@) {
                r is Err && r->Err_0@ == ErrorView::CallNotActive(call_id@)
            } else {
                let call = self@.calls[call_id@];
                if !call.held {
                    r is Ok && r->Ok_0 is None
                } else {
                    match call.local_sdp {
                        None => r is Err && r->Err_0@ == ErrorView::Other("no SDP"@),
                        Some(sdp) => {
                            &&& r is Ok
                            &&& r->Ok_0 is Some
                            &&& r->Ok_0->Some_0.dialog == call.dialog()
                            &&& r->Ok_0->Some_0.sdp@ == off_hold(sdp)
                        },
                    }
                }
            },
    {
        let ctx = self.with_call(call_id)?;
        if !ctx.held {
            return Ok(None);
        }
        match &ctx.local_sdp {
            None => Err(other("no SDP")),
            Some(sdp) => {
                proof {
                    reveal_strlit("a=sendonly");
                    reveal_strlit("a=inactive");
                }
                let sending = replace(sdp.as_str(), "a=sendonly", "a=sendrecv");
                let sdp = replace(sending.as_str(), "a=inactive", "a=sendrecv");
                Ok(Some(Reinvite { dialog: ctx.dialog(), sdp }))
            },
        }
    }

    /// The peer accepted the description that was offered: the call is on hold, or no longer.
    pub fn set_held(&mut self, call_id: &str, held: bool)
        ensures
            final(self)@ == if old(self)@.has(call_id@) {
                old(self)@.with_call(call_id@, CallView { held, ..old(self)@.calls[call_id@] })
            } else {
                old(self)@
            },
    {
        if let Some((id, mut ctx)) = self.take_call(call_id) {
            ctx.held = held;
            self.put_call(id, ctx);
        }
    }
}

/// What is offered to put a call on hold never offers to send and receive.
pub proof fn a_held_call_does_not_listen(sdp: Seq<char>)
    ensures
        !contains_text(on_hold(sdp), "a=sendrecv"@),
{
    reveal_strlit("a=sendrecv");
    reveal_strlit("a=sendonly");
    replaced_pattern_is_gone(sdp, "a=sendrecv"@, "a=sendonly"@, 6);
}

/// Taking a call off hold offers the description that it was made with, where that one offered to
/// send and receive in the first place.
pub proof fn unhold_offers_what_was_agreed(sdp: Seq<char>)
    requires
        !contains_text(sdp, "a=sendonly"@),
        !contains_text(sdp, "a=inactive"@),
    ensures
        off_hold(sdp) == sdp,
{
    replace_absent(sdp, "a=sendonly"@, "a=sendrecv"@);
    replace_absent(sdp, "a=inactive"@, "a=sendrecv"@);
}

/// Key presses go by signalling where the method is `sip_info` or `info`, and as telephone events
/// where it is anything else.
pub proof fn two_methods_go_by_signalling(method: Seq<char>)
    ensures
        by_signalling(method) <==> method == "sip_info"@ || method == "info"@,
        !by_signalling("rfc2833"@),
{
    reveal_strlit("rfc2833");
    reveal_strlit("sip_info");
    reveal_strlit("info");
    assert("rfc2833"@.len() == 7);
    assert("sip_info"@.len() == 8);
    assert("info"@.len() == 4);
}

/// The body that tells of a key press names the key behind `Signal=` and its length on a line of its
/// own; different keys have different bodies.
pub proof fn a_key_press_names_its_key(digit: char, another: char)
    ensures
        press(digit).take(7) == "Signal="@,
        press(digit)[7] == digit,
        press(digit).skip(8) == "\r\nDuration=160\r\n"@,
        press(digit) == press(another) ==> digit == another,
{
    reveal_strlit("Signal=");
    assert(press(digit)[7] == digit);
    assert(press(another)[7] == another);
    assert(press(digit).take(7) =~= "Signal="@);
    assert(press(digit).skip(8) =~= "\r\nDuration=160\r\n"@);
}

/// Putting a call on hold offers to send where the description offered to send and receive, in every
/// place, and leaves the rest of it as it is.
pub proof fn holding_offers_to_send_only(before: Seq<char>, after: Seq<char>)
    requires
        forall|k: int|
            0 <= k < before.len() ==> !#[trigger] occurs_at(
                before + "a=sendrecv"@ + after,
                "a=sendrecv"@,
                k,
            ),
    ensures
        on_hold(before + "a=sendrecv"@ + after) == before + "a=sendonly"@ + on_hold(after),
        !contains_text(before, "a=sendrecv"@) ==> on_hold(before) == before,
{
    reveal_strlit("a=sendrecv");
    replacing_goes_from_left_to_right(before, "a=sendrecv"@, after, "a=sendonly"@);
    if !contains_text(before, "a=sendrecv"@) {
        replace_absent(before, "a=sendrecv"@, "a=sendonly"@);
    }
}

/// Taking a call off hold undoes putting it on hold, where the description offered neither to send
/// only nor nothing at all.
pub proof fn taking_off_hold_undoes_holding(sdp: Seq<char>)
    requires
        !contains_text(sdp, "a=sendonly"@),
        !contains_text(sdp, "a=inactive"@),
    ensures
        off_hold(on_hold(sdp)) == sdp,
{
    reveal_strlit("a=sendrecv");
    reveal_strlit("a=sendonly");
    replacing_back_restores(sdp, "a=sendrecv"@, "a=sendonly"@);
    replace_absent(sdp, "a=inactive"@, "a=sendrecv"@);
}

/// Taking a call off hold offers to send and receive where the description offered nothing at all,
/// in every place.
pub proof fn an_inactive_call_is_taken_off_hold(before: Seq<char>, after: Seq<char>)
    requires
        !contains_text(before + "a=inactive"@ + after, "a=sendonly"@),
        forall|k: int|
            0 <= k < before.len() ==> !#[trigger] occurs_at(
                before + "a=inactive"@ + after,
                "a=inactive"@,
                k,
            ),
    ensures
        off_hold(before + "a=inactive"@ + after) == before + "a=sendrecv"@ + off_hold(after),
{
    let sdp = before + "a=inactive"@ + after;
    reveal_strlit("a=inactive");
    replace_absent(sdp, "a=sendonly"@, "a=sendrecv"@);
    assert(!contains_text(after, "a=sendonly"@)) by {
        if contains_text(after, "a=sendonly"@) {
            let parts = what_is_contained_is_a_part(after, "a=sendonly"@);
            a_text_contains_its_parts(before + "a=inactive"@ + parts.0, "a=sendonly"@, parts.1);
            assert(sdp =~= before + "a=inactive"@ + parts.0 + "a=sendonly"@ + parts.1);
        }
    }
    replace_absent(after, "a=sendonly"@, "a=sendrecv"@);
    replacing_goes_from_left_to_right(before, "a=inactive"@, after, "a=sendrecv"@);
}

/// A key press that is sent as a telephone event lasts two hundred milliseconds; bodies are sent
/// under the types that the protocol has for them.
pub proof fn bodies_have_their_types()
    ensures
        DTMF_DURATION_MS == 200,
        SDP_TYPE@ == "application/sdp"@,
        DTMF_RELAY_TYPE@ == "application/dtmf-relay"@,
{
}

} // verus!
