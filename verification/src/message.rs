//! What is read from SIP messages.

use crate::session::{text_view, CallDirection, CallSession, SessionView};
use crate::text::{a_number_before_a_semicolon_reads_back, before_first, decimal, eq_ignore_ascii_case, leading_number, number, occurs_at, same_ignoring_case, starts_with, trimmed};
use rsip::headers::UntypedHeader;
use vstd::prelude::*;
use vstd::string::*;

verus! {

/// A header of a message.
pub enum SipHeader {
    From(String),
    To(String),
    /// Any other header that SIP defines.
    Defined { name: String, value: String },
    /// A header under a name that SIP does not define.
    Other(String, String),
}

/// A SIP request.
pub struct Request {
    pub headers: Vec<SipHeader>,
    pub body: Vec<u8>,
}

/// A SIP response. `reason` is the phrase that came with the status code.
pub struct Response {
    pub code: u16,
    pub reason: String,
    pub headers: Vec<SipHeader>,
    pub body: Vec<u8>,
}

/// The tag in the value of a `To` header: nothing where there is none or the value is malformed.
pub uninterp spec fn to_tag(value: Seq<char>) -> Option<Seq<char>>;

/// `rsip::headers::To::tag`, with an error taken for the lack of a tag: a function of the header's
/// value.
#[verifier::external_body]
fn tag_of_to(value: &str) -> (tag: Option<String>)
    ensures
        text_view(tag) == to_tag(value@),
{
    let tag = rsip::headers::To::new(value).tag().ok().flatten()?;
    Some(tag.value().to_string())
}

/// The `Display` of `rsip::headers::From`: the header's name, a colon, a space and its value.
#[verifier::external_body]
fn from_line(value: &str) -> (line: String)
    ensures
        line@ == "From: "@ + value@,
{
    rsip::headers::From::new(value).to_string()
}

/// A status line as `rsip` displays it.
pub uninterp spec fn status_line(code: u16, reason: Seq<char>) -> Seq<char>;

/// The `Display` of the `rsip::StatusCode` that a response with this code and phrase has: a
/// function of the two.
#[verifier::external_body]
pub(crate) fn status_text(code: u16, reason: &str) -> (line: String)
    ensures
        line@ == status_line(code, reason@),
{
    match rsip::StatusCode::from(code) {
        rsip::StatusCode::Other(code, _) => rsip::StatusCode::Other(code, reason.to_string()).to_string(),
        known => known.to_string(),
    }
}

/// The value of the first `To` header.
pub open spec fn first_to(headers: Seq<SipHeader>) -> Option<Seq<char>>
    decreases headers.len(),
{
    if headers.len() == 0 {
        None
    } else {
        match headers[0] {
            SipHeader::To(value) => Some(value@),
            _ => first_to(headers.skip(1)),
        }
    }
}

/// The value of the first `From` header.
pub open spec fn first_from(headers: Seq<SipHeader>) -> Option<Seq<char>>
    decreases headers.len(),
{
    if headers.len() == 0 {
        None
    } else {
        match headers[0] {
            SipHeader::From(value) => Some(value@),
            _ => first_from(headers.skip(1)),
        }
    }
}

/// Whether the first `To` header carries a tag.
pub open spec fn in_dialog(headers: Seq<SipHeader>) -> bool {
    match first_to(headers) {
        Some(value) => to_tag(value) is Some,
        None => false,
    }
}

/// Whether a request carries a To tag, that is, targets an established dialog rather than forming
/// a new one.
pub fn has_established_dialog_tag(req: &Request) -> (tagged: bool)
    ensures
        tagged == in_dialog(req.headers@),
{
    let mut i: usize = 0;
    assert(req.headers@.skip(0) =~= req.headers@);
    while i < req.headers.len()
        invariant
            i <= req.headers@.len(),
            first_to(req.headers@) == first_to(req.headers@.skip(i as int)),
        decreases req.headers@.len() - i,
    {
        assert(req.headers@.skip(i as int).skip(1) =~= req.headers@.skip(i + 1));
        if let SipHeader::To(value) = &req.headers[i] {
            return has_tag(tag_of_to(value.as_str()));
        }
        i += 1;
    }
    false
}

/// Whether a header that was read for its tag has one.
pub fn has_tag(tag: Option<String>) -> (tagged: bool)
    ensures
        tagged == (tag is Some),
{
    tag.is_some()
}

/// Who called, as the `From` header displays, where the request has one.
pub fn caller_of(req: &Request) -> (line: Option<String>)
    ensures
        text_view(line) == (match first_from(req.headers@) {
            Some(value) => Some("From: "@ + value),
            None => None,
        }),
{
    let mut i: usize = 0;
    assert(req.headers@.skip(0) =~= req.headers@);
    while i < req.headers.len()
        invariant
            i <= req.headers@.len(),
            first_from(req.headers@) == first_from(req.headers@.skip(i as int)),
        decreases req.headers@.len() - i,
    {
        assert(req.headers@.skip(i as int).skip(1) =~= req.headers@.skip(i + 1));
        if let SipHeader::From(value) = &req.headers[i] {
            return Some(from_line(value.as_str()));
        }
        i += 1;
    }
    None
}

/// Whether a header name is one of those passed on to the application.
pub open spec fn passed_on(name: Seq<char>) -> bool {
    occurs_at(name, "X-"@, 0) || occurs_at(name, "x-"@, 0)
}

/// The passed on headers of a message added to `known`, a later one taking the place of an earlier
/// one of the same name.
pub open spec fn with_passed_on(
    known: Map<Seq<char>, Seq<char>>,
    headers: Seq<SipHeader>,
) -> Map<Seq<char>, Seq<char>>
    decreases headers.len(),
{
    if headers.len() == 0 {
        known
    } else {
        let before = with_passed_on(known, headers.drop_last());
        match headers.last() {
            SipHeader::Other(name, value) => if passed_on(name@) {
                before.insert(name@, value@)
            } else {
                before
            },
            _ => before,
        }
    }
}

/// The id that the peer gives the call, among its headers.
pub open spec fn call_uuid(headers: Map<Seq<char>, Seq<char>>) -> Option<Seq<char>> {
    if headers.dom().contains("X-CallUUID"@) {
        Some(headers["X-CallUUID"@])
    } else if headers.dom().contains("X-Plivo-CallUUID"@) {
        Some(headers["X-Plivo-CallUUID"@])
    } else {
        None
    }
}

impl SessionView {
    /// The session after a message with these headers.
    pub open spec fn with_headers(self, headers: Seq<SipHeader>) -> SessionView {
        let extra = with_passed_on(self.extra_headers, headers);
        SessionView {
            extra_headers: extra,
            call_uuid: if self.call_uuid is None {
                call_uuid(extra)
            } else {
                self.call_uuid
            },
            ..self
        }
    }
}

/// Only headers that are passed on are added, and none is lost.
pub proof fn only_passed_on_headers_are_added(
    known: Map<Seq<char>, Seq<char>>,
    headers: Seq<SipHeader>,
    name: Seq<char>,
)
    ensures
        known.dom().contains(name) ==> with_passed_on(known, headers).dom().contains(name),
        with_passed_on(known, headers).dom().contains(name) ==> known.dom().contains(name)
            || passed_on(name),
        !passed_on(name) && known.dom().contains(name) ==> with_passed_on(known, headers)[name]
            == known[name],
    decreases headers.len(),
{
    if headers.len() > 0 {
        only_passed_on_headers_are_added(known, headers.drop_last(), name);
    }
}

/// The id that the peer gives a call is kept once it is known.
pub proof fn the_call_uuid_is_kept(session: SessionView, headers: Seq<SipHeader>)
    requires
        session.call_uuid is Some,
    ensures
        session.with_headers(headers).call_uuid == session.call_uuid,
{
}

fn add_headers(headers: &Vec<SipHeader>, session: &mut CallSession)
    ensures
        final(session)@ == old(session)@.with_headers(headers@),
{
    let ghost known = session.extra_headers.texts();
    let ghost start = session@;
    let mut i: usize = 0;
    while i < headers.len()
        invariant
            i <= headers@.len(),
            session.extra_headers.texts() == with_passed_on(known, headers@.take(i as int)),
            session@ == (SessionView { extra_headers: session.extra_headers.texts(), ..start }),
        decreases headers@.len() - i,
    {
        assert(headers@.take(i + 1).drop_last() =~= headers@.take(i as int));
        if let SipHeader::Other(name, value) = &headers[i] {
            if starts_with(name.as_str(), "X-") || starts_with(name.as_str(), "x-") {
                let ghost before = session.extra_headers@;
                session.extra_headers.insert(name.clone(), value.clone());
                assert(session.extra_headers.texts() =~= before.map_values(
                    |v: String| v@,
                ).insert(name@, value@));
            }
        }
        i += 1;
    }
    assert(headers@.take(headers@.len() as int) =~= headers@);
    if session.call_uuid.is_none() {
        session.call_uuid = match session.extra_headers.get("X-CallUUID") {
            Some(id) => Some(id.clone()),
            None => match session.extra_headers.get("X-Plivo-CallUUID") {
                Some(id) => Some(id.clone()),
                None => None,
            },
        };
    }
}

/// Adds the headers of a response that are passed on to the session, and with them the id that the
/// peer gives the call, where the session has none yet.
pub fn extract_x_headers(resp: &Response, session: &mut CallSession)
    ensures
        final(session)@ == old(session)@.with_headers(resp.headers@),
{
    add_headers(&resp.headers, session)
}

/// The same for a request.
pub fn extract_x_headers_from_request(req: &Request, session: &mut CallSession)
    ensures
        final(session)@ == old(session)@.with_headers(req.headers@),
{
    add_headers(&req.headers, session)
}

/// The seconds that the first `Session-Expires` header gives: nothing where there is no such header
/// or where its value does not begin with a number.
pub open spec fn session_expires(headers: Seq<SipHeader>) -> Option<u32>
    decreases headers.len(),
{
    if headers.len() == 0 {
        None
    } else {
        match headers[0] {
            SipHeader::Other(name, value) => if same_ignoring_case(name@, "Session-Expires"@) {
                number(trimmed(before_first(value@, ';')))
            } else {
                session_expires(headers.skip(1))
            },
            _ => session_expires(headers.skip(1)),
        }
    }
}

pub fn parse_session_expires(resp: &Response) -> (secs: Option<u32>)
    ensures
        secs == session_expires(resp.headers@),
{
    let mut i: usize = 0;
    assert(resp.headers@.skip(0) =~= resp.headers@);
    while i < resp.headers.len()
        invariant
            i <= resp.headers@.len(),
            session_expires(resp.headers@) == session_expires(resp.headers@.skip(i as int)),
        decreases resp.headers@.len() - i,
    {
        assert(resp.headers@.skip(i as int).skip(1) =~= resp.headers@.skip(i + 1));
        if let SipHeader::Other(name, value) = &resp.headers[i] {
            if eq_ignore_ascii_case(name.as_str(), "Session-Expires") {
                return leading_number(value.as_str());
            }
        }
        i += 1;
    }
    None
}

/// Why a dialog ended. The caller is whoever sent the first request, the callee whoever received
/// it; numbers are status codes.
#[derive(Clone, Copy, Debug, PartialEq, Eq, Structural)]
pub enum TerminatedReason {
    Timeout,
    UacCancel,
    UacBye,
    UasBye,
    UacBusy,
    UasBusy,
    UasDecline,
    ProxyError(u16),
    ProxyAuthRequired,
    UacOther(u16),
    UasOther(u16),
}

/// Whether the caller ended the dialog, or the callee; neither did on a timeout or where a proxy
/// refused.
pub open spec fn ended_by_caller(reason: TerminatedReason) -> Option<bool> {
    match reason {
        TerminatedReason::UacBye
        | TerminatedReason::UacCancel
        | TerminatedReason::UacBusy
        | TerminatedReason::UacOther(_) => Some(true),
        TerminatedReason::UasBye
        | TerminatedReason::UasBusy
        | TerminatedReason::UasDecline
        | TerminatedReason::UasOther(_) => Some(false),
        _ => None,
    }
}

/// Which side ended a call. We are the caller of an outbound call and the callee of an inbound one.
pub open spec fn termination_label(reason: TerminatedReason, direction: CallDirection) -> Seq<
    char,
> {
    match ended_by_caller(reason) {
        Some(caller) => if caller == (direction == CallDirection::Outbound) {
            "locally"@
        } else {
            "by remote"@
        },
        None => if reason == TerminatedReason::Timeout {
            "by timeout"@
        } else {
            "by proxy"@
        },
    }
}

/// Classify why a call ended, seen from our side: "locally", "by remote", "by timeout" or
/// "by proxy".
pub fn classify_termination(reason: &TerminatedReason, direction: CallDirection) -> (label:
    &'static str)
    ensures
        label@ == termination_label(*reason, direction),
{
    let by_caller: Option<bool> = match reason {
        TerminatedReason::UacBye
        | TerminatedReason::UacCancel
        | TerminatedReason::UacBusy
        | TerminatedReason::UacOther(_) => Some(true),
        TerminatedReason::UasBye
        | TerminatedReason::UasBusy
        | TerminatedReason::UasDecline
        | TerminatedReason::UasOther(_) => Some(false),
        TerminatedReason::Timeout
        | TerminatedReason::ProxyError(_)
        | TerminatedReason::ProxyAuthRequired => None,
    };
    match (by_caller, direction) {
        (Some(true), CallDirection::Outbound) => "locally",
        (Some(true), CallDirection::Inbound) => "by remote",
        (Some(false), CallDirection::Outbound) => "by remote",
        (Some(false), CallDirection::Inbound) => "locally",
        (None, _) => match reason {
            TerminatedReason::Timeout => "by timeout",
            _ => "by proxy",
        },
    }
}

/// What one side of a call ended locally, the other side sees ended by its remote; a timeout or a
/// proxy's refusal looks the same from both sides.
pub proof fn both_sides_agree_on_who_ended(reason: TerminatedReason)
    ensures
        ({
            let ours = termination_label(reason, CallDirection::Outbound);
            let theirs = termination_label(reason, CallDirection::Inbound);
            &&& ours == "locally"@ <==> theirs == "by remote"@
            &&& ours == "by remote"@ <==> theirs == "locally"@
            &&& ours == "by timeout"@ <==> theirs == "by timeout"@
            &&& ours == "by proxy"@ <==> theirs == "by proxy"@
        }),
{
    reveal_strlit("locally");
    reveal_strlit("by remote");
    reveal_strlit("by timeout");
    reveal_strlit("by proxy");
    assert("locally"@.len() == 7);
    assert("by remote"@.len() == 9);
    assert("by timeout"@.len() == 10);
    assert("by proxy"@.len() == 8);
}

/// The first `To` header of a message is the one that counts, whatever stands around it, and a
/// message without one has none. Whether a request belongs to a dialog is read from that header.
pub proof fn the_first_to_header_counts(headers: Seq<SipHeader>, i: int)
    requires
        forall|j: int| 0 <= j < i ==> !(#[trigger] headers[j] is To),
        0 <= i <= headers.len(),
        i < headers.len() ==> headers[i] is To,
    ensures
        i < headers.len() ==> first_to(headers) == Some(headers[i]->To_0@),
        i < headers.len() ==> (in_dialog(headers) <==> to_tag(headers[i]->To_0@) is Some),
        i == headers.len() ==> first_to(headers) is None && !in_dialog(headers),
    decreases i,
{
    if i > 0 {
        let rest = headers.skip(1);
        assert forall|j: int| 0 <= j < i - 1 implies !(#[trigger] rest[j] is To) by {
            assert(rest[j] == headers[j + 1]);
        }
        assert(!(headers[0] is To));
        the_first_to_header_counts(rest, i - 1);
    }
}

/// The first `From` header of a message is the one that counts, whatever stands around it, and a
/// message without one has none.
pub proof fn the_first_from_header_counts(headers: Seq<SipHeader>, i: int)
    requires
        forall|j: int| 0 <= j < i ==> !(#[trigger] headers[j] is From),
        0 <= i <= headers.len(),
        i < headers.len() ==> headers[i] is From,
    ensures
        i < headers.len() ==> first_from(headers) == Some(headers[i]->From_0@),
        i == headers.len() ==> first_from(headers) is None,
    decreases i,
{
    if i > 0 {
        let rest = headers.skip(1);
        assert forall|j: int| 0 <= j < i - 1 implies !(#[trigger] rest[j] is From) by {
            assert(rest[j] == headers[j + 1]);
        }
        assert(!(headers[0] is From));
        the_first_from_header_counts(rest, i - 1);
    }
}

/// A header is passed on exactly where its name begins with an `X`, in either case, and a hyphen.
pub proof fn names_that_begin_with_x_are_passed_on(name: Seq<char>)
    ensures
        passed_on(name) <==> name.len() >= 2 && (name[0] == 'X' || name[0] == 'x') && name[1] == '-',
{
    reveal_strlit("X-");
    reveal_strlit("x-");
    if name.len() >= 2 {
        let head = name.subrange(0, 2);
        assert(head[0] == name[0] && head[1] == name[1]);
        assert(name[0] == 'X' && name[1] == '-' ==> head =~= "X-"@);
        assert(name[0] == 'x' && name[1] == '-' ==> head =~= "x-"@);
    }
}

/// Of the headers under one name that is passed on the last one is kept; a name that no header has
/// keeps what was known of it.
pub proof fn the_last_passed_on_header_is_kept(
    known: Map<Seq<char>, Seq<char>>,
    headers: Seq<SipHeader>,
    name: Seq<char>,
    i: int,
)
    requires
        -1 <= i < headers.len(),
        forall|j: int|
            i < j < headers.len() ==> !(#[trigger] headers[j] is Other && headers[j]->Other_0@
                == name),
        i >= 0 ==> headers[i] is Other && headers[i]->Other_0@ == name && passed_on(name),
    ensures
        i >= 0 ==> with_passed_on(known, headers).dom().contains(name),
        i >= 0 ==> with_passed_on(known, headers)[name] == headers[i]->Other_1@,
        i < 0 ==> (with_passed_on(known, headers).dom().contains(name) <==> known.dom().contains(
            name,
        )),
        i < 0 && known.dom().contains(name) ==> with_passed_on(known, headers)[name]
            == known[name],
    decreases headers.len(),
{
    if headers.len() > 0 {
        let last = headers.len() - 1;
        let before = headers.drop_last();
        if i < last {
            assert(!(headers[last] is Other && headers[last]->Other_0@ == name));
            assert forall|j: int| i < j < before.len() implies !(#[trigger] before[j] is Other
                && before[j]->Other_0@ == name) by {
                assert(before[j] == headers[j]);
            }
            the_last_passed_on_header_is_kept(known, before, name, i);
        }
    }
}

/// What a message adds to a session are its headers and the id that the peer gives the call; all
/// else stays. An id is taken from the first of the two headers that give one.
pub proof fn headers_touch_nothing_else(session: SessionView, headers: Seq<SipHeader>)
    ensures
        ({
            let after = session.with_headers(headers);
            let extra = after.extra_headers;
            &&& after.call_id == session.call_id
            &&& after.direction == session.direction
            &&& after.state == session.state
            &&& after.remote_uri == session.remote_uri
            &&& extra == with_passed_on(session.extra_headers, headers)
            &&& session.call_uuid is None && extra.dom().contains("X-CallUUID"@)
                ==> after.call_uuid == Some(extra["X-CallUUID"@])
            &&& session.call_uuid is None && !extra.dom().contains("X-CallUUID"@)
                && extra.dom().contains("X-Plivo-CallUUID"@) ==> after.call_uuid == Some(
                extra["X-Plivo-CallUUID"@],
            )
            &&& session.call_uuid is None && !extra.dom().contains("X-CallUUID"@)
                && !extra.dom().contains("X-Plivo-CallUUID"@) ==> after.call_uuid is None
        }),
{
}

/// The lifetime of a session is the number that the first header under that name begins with,
/// written alone or before parameters; without such a header there is none.
pub proof fn the_first_lifetime_counts(headers: Seq<SipHeader>, i: int, n: u32, rest: Seq<char>)
    requires
        0 <= i <= headers.len(),
        forall|j: int|
            0 <= j < i ==> !(#[trigger] headers[j] is Other && same_ignoring_case(
                headers[j]->Other_0@,
                "Session-Expires"@,
            )),
        i < headers.len() ==> headers[i] is Other && same_ignoring_case(
            headers[i]->Other_0@,
            "Session-Expires"@,
        ),
    ensures
        i == headers.len() ==> session_expires(headers) is None,
        i < headers.len() ==> session_expires(headers) == number(
            trimmed(before_first(headers[i]->Other_1@, ';')),
        ),
        i < headers.len() && headers[i]->Other_1@ == decimal(n as nat) ==> session_expires(headers)
            == Some(n),
        i < headers.len() && headers[i]->Other_1@ == decimal(n as nat) + seq![';'] + rest
            ==> session_expires(headers) == Some(n),
    decreases i,
{
    a_number_before_a_semicolon_reads_back(n, rest);
    if i > 0 {
        let tail = headers.skip(1);
        assert forall|j: int| 0 <= j < i - 1 implies !(#[trigger] tail[j] is Other
            && same_ignoring_case(tail[j]->Other_0@, "Session-Expires"@)) by {
            assert(tail[j] == headers[j + 1]);
        }
        assert(!(headers[0] is Other && same_ignoring_case(
            headers[0]->Other_0@,
            "Session-Expires"@,
        )));
        the_first_lifetime_counts(tail, i - 1, n, rest);
    }
}

/// Whoever ends a call did so locally where that is us: the caller where we placed the call, the
/// callee where it came in.
pub proof fn we_end_calls_locally(reason: TerminatedReason, direction: CallDirection)
    ensures
        ({
            let by_caller = reason is UacCancel || reason is UacBye || reason is UacBusy
                || reason is UacOther;
            let by_callee = reason is UasBye || reason is UasBusy || reason is UasDecline
                || reason is UasOther;
            let label = termination_label(reason, direction);
            &&& by_caller && direction is Outbound ==> label == "locally"@
            &&& by_callee && direction is Inbound ==> label == "locally"@
            &&& by_caller && direction is Inbound ==> label == "by remote"@
            &&& by_callee && direction is Outbound ==> label == "by remote"@
            &&& reason is Timeout ==> label == "by timeout"@
            &&& reason is ProxyError || reason is ProxyAuthRequired ==> label == "by proxy"@
        }),
{
}

} // verus!
