//! One call: its state, its identity, and the setting up of its media.

use crate::codec::Codec;
use crate::event::{EndpointEvent, EventView};
use crate::session::{text_view, CallDirection, CallSession, CallState, SessionView};
use crate::text::{digit_char, hex, hex_text, hexadecimal_digits_stand_in_order, joined};
use crate::transport::{IpAddress, NetAddr, RtpTransport, DEFAULT_DTMF_PT};
use vstd::prelude::*;
use vstd::string::*;

verus! {

/// Milliseconds of agent voice that may be queued. Speech that is synthesised as it is spoken
/// stalls for some hundred milliseconds at times; a queue this deep bridges most of it.
pub const VOICE_QUEUE_MS: u32 = 400;

/// Milliseconds of background audio that may be queued.
pub const BACKGROUND_QUEUE_MS: u32 = 200;

/// One side of a call's signalling.
#[derive(Clone, Copy, Debug, PartialEq, Eq, Structural)]
pub enum DialogSide {
    /// The dialog that we opened.
    Client,
    /// The dialog that the peer opened.
    Server,
}

/// The state of one call. A call that ended stays, terminated, until it is hung up; what is asked of
/// it until then succeeds and does nothing.
pub struct CallContext {
    pub session: CallSession,
    /// Whether media is attached.
    pub media: bool,
    pub terminated: bool,
    /// Whether the tasks of the call were told to stop.
    pub cancelled: bool,
    pub muted: bool,
    pub paused: bool,
    pub held: bool,
    pub beep_detection: bool,
    pub recording: bool,
    /// The rate that the resampler for supplied audio converts from, where there is one.
    pub resampler_rate: Option<u32>,
    pub client_dialog: bool,
    pub server_dialog: bool,
    pub local_sdp: Option<String>,
}

/// A call with its texts as sequences.
#[verifier::ext_equal]
pub struct CallView {
    pub session: SessionView,
    pub media: bool,
    pub terminated: bool,
    pub cancelled: bool,
    pub muted: bool,
    pub paused: bool,
    pub held: bool,
    pub beep_detection: bool,
    pub recording: bool,
    pub resampler_rate: Option<u32>,
    pub client_dialog: bool,
    pub server_dialog: bool,
    pub local_sdp: Option<Seq<char>>,
}

impl View for CallContext {
    type V = CallView;

    open spec fn view(&self) -> CallView {
        CallView {
            session: self.session@,
            media: self.media,
            terminated: self.terminated,
            cancelled: self.cancelled,
            muted: self.muted,
            paused: self.paused,
            held: self.held,
            beep_detection: self.beep_detection,
            recording: self.recording,
            resampler_rate: self.resampler_rate,
            client_dialog: self.client_dialog,
            server_dialog: self.server_dialog,
            local_sdp: text_view(self.local_sdp),
        }
    }
}

impl CallView {
    /// A call at its beginning.
    pub open spec fn fresh(session: SessionView) -> CallView {
        CallView {
            session,
            media: false,
            terminated: false,
            cancelled: false,
            muted: false,
            paused: false,
            held: false,
            beep_detection: false,
            recording: false,
            resampler_rate: None,
            client_dialog: false,
            server_dialog: false,
            local_sdp: None,
        }
    }

    /// The dialog that a request within the call is sent on: the one we opened, else the peer's.
    pub open spec fn dialog(self) -> Option<DialogSide> {
        if self.client_dialog {
            Some(DialogSide::Client)
        } else if self.server_dialog {
            Some(DialogSide::Server)
        } else {
            None
        }
    }
}

impl CallContext {
    pub fn dialog(&self) -> (side: Option<DialogSide>)
        ensures
            side == self@.dialog(),
    {
        if self.client_dialog {
            Some(DialogSide::Client)
        } else if self.server_dialog {
            Some(DialogSide::Server)
        } else {
            None
        }
    }
}

/// How an audio queue of a call is set up.
pub struct QueuePlan {
    pub id: String,
    pub queue_ms: u32,
    pub sample_rate: u32,
}

/// A call that is being set up, with the queues that it needs.
pub struct NewCall {
    pub context: CallContext,
    pub session: CallSession,
    pub voice: QueuePlan,
    pub background: QueuePlan,
}

impl QueuePlan {
    /// Whether the queue is the one for the voice of the call `id`, supplied at `rate`.
    pub open spec fn is_voice_of(self, id: Seq<char>, rate: u32) -> bool {
        &&& self.id@ == id
        &&& self.queue_ms == VOICE_QUEUE_MS
        &&& self.sample_rate == rate
    }

    /// Whether the queue is the one for the background audio of the call `id`, supplied at `rate`.
    pub open spec fn is_background_of(self, id: Seq<char>, rate: u32) -> bool {
        &&& self.id@ == id + "-bg"@
        &&& self.queue_ms == BACKGROUND_QUEUE_MS
        &&& self.sample_rate == rate
    }
}

/// Whether the queues are those of the call `id`, for audio supplied at `rate`.
pub open spec fn queues_of(new: NewCall, id: Seq<char>, rate: u32) -> bool {
    new.voice.is_voice_of(id, rate) && new.background.is_background_of(id, rate)
}

/// The state of a call at its beginning.
pub fn new_call_context(call_id: &str, direction: CallDirection, output_sample_rate: u32) -> (new:
    NewCall)
    ensures
        new.session@ == SessionView::fresh(call_id@, direction),
        new.context@ == CallView::fresh(new.session@),
        queues_of(new, call_id@, output_sample_rate),
{
    let session = CallSession::new(call_id.to_owned(), direction);
    let context = CallContext {
        session: session.copy(),
        media: false,
        terminated: false,
        cancelled: false,
        muted: false,
        paused: false,
        held: false,
        beep_detection: false,
        recording: false,
        resampler_rate: None,
        client_dialog: false,
        server_dialog: false,
        local_sdp: None,
    };
    NewCall {
        context,
        session,
        voice: QueuePlan {
            id: call_id.to_owned(),
            queue_ms: VOICE_QUEUE_MS,
            sample_rate: output_sample_rate,
        },
        background: QueuePlan {
            id: joined(call_id, "-bg"),
            queue_ms: BACKGROUND_QUEUE_MS,
            sample_rate: output_sample_rate,
        },
    }
}

/// `rand::random::<u64>`: any value may come back.
#[verifier::external_body]
fn random_u64() -> (n: u64) {
    rand::random::<u64>()
}

/// The call id made of a number: a `c` and its sixteen hexadecimal digits.
pub open spec fn call_id(n: u64) -> Seq<char> {
    "c"@ + hex(n as nat, 16)
}

pub fn call_id_of(n: u64) -> (id: String)
    ensures
        id@ == call_id(n),
{
    joined("c", hex_text(n, 16).as_str())
}

/// A call id made of a random number.
pub fn random_call_id() -> (id: String)
    ensures
        exists|n: u64| id@ == call_id(n),
{
    let n: u64 = random_u64();
    let id = call_id_of(n);
    assert(id@ == call_id(n));
    id
}

/// The id that the application gives the call, else one made of a random number.
pub fn choose_call_id(external: Option<String>) -> (id: String)
    ensures
        match external {
            Some(given) => id@ == given@,
            None => exists|n: u64| id@ == call_id(n),
        },
{
    match external {
        Some(given) => given,
        None => random_call_id(),
    }
}

/// Different numbers make different call ids.
pub proof fn call_ids_differ(m: u64, n: u64)
    requires
        m != n,
    ensures
        call_id(m) != call_id(n),
{
    reveal_strlit("c");
    if call_id(m) == call_id(n) {
        assert(call_id(m).skip(1) =~= hex(m as nat, 16));
        assert(call_id(n).skip(1) =~= hex(n as nat, 16));
        assert(hex_values(16) == 0x1_0000_0000_0000_0000) by {
            reveal_with_fuel(hex_values, 17);
        }
        hex_determines(m as nat, n as nat, 16);
    }
}

/// How many numbers `width` hexadecimal digits can write.
spec fn hex_values(width: nat) -> nat
    decreases width,
{
    if width == 0 {
        1
    } else {
        16 * hex_values((width - 1) as nat)
    }
}

/// A number that fits in `width` hexadecimal digits is determined by them.
proof fn hex_determines(m: nat, n: nat, width: nat)
    requires
        hex(m, width) == hex(n, width),
        m < hex_values(width),
        n < hex_values(width),
    ensures
        m == n,
    decreases width,
{
    if width > 0 {
        let w = (width - 1) as nat;
        assert(hex(m, width).drop_last() =~= hex(m / 16, w));
        assert(hex(n, width).drop_last() =~= hex(n / 16, w));
        assert(hex(m, width).last() == digit_char((m % 16) as int));
        assert(hex(n, width).last() == digit_char((n % 16) as int));
        hex_determines(m / 16, n / 16, w);
    }
}

/// The media that a session description agrees on.
pub struct SdpAnswer {
    pub remote_ip: IpAddress,
    pub remote_port: u16,
    pub codec: Codec,
    pub dtmf_payload_type: Option<u8>,
    pub ptime_ms: u32,
}

/// Media that was attached to a call.
pub struct Attached {
    pub transport: RtpTransport,
    /// The session as the receive loop keeps it.
    pub recv_session: CallSession,
    pub event: EndpointEvent,
}

impl CallView {
    /// The call once media is attached.
    pub open spec fn confirmed(self) -> CallView {
        CallView {
            media: true,
            session: SessionView { state: CallState::Confirmed, ..self.session },
            ..self
        }
    }

    /// What attaching media to the call yields: the stream that was agreed on, under any source
    /// number, the session reported as answered, and for the receive loop the session as it was
    /// before.
    pub open spec fn attaches(
        self,
        answer: SdpAnswer,
        input_sample_rate: u32,
        output_sample_rate: u32,
        a: Attached,
    ) -> bool {
        &&& a.recv_session@ == self.session
        &&& a.event@ == EventView::CallAnswered { session: self.confirmed().session }
        &&& a.transport == (RtpTransport {
            remote_addr: NetAddr::spec_new(answer.remote_ip, answer.remote_port),
            ssrc: a.transport.ssrc,
            codec: answer.codec,
            seq: 0,
            timestamp: 0,
            dtmf_pt: match answer.dtmf_payload_type {
                Some(pt) => pt,
                None => DEFAULT_DTMF_PT,
            },
            ptime_ms: answer.ptime_ms,
            input_sample_rate,
            output_sample_rate,
        })
    }
}

/// Attaches the media that was agreed on to a call.
pub fn setup_rtp_attach(
    ctx: &mut CallContext,
    answer: &SdpAnswer,
    input_sample_rate: u32,
    output_sample_rate: u32,
) -> (a: Attached)
    ensures
        final(ctx)@ == old(ctx)@.confirmed(),
        old(ctx)@.attaches(*answer, input_sample_rate, output_sample_rate, a),
        a.transport.codec == answer.codec,
        a.transport.ptime_ms == answer.ptime_ms,
        a.transport.remote_addr.spec_ip() == answer.remote_ip,
        a.transport.remote_addr.spec_port() == answer.remote_port,
        answer.dtmf_payload_type matches Some(pt) ==> a.transport.dtmf_pt == pt,
        answer.dtmf_payload_type is None ==> a.transport.dtmf_pt == 101,
        a.transport.input_sample_rate == input_sample_rate,
        a.transport.output_sample_rate == output_sample_rate,
        a.transport.seq == 0,
        a.transport.timestamp == 0,
        final(ctx)@.media,
        final(ctx)@.session.state == CallState::Confirmed,
{
    let remote = NetAddr::new(answer.remote_ip, answer.remote_port);
    let dtmf_pt: u8 = match answer.dtmf_payload_type {
        Some(pt) => pt,
        None => DEFAULT_DTMF_PT,
    };
    let transport = RtpTransport::new(
        remote,
        answer.codec,
        dtmf_pt,
        answer.ptime_ms,
        input_sample_rate,
        output_sample_rate,
    );
    let recv_session = ctx.session.copy();
    ctx.media = true;
    ctx.session.state = CallState::Confirmed;
    let event = EndpointEvent::CallAnswered { session: ctx.session.copy() };
    Attached { transport, recv_session, event }
}

/// The address that media is announced at: the public one, else the local one as far as it is an
/// IP address, else the unspecified one.
pub fn media_ip(public: Option<NetAddr>, local: Option<IpAddress>) -> (ip: IpAddress)
    ensures
        ip == (match (public, local) {
            (Some(addr), _) => addr.spec_ip(),
            (None, Some(ip)) => ip,
            (None, None) => IpAddress::V4 { ip: 0 },
        }),
{
    match public {
        Some(addr) => addr.ip(),
        None => match local {
            Some(ip) => ip,
            None => IpAddress::V4 { ip: 0 },
        },
    }
}

/// Seconds between two refreshes of a session: half its lifetime, but at least thirty. A session
/// without a lifetime is not refreshed.
pub fn session_refresh(session_expires: Option<u32>) -> (secs: Option<u64>)
    ensures
        secs == (match session_expires {
            Some(s) => Some(
                if s / 2 >= 30 {
                    (s / 2) as u64
                } else {
                    30
                },
            ),
            None => None,
        }),
{
    match session_expires {
        Some(s) => {
            let half: u32 = s / 2;
            if half >= 30 {
                Some(half as u64)
            } else {
                Some(30)
            }
        },
        None => None,
    }
}

/// Media is attached to a call as it was agreed on: with the codec, the frame length and the peer's
/// address of the answer, with its payload type for key presses, or 101 where it names none, from
/// the beginning of a stream, and at the rates that the application works at. It is reported as
/// answered, with the session confirmed; the receive loop keeps the session of the same call.
pub proof fn media_is_attached_as_agreed(
    call: CallView,
    answer: SdpAnswer,
    input_sample_rate: u32,
    output_sample_rate: u32,
    a: Attached,
)
    requires
        call.attaches(answer, input_sample_rate, output_sample_rate, a),
    ensures
        a.transport.codec == answer.codec,
        a.transport.ptime_ms == answer.ptime_ms,
        answer.remote_ip matches IpAddress::V4 { ip } ==> a.transport.remote_addr == (NetAddr::V4 {
            ip,
            port: answer.remote_port,
        }),
        answer.remote_ip matches IpAddress::V6 { ip6 } ==> a.transport.remote_addr == (NetAddr::V6 {
            ip6,
            port: answer.remote_port,
            flow: 0,
            scope: 0,
        }),
        answer.dtmf_payload_type matches Some(pt) ==> a.transport.dtmf_pt == pt,
        answer.dtmf_payload_type is None ==> a.transport.dtmf_pt == 101,
        a.transport.seq == 0,
        a.transport.timestamp == 0,
        a.transport.input_sample_rate == input_sample_rate,
        a.transport.output_sample_rate == output_sample_rate,
        a.event is CallAnswered,
        a.event->CallAnswered_session@.state == CallState::Confirmed,
        a.event->CallAnswered_session@.call_id == call.session.call_id,
        a.event->CallAnswered_session@.direction == call.session.direction,
        a.event->CallAnswered_session@.remote_uri == call.session.remote_uri,
        a.event->CallAnswered_session@.call_uuid == call.session.call_uuid,
        a.event->CallAnswered_session@.extra_headers == call.session.extra_headers,
        a.recv_session@ == call.session,
{
}

/// A call that media is attached to has media and is confirmed; nothing else of it changes.
pub proof fn confirming_changes_nothing_else(call: CallView)
    ensures
        call.confirmed().media,
        call.confirmed().session.state == CallState::Confirmed,
        call.confirmed().session.call_id == call.session.call_id,
        call.confirmed().session.direction == call.session.direction,
        call.confirmed().session.remote_uri == call.session.remote_uri,
        call.confirmed().session.call_uuid == call.session.call_uuid,
        call.confirmed().session.extra_headers == call.session.extra_headers,
        call.confirmed().terminated == call.terminated,
        call.confirmed().cancelled == call.cancelled,
        call.confirmed().muted == call.muted,
        call.confirmed().paused == call.paused,
        call.confirmed().held == call.held,
        call.confirmed().beep_detection == call.beep_detection,
        call.confirmed().recording == call.recording,
        call.confirmed().resampler_rate == call.resampler_rate,
        call.confirmed().client_dialog == call.client_dialog,
        call.confirmed().server_dialog == call.server_dialog,
        call.confirmed().local_sdp == call.local_sdp,
{
}

/// A call at its beginning has its session and nothing else: no media, no dialog, no description,
/// and nothing asked of it.
pub proof fn a_call_begins_with_its_session(session: SessionView)
    ensures
        ({
            let call = CallView::fresh(session);
            &&& call.session == session
            &&& !call.media
            &&& !call.terminated
            &&& !call.cancelled
            &&& !call.muted
            &&& !call.paused
            &&& !call.held
            &&& !call.beep_detection
            &&& !call.recording
            &&& call.resampler_rate is None
            &&& !call.client_dialog
            &&& !call.server_dialog
            &&& call.local_sdp is None
        }),
{
}

/// A request within a call goes on the dialog that we opened where there is one, else on the
/// peer's; it goes nowhere only where there is neither.
pub proof fn a_request_goes_on_our_dialog_first(call: CallView)
    ensures
        call.client_dialog ==> call.dialog() == Some(DialogSide::Client),
        !call.client_dialog && call.server_dialog ==> call.dialog() == Some(DialogSide::Server),
        call.dialog() is None <==> !call.client_dialog && !call.server_dialog,
{
}

/// The queues of a call hold 400 milliseconds of voice, under the id of the call, and 200
/// milliseconds of background audio, under the id with `-bg` behind it, both at the rate that audio
/// is supplied at.
pub proof fn queues_hold_what_they_should(new: NewCall, id: Seq<char>, rate: u32)
    ensures
        queues_of(new, id, rate) <==> {
            &&& new.voice.id@ == id
            &&& new.voice.queue_ms == 400
            &&& new.voice.sample_rate == rate
            &&& new.background.id@ == id + "-bg"@
            &&& new.background.queue_ms == 200
            &&& new.background.sample_rate == rate
        },
{
}

/// A call id is a `c` followed by sixteen digits, the last of which is that of the number's
/// remainder by sixteen.
pub proof fn a_call_id_is_a_letter_and_sixteen_digits(n: u64)
    ensures
        call_id(n).len() == 17,
        call_id(n)[0] == 'c',
        call_id(n).skip(1) == hex(n as nat, 16),
        call_id(n)[16] == digit_char((n % 16) as int),
{
    reveal_strlit("c");
    hexadecimal_digits_stand_in_order(n as nat, 16);
    assert(call_id(n).skip(1) =~= hex(n as nat, 16));
    assert(call_id(n)[16] == hex(n as nat, 16).last());
}

/// The call as a model shows what is held of it, each part in its place.
pub proof fn the_model_shows_the_call(c: CallContext)
    ensures
        c@.session == c.session@,
        c@.media == c.media,
        c@.terminated == c.terminated,
        c@.cancelled == c.cancelled,
        c@.muted == c.muted,
        c@.paused == c.paused,
        c@.held == c.held,
        c@.beep_detection == c.beep_detection,
        c@.recording == c.recording,
        c@.resampler_rate == c.resampler_rate,
        c@.client_dialog == c.client_dialog,
        c@.server_dialog == c.server_dialog,
        c@.local_sdp is Some <==> c.local_sdp is Some,
        c.local_sdp matches Some(sdp) ==> c@.local_sdp == Some(sdp@),
{
}

} // verus!
