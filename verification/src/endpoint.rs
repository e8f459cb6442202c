//! The endpoint: its connection to the server, its registration and its calls.

use crate::call::{CallContext, CallView};
use crate::codec::Codec;
use crate::error::{other, EndpointError, ErrorView};
use crate::map::TextMap;
use crate::message::{has_established_dialog_tag, in_dialog, Request};
use crate::session::text_view;
use crate::text::decimal;
use crate::transport::NetAddr;
use crate::uri::{authority, authority_text, host_reading, read_host};
use vstd::prelude::*;
use vstd::string::*;

verus! {

pub struct EndpointConfig {
    pub sip_server: String,
    pub sip_port: u16,
    pub stun_server: String,
    /// The codecs that we offer, the preferred one first.
    pub codecs: Vec<Codec>,
    /// The rate that received audio is delivered at.
    pub input_sample_rate: u32,
    /// The rate that audio to send is queued at.
    pub output_sample_rate: u32,
    pub register_expires: u32,
    pub user_agent: String,
}

/// What we authenticate with.
pub struct Credential {
    pub username: String,
    pub password: String,
}

/// A credential with its texts as sequences.
pub struct CredentialView {
    pub username: Seq<char>,
    pub password: Seq<char>,
}

impl View for Credential {
    type V = CredentialView;

    open spec fn view(&self) -> CredentialView {
        CredentialView { username: self.username@, password: self.password@ }
    }
}

impl Credential {
    pub fn copy(&self) -> (c: Credential)
        ensures
            c@ == self@,
    {
        Credential { username: self.username.clone(), password: self.password.clone() }
    }
}

/// Our end of the connection to the server.
pub struct LocalAddr {
    pub host: String,
    pub port: Option<u16>,
}

/// A local address with its text as a sequence.
pub struct LocalAddrView {
    pub host: Seq<char>,
    pub port: Option<u16>,
}

impl View for LocalAddr {
    type V = LocalAddrView;

    open spec fn view(&self) -> LocalAddrView {
        LocalAddrView { host: self.host@, port: self.port }
    }
}

/// The state of the endpoint. Each method is one step: it takes what the outside world reported,
/// changes the state, and returns what is to be done and told.
pub struct SipEndpoint {
    pub config: EndpointConfig,
    pub registered: bool,
    pub calls: TextMap<CallContext>,
    /// Whether there is a connection to the server.
    pub connected: bool,
    pub credential: Option<Credential>,
    pub contact_uri: Option<String>,
    /// The address of record, the caller of outbound calls.
    pub aor: Option<String>,
    pub local_addr: Option<LocalAddr>,
    /// Where the outside world sees us, for media.
    pub public_addr: Option<NetAddr>,
    /// The server's address, kept so that the connection is reused.
    pub sip_server_addr: Option<NetAddr>,
    /// Whether the endpoint was shut down.
    pub cancelled: bool,
    pub next_async_id: u64,
}

/// The state of the endpoint with its texts as sequences.
#[verifier::ext_equal]
pub struct EndpointView {
    pub config: EndpointConfig,
    pub registered: bool,
    pub calls: Map<Seq<char>, CallView>,
    pub connected: bool,
    pub credential: Option<CredentialView>,
    pub contact_uri: Option<Seq<char>>,
    pub aor: Option<Seq<char>>,
    pub local_addr: Option<LocalAddrView>,
    pub public_addr: Option<NetAddr>,
    pub sip_server_addr: Option<NetAddr>,
    pub cancelled: bool,
    pub next_async_id: u64,
}

/// The calls with their texts as sequences.
pub open spec fn calls_view(calls: Map<Seq<char>, CallContext>) -> Map<Seq<char>, CallView> {
    calls.map_values(|c: CallContext| c@)
}

impl View for SipEndpoint {
    type V = EndpointView;

    open spec fn view(&self) -> EndpointView {
        EndpointView {
            config: self.config,
            registered: self.registered,
            calls: calls_view(self.calls@),
            connected: self.connected,
            credential: match self.credential {
                Some(c) => Some(c@),
                None => None,
            },
            contact_uri: text_view(self.contact_uri),
            aor: text_view(self.aor),
            local_addr: match self.local_addr {
                Some(a) => Some(a@),
                None => None,
            },
            public_addr: self.public_addr,
            sip_server_addr: self.sip_server_addr,
            cancelled: self.cancelled,
            next_async_id: self.next_async_id,
        }
    }
}

impl EndpointView {
    /// An endpoint that nothing has happened to.
    pub open spec fn initial(config: EndpointConfig) -> EndpointView {
        EndpointView {
            config,
            registered: false,
            calls: Map::empty(),
            connected: false,
            credential: None,
            contact_uri: None,
            aor: None,
            local_addr: None,
            public_addr: None,
            sip_server_addr: None,
            cancelled: false,
            next_async_id: 1,
        }
    }

    /// Whether there is a call with this id, terminated or not.
    pub open spec fn has(self, id: Seq<char>) -> bool {
        self.calls.dom().contains(id)
    }

    /// Whether there is a call with this id that has not ended.
    pub open spec fn active(self, id: Seq<char>) -> bool {
        self.has(id) && !self.calls[id].terminated
    }

    pub open spec fn with_call(self, id: Seq<char>, call: CallView) -> EndpointView {
        EndpointView { calls: self.calls.insert(id, call), ..self }
    }

    pub open spec fn without_call(self, id: Seq<char>) -> EndpointView {
        EndpointView { calls: self.calls.remove(id), ..self }
    }

    /// Whether every call is filed under the id that its session carries.
    pub open spec fn filed(self) -> bool {
        forall|id: Seq<char>| #[trigger]
            self.calls.dom().contains(id) ==> self.calls[id].session.call_id == id
    }
}

/// What the outcome of looking up the server means.
pub open spec fn lookup_error(config: EndpointConfig, lookup: Result<Option<NetAddr>, String>) -> Seq<
    char,
> {
    match lookup {
        Err(why) => "DNS resolve "@ + authority(config.sip_server@, config.sip_port) + ": "@
            + why@,
        Ok(_) => "DNS returned no results for "@ + config.sip_server@,
    }
}

/// The dialog that an incoming request belongs to.
#[derive(Clone, Copy, Debug, PartialEq, Eq, Structural)]
pub enum MatchedDialog {
    /// The dialog of a call, whoever opened it.
    Call,
    /// A dialog of another nature.
    Other,
}

/// What is done with an incoming request.
#[derive(Clone, Copy, Debug, PartialEq, Eq, Structural)]
pub enum Dispatch {
    /// The dialog that it belongs to handles it.
    InDialog,
    Ignore,
    /// It is answered with the status [`NO_SUCH_DIALOG`].
    NoSuchDialog,
    NewCall,
}

/// The status of a request for a dialog that is not there.
pub const NO_SUCH_DIALOG: u16 = 481;

/// What is done with a request, given the dialog it matches, whether it is an invitation, and
/// whether it carries a To tag.
pub open spec fn dispatched(matched: Option<MatchedDialog>, invite: bool, tagged: bool) -> Dispatch {
    match matched {
        Some(MatchedDialog::Call) => Dispatch::InDialog,
        Some(MatchedDialog::Other) => Dispatch::Ignore,
        None => if !invite {
            Dispatch::Ignore
        } else if tagged {
            Dispatch::NoSuchDialog
        } else {
            Dispatch::NewCall
        },
    }
}

/// Decides what is done with an incoming request. The dialogs are matched first: a refresh of a
/// session is an invitation too, and answered as a new call it would break the call it refreshes.
pub fn dispatch(matched: Option<MatchedDialog>, invite: bool, req: &Request) -> (d: Dispatch)
    ensures
        d == dispatched(matched, invite, in_dialog(req.headers@)),
        d == Dispatch::InDialog <==> matched == Some(MatchedDialog::Call),
        d == Dispatch::Ignore <==> matched == Some(MatchedDialog::Other) || (matched is None
            && !invite),
        d == Dispatch::NoSuchDialog <==> matched is None && invite && in_dialog(req.headers@),
        d == Dispatch::NewCall <==> matched is None && invite && !in_dialog(req.headers@),
{
    match matched {
        Some(MatchedDialog::Call) => Dispatch::InDialog,
        Some(MatchedDialog::Other) => Dispatch::Ignore,
        None => if !invite {
            Dispatch::Ignore
        } else if has_established_dialog_tag(req) {
            Dispatch::NoSuchDialog
        } else {
            Dispatch::NewCall
        },
    }
}

/// A request starts a call exactly when it is an invitation that belongs to no dialog and names
/// none. One that names a dialog we do not hold is refused.
pub proof fn only_a_dialog_forming_invite_starts_a_call(
    matched: Option<MatchedDialog>,
    invite: bool,
    tagged: bool,
)
    ensures
        dispatched(matched, invite, tagged) == Dispatch::NewCall <==> matched is None && invite
            && !tagged,
        dispatched(matched, invite, tagged) == Dispatch::NoSuchDialog <==> matched is None && invite
            && tagged,
{
}

impl SipEndpoint {
    /// An endpoint that is not connected yet.
    pub fn new(config: EndpointConfig) -> (r: Result<SipEndpoint, EndpointError>)
        ensures
            match r {
                Ok(endpoint) => config.input_sample_rate != 0 && config.output_sample_rate != 0
                    && endpoint@ == EndpointView::initial(config),
                Err(e) => (config.input_sample_rate == 0 || config.output_sample_rate == 0) && e@
                    == ErrorView::Other("sample_rate must be > 0"@),
            },
    {
        if config.input_sample_rate == 0 || config.output_sample_rate == 0 {
            return Err(other("sample_rate must be > 0"));
        }
        let endpoint = SipEndpoint {
            config,
            registered: false,
            calls: TextMap::new(),
            connected: false,
            credential: None,
            contact_uri: None,
            aor: None,
            local_addr: None,
            public_addr: None,
            sip_server_addr: None,
            cancelled: false,
            next_async_id: 1,
        };
        assert(endpoint@.calls =~= Map::empty());
        Ok(endpoint)
    }

    /// What is looked up to find the server.
    pub fn server_authority(&self) -> (text: String)
        ensures
            text@ == authority(self.config.sip_server@, self.config.sip_port),
    {
        authority_text(self.config.sip_server.as_str(), self.config.sip_port)
    }

    /// The server's address, given the first one that its name was resolved to.
    pub fn resolved(&self, lookup: Result<Option<NetAddr>, String>) -> (r: Result<
        NetAddr,
        EndpointError,
    >)
        ensures
            match lookup {
                Ok(Some(addr)) => r == Ok::<NetAddr, EndpointError>(addr),
                _ => r is Err && r->Err_0@ == ErrorView::Other(lookup_error(self.config, lookup)),
            },
    {
        match lookup {
            Ok(Some(addr)) => Ok(addr),
            Ok(None) => {
                let mut text = "DNS returned no results for ".to_owned();
                text.append(self.config.sip_server.as_str());
                Err(EndpointError::Other(text))
            },
            Err(why) => {
                let mut text = "DNS resolve ".to_owned();
                text.append(self.server_authority().as_str());
                text.append(": ");
                text.append(why.as_str());
                Err(EndpointError::Other(text))
            },
        }
    }

    /// The server's address as signalling names it, given the text of its IP address.
    pub fn server_host(&self, ip: &str, port: u16) -> (r: Result<String, EndpointError>)
        ensures
            match host_reading(authority(ip@, port)) {
                Ok(host) => r is Ok && r->Ok_0@ == host,
                Err(why) => r is Err && r->Err_0@ == ErrorView::Other(why),
            },
    {
        read_host(authority_text(ip, port).as_str())
    }

    /// The error of a connection to `addr` that failed.
    pub fn connect_failed(&self, addr: &str, why: &str) -> (e: EndpointError)
        ensures
            e@ == ErrorView::Other("TCP connect to "@ + addr@ + ": "@ + why@),
    {
        let mut text = "TCP connect to ".to_owned();
        text.append(addr);
        text.append(": ");
        text.append(why);
        EndpointError::Other(text)
    }

    /// The connection to the server is up.
    pub fn connected(&mut self, local: LocalAddr, server: NetAddr)
        ensures
            final(self)@ == (EndpointView {
                connected: true,
                local_addr: Some(local@),
                sip_server_addr: Some(server),
                ..old(self)@
            }),
    {
        self.connected = true;
        self.local_addr = Some(local);
        self.sip_server_addr = Some(server);
    }

    pub fn input_sample_rate(&self) -> (rate: u32)
        ensures
            rate == self@.config.input_sample_rate,
    {
        self.config.input_sample_rate
    }

    pub fn output_sample_rate(&self) -> (rate: u32)
        ensures
            rate == self@.config.output_sample_rate,
    {
        self.config.output_sample_rate
    }

    pub fn is_registered(&self) -> (registered: bool)
        ensures
            registered == self@.registered,
    {
        self.registered
    }

    /// The call with this id, terminated or not.
    pub fn with_call(&self, call_id: &str) -> (r: Result<&CallContext, EndpointError>)
        ensures
            match r {
                Ok(ctx) => self@.has(call_id@) && ctx@ == self@.calls[call_id@],
                Err(e) => !self@.has(call_id@) && e@ == ErrorView::CallNotActive(call_id@),
            },
    {
        match self.calls.get(call_id) {
            Some(ctx) => Ok(ctx),
            None => Err(crate::error::not_active(call_id)),
        }
    }

    /// The call with this id where it has not ended; nothing where it has.
    pub fn with_active_call(&self, call_id: &str) -> (r: Result<Option<&CallContext>, EndpointError>)
        ensures
            match r {
                Ok(Some(ctx)) => self@.active(call_id@) && ctx@ == self@.calls[call_id@],
                Ok(None) => self@.has(call_id@) && self@.calls[call_id@].terminated,
                Err(e) => !self@.has(call_id@) && e@ == ErrorView::CallNotActive(call_id@),
            },
    {
        let ctx = self.with_call(call_id)?;
        if ctx.terminated {
            Ok(None)
        } else {
            Ok(Some(ctx))
        }
    }

    /// Takes a call out.
    pub(crate) fn take_call(&mut self, call_id: &str) -> (entry: Option<(String, CallContext)>)
        ensures
            match entry {
                Some(e) => old(self)@.has(call_id@) && e.0@ == call_id@ && e.1@ == old(
                    self,
                )@.calls[call_id@],
                None => !old(self)@.has(call_id@),
            },
            final(self)@ == old(self)@.without_call(call_id@),
    {
        let entry = self.calls.take(call_id);
        assert(self@.calls =~= old(self)@.calls.remove(call_id@));
        entry
    }

    /// Files a call.
    pub(crate) fn put_call(&mut self, call_id: String, ctx: CallContext)
        ensures
            final(self)@ == old(self)@.with_call(call_id@, ctx@),
    {
        self.calls.insert(call_id, ctx);
        assert(self@.calls =~= old(self)@.calls.insert(call_id@, ctx@));
    }
}

/// A request that belongs to the dialog of a call reaches that dialog, whatever it asks for, and no
/// other request does. Nothing is done with one that belongs to another dialog, nor with one that
/// belongs to none and is no invitation.
pub proof fn a_request_of_a_call_reaches_it(
    matched: Option<MatchedDialog>,
    invite: bool,
    tagged: bool,
)
    ensures
        dispatched(matched, invite, tagged) == Dispatch::InDialog <==> matched == Some(
            MatchedDialog::Call,
        ),
        dispatched(matched, invite, tagged) == Dispatch::Ignore <==> matched == Some(
            MatchedDialog::Other,
        ) || (matched is None && !invite),
{
}

/// An endpoint that nothing has happened to is neither connected nor registered nor shut down, has
/// no call and knows nothing of itself; the first number that it hands out is one.
pub proof fn nothing_has_happened_at_first(config: EndpointConfig, id: Seq<char>)
    ensures
        ({
            let e = EndpointView::initial(config);
            &&& e.config == config
            &&& !e.registered
            &&& !e.connected
            &&& !e.cancelled
            &&& !e.has(id)
            &&& !e.calls.dom().contains(id)
            &&& e.credential is None
            &&& e.contact_uri is None
            &&& e.aor is None
            &&& e.local_addr is None
            &&& e.public_addr is None
            &&& e.sip_server_addr is None
            &&& e.next_async_id == 1
        }),
{
}

/// A call is found where it was filed, until it is taken out; no other call, and nothing else, is
/// touched by either. A call is active as long as it is there and not terminated.
pub proof fn a_call_is_found_where_it_was_filed(
    e: EndpointView,
    id: Seq<char>,
    another: Seq<char>,
    call: CallView,
)
    requires
        another != id,
    ensures
        e.has(id) <==> e.calls.dom().contains(id),
        e.active(id) <==> e.calls.dom().contains(id) && !e.calls[id].terminated,
        e.with_call(id, call).has(id),
        e.with_call(id, call).calls[id] == call,
        e.with_call(id, call).has(another) <==> e.has(another),
        e.has(another) ==> e.with_call(id, call).calls[another] == e.calls[another],
        !e.without_call(id).has(id),
        e.without_call(id).has(another) <==> e.has(another),
        e.has(another) ==> e.without_call(id).calls[another] == e.calls[another],
        e.with_call(id, call) == (EndpointView { calls: e.with_call(id, call).calls, ..e }),
        e.without_call(id) == (EndpointView { calls: e.without_call(id).calls, ..e }),
{
}

/// The error of a lookup that failed says what was looked up and why it failed; that of one that
/// found nothing says whose address was looked for.
pub proof fn a_failed_lookup_says_why(
    config: EndpointConfig,
    lookup: Result<Option<NetAddr>, String>,
)
    ensures
        lookup matches Err(why) ==> lookup_error(config, lookup) == "DNS resolve "@
            + config.sip_server@ + ":"@ + decimal(config.sip_port as nat) + ": "@ + why@,
        lookup is Ok ==> lookup_error(config, lookup) == "DNS returned no results for "@
            + config.sip_server@,
{
    if let Err(why) = lookup {
        assert(lookup_error(config, lookup) =~= "DNS resolve "@ + config.sip_server@ + ":"@
            + decimal(config.sip_port as nat) + ": "@ + why@);
    }
}

/// The state as a model shows what the endpoint holds, each part in its place.
pub proof fn the_model_shows_the_endpoint(e: SipEndpoint, id: Seq<char>)
    ensures
        e@.config == e.config,
        e@.registered == e.registered,
        e@.connected == e.connected,
        e@.cancelled == e.cancelled,
        e@.next_async_id == e.next_async_id,
        e@.public_addr == e.public_addr,
        e@.sip_server_addr == e.sip_server_addr,
        e@.calls.dom().contains(id) <==> e.calls@.dom().contains(id),
        e.calls@.dom().contains(id) ==> e@.calls[id] == e.calls@[id]@,
        e@.contact_uri is Some <==> e.contact_uri is Some,
        e.contact_uri matches Some(text) ==> e@.contact_uri == Some(text@),
        e@.aor is Some <==> e.aor is Some,
        e.aor matches Some(text) ==> e@.aor == Some(text@),
        e@.credential is Some <==> e.credential is Some,
        e.credential matches Some(c) ==> e@.credential->0.username == c.username@
            && e@.credential->0.password == c.password@,
        e@.local_addr is Some <==> e.local_addr is Some,
        e.local_addr matches Some(a) ==> e@.local_addr->0.host == a.host@ && e@.local_addr->0.port
            == a.port,
{
}

/// A request for a dialog that is not there is refused with a status of its own, which is neither
/// success nor provisional: 481, as the protocol has it.
pub proof fn a_missing_dialog_has_its_status()
    ensures
        NO_SUCH_DIALOG == 481,
{
}

} // verus!
