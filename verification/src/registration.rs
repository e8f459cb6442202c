//! Registering with the server.

use crate::endpoint::{Credential, CredentialView, EndpointView, SipEndpoint};
use crate::error::{EndpointError, ErrorView};
use crate::event::{event_view, EndpointEvent, EventView};
use crate::message::{status_line, status_text};
use crate::text::joined;
use crate::transport::NetAddr;
use crate::uri::{aor_text, aor_uri, authority, authority_text, contact_text, contact_uri, host_reading, parse_uri, read_host, read_uri, server_text, server_uri, uri_reading};
use vstd::prelude::*;
use vstd::string::*;

verus! {

/// The status of a request that succeeded.
pub const OK: u16 = 200;

/// The port that signalling goes to where none is named.
pub const DEFAULT_SIP_PORT: u16 = 5060;

/// The shortest time between two registrations, in seconds.
pub const MIN_REGISTER_PERIOD: u64 = 50;

/// Where the outside world sees us, with the text of the IP address.
pub struct PublicAddr {
    pub addr: NetAddr,
    pub ip: String,
}

/// A registration that is to be sent.
pub struct RegisterPlan {
    pub credential: Credential,
    pub contact: String,
    /// The host and port that the contact names.
    pub public_host: String,
    pub server_uri: String,
    pub aor: String,
    /// The address that the request is sent to whatever the server's name resolves to by then, so
    /// that the open connection is reused.
    pub outbound_proxy: Option<NetAddr>,
    pub expires: u32,
    pub public_addr: Option<NetAddr>,
}

/// A registration with its texts as sequences.
#[verifier::ext_equal]
pub struct RegisterView {
    pub credential: CredentialView,
    pub contact: Seq<char>,
    pub public_host: Seq<char>,
    pub server_uri: Seq<char>,
    pub aor: Seq<char>,
    pub outbound_proxy: Option<NetAddr>,
    pub expires: u32,
    pub public_addr: Option<NetAddr>,
}

impl View for RegisterPlan {
    type V = RegisterView;

    open spec fn view(&self) -> RegisterView {
        RegisterView {
            credential: self.credential@,
            contact: self.contact@,
            public_host: self.public_host@,
            server_uri: self.server_uri@,
            aor: self.aor@,
            outbound_proxy: self.outbound_proxy,
            expires: self.expires,
            public_addr: self.public_addr,
        }
    }
}

/// A registration that is to be withdrawn. Without a `server_uri` the request goes to a default
/// URI, as the server's name does not make one.
pub struct UnregisterPlan {
    pub credential: Credential,
    pub server_uri: Option<String>,
    pub outbound_proxy: Option<NetAddr>,
}

impl EndpointView {
    /// The host that we are to be contacted at.
    pub open spec fn contact_host(self, public: Option<PublicAddr>) -> Seq<char> {
        match public {
            Some(p) => p.ip@,
            None => self.local_addr->Some_0.host,
        }
    }

    /// The port that we are to be contacted at.
    pub open spec fn contact_port(self, public: Option<PublicAddr>) -> u16 {
        match public {
            Some(p) => p.addr.spec_port(),
            None => match self.local_addr->Some_0.port {
                Some(port) => port,
                None => DEFAULT_SIP_PORT,
            },
        }
    }
}

impl EndpointView {
    /// The state once the server granted a registration.
    pub open spec fn granted(self, plan: RegisterView) -> EndpointView {
        EndpointView {
            registered: true,
            credential: Some(plan.credential),
            contact_uri: Some(plan.contact),
            aor: Some(plan.aor),
            public_addr: plan.public_addr,
            ..self
        }
    }

    /// Whether a plan is the withdrawal to send: nothing where there is no connection or no
    /// credential.
    pub open spec fn withdraws(self, plan: Option<UnregisterPlan>) -> bool {
        match plan {
            Some(p) => {
                &&& self.connected
                &&& self.credential == Some(p.credential@)
                &&& p.outbound_proxy == self.sip_server_addr
                &&& match uri_reading(server_text(self.config.sip_server@)) {
                    Ok(uri) => p.server_uri is Some && p.server_uri->Some_0@ == uri,
                    Err(_) => p.server_uri is None,
                }
            },
            None => !self.connected || self.credential is None,
        }
    }

    /// The state once a registration was withdrawn or ended.
    pub open spec fn lapsed(self) -> EndpointView {
        EndpointView { registered: false, ..self }
    }
}

/// A registration made of the texts that were read for it, or the first reason that one could not
/// be.
pub open spec fn registration(
    credential: CredentialView,
    contact: Result<Seq<char>, Seq<char>>,
    public_host: Result<Seq<char>, Seq<char>>,
    server_uri: Result<Seq<char>, Seq<char>>,
    aor: Result<Seq<char>, Seq<char>>,
    outbound_proxy: Option<NetAddr>,
    expires: u32,
    public_addr: Option<NetAddr>,
) -> Result<RegisterView, Seq<char>> {
    match (contact, public_host, server_uri, aor) {
        (Err(why), _, _, _) => Err(why),
        (_, Err(why), _, _) => Err(why),
        (_, _, Err(why), _) => Err(why),
        (_, _, _, Err(why)) => Err(why),
        (Ok(contact), Ok(public_host), Ok(server_uri), Ok(aor)) => Ok(
            RegisterView {
                credential,
                contact,
                public_host,
                server_uri,
                aor,
                outbound_proxy,
                expires,
                public_addr,
            },
        ),
    }
}

/// What a status other than success is reported as.
pub open spec fn status_message(code: u16, reason: Seq<char>) -> Seq<char> {
    "SIP "@ + status_line(code, reason)
}

pub fn status_message_text(code: u16, reason: &str) -> (text: String)
    ensures
        text@ == status_message(code, reason@),
{
    joined("SIP ", status_text(code, reason).as_str())
}

/// Seconds until the next registration, where the server grants `expires`.
pub fn reregister_period(expires: u32) -> (secs: u64)
    ensures
        secs == if expires as u64 >= MIN_REGISTER_PERIOD {
            expires as u64
        } else {
            MIN_REGISTER_PERIOD
        },
        expires >= 50 ==> secs == expires,
        expires < 50 ==> secs == 50,
{
    if expires as u64 >= MIN_REGISTER_PERIOD {
        expires as u64
    } else {
        MIN_REGISTER_PERIOD
    }
}

impl SipEndpoint {
    /// The registration to send. The contact names the public address where one was found, else our
    /// end of the connection.
    pub fn register(&self, username: &str, password: &str, public: Option<PublicAddr>) -> (r: Result<
        RegisterPlan,
        EndpointError,
    >)
        requires
            self@.connected,
            self@.local_addr is Some,
        ensures
            ({
                let host = self@.contact_host(public);
                let port = self@.contact_port(public);
                let server = self.config.sip_server@;
                match registration(
                    CredentialView { username: username@, password: password@ },
                    uri_reading(contact_text(username@, host, port)),
                    host_reading(authority(host, port)),
                    uri_reading(server_text(server)),
                    uri_reading(aor_text(username@, server)),
                    self@.sip_server_addr,
                    self.config.register_expires,
                    match public {
                        Some(p) => Some(p.addr),
                        None => None,
                    },
                ) {
                    Ok(plan) => r is Ok && r->Ok_0@ == plan,
                    Err(why) => r is Err && r->Err_0@ == ErrorView::Other(why),
                }
            }),
    {
        let ghost was = public;
        let public_addr: Option<NetAddr> = match &public {
            Some(p) => Some(p.addr),
            None => None,
        };
        let (host, port): (String, u16) = match public {
            Some(p) => (p.ip, p.addr.port()),
            None => match &self.local_addr {
                Some(local) => (
                    local.host.clone(),
                    match local.port {
                        Some(port) => port,
                        None => DEFAULT_SIP_PORT,
                    },
                ),
                None => (String::new(), DEFAULT_SIP_PORT),
            },
        };
        assert(host@ == self@.contact_host(was));
        assert(port == self@.contact_port(was));
        let server = self.config.sip_server.as_str();
        let contact = read_uri(contact_uri(username, host.as_str(), port).as_str())?;
        let public_host = read_host(authority_text(host.as_str(), port).as_str())?;
        let server_uri = read_uri(server_uri(server).as_str())?;
        let aor = read_uri(aor_uri(username, server).as_str())?;
        Ok(
            RegisterPlan {
                credential: Credential {
                    username: username.to_owned(),
                    password: password.to_owned(),
                },
                contact,
                public_host,
                server_uri,
                aor,
                outbound_proxy: self.sip_server_addr,
                expires: self.config.register_expires,
                public_addr,
            },
        )
    }

    /// The server answered the first registration. Success makes its terms ours.
    pub fn on_register_response(&mut self, plan: RegisterPlan, code: u16, reason: &str) -> (r: (
        Result<(), EndpointError>,
        EndpointEvent,
    ))
        ensures
            code == OK ==> {
                &&& r.0 is Ok
                &&& r.1@ == EventView::Registered
                &&& final(self)@ == old(self)@.granted(plan@)
            },
            code != OK ==> {
                &&& r.0 is Err
                &&& r.0->Err_0@ == ErrorView::Sip {
                    code: code as i32,
                    message: status_message(code, reason@),
                }
                &&& r.1@ == EventView::RegistrationFailed { error: status_message(code, reason@) }
                &&& final(self)@ == old(self)@
            },
            r.0 is Ok <==> code == 200,
            code == 200 ==> final(self)@.registered,
    {
        if code == OK {
            self.registered = true;
            self.credential = Some(plan.credential);
            self.contact_uri = Some(plan.contact);
            self.aor = Some(plan.aor);
            self.public_addr = plan.public_addr;
            (Ok(()), EndpointEvent::Registered)
        } else {
            let message = status_message_text(code, reason);
            let error = message.clone();
            (
                Err(EndpointError::Sip { code: code as i32, message }),
                EndpointEvent::RegistrationFailed { error },
            )
        }
    }

    /// The registration was repeated: with the status that came back, or the reason that none did.
    /// A repetition that fails ends the registration; one that succeeds leaves it as it is.
    pub fn on_reregister(&mut self, outcome: Result<(u16, String), String>) -> (event: Option<
        EndpointEvent,
    >)
        ensures
            match outcome {
                Ok((code, reason)) => if code == OK {
                    event is None && final(self)@ == old(self)@
                } else {
                    &&& event_view(event) == Some(
                        EventView::RegistrationFailed { error: status_line(code, reason@) },
                    )
                    &&& final(self)@ == old(self)@.lapsed()
                },
                Err(why) => {
                    &&& event_view(event) == Some(EventView::RegistrationFailed { error: why@ })
                    &&& final(self)@ == old(self)@.lapsed()
                },
            },
            event is None <==> outcome is Ok && outcome->Ok_0.0 == 200,
            event is Some ==> !final(self)@.registered,
    {
        let error: String = match outcome {
            Ok((code, reason)) => {
                if code == OK {
                    return None;
                }
                status_text(code, reason.as_str())
            },
            Err(why) => why,
        };
        self.registered = false;
        Some(EndpointEvent::RegistrationFailed { error })
    }

    /// The withdrawal to send: nothing where there is no connection or no credential.
    pub fn unregister(&self) -> (plan: Option<UnregisterPlan>)
        ensures
            self@.withdraws(plan),
    {
        if !self.connected {
            return None;
        }
        match &self.credential {
            Some(credential) => {
                let server_uri: Option<String> = match parse_uri(
                    server_uri(self.config.sip_server.as_str()).as_str(),
                ) {
                    Ok(uri) => Some(uri),
                    Err(_) => None,
                };
                Some(
                    UnregisterPlan {
                        credential: credential.copy(),
                        server_uri,
                        outbound_proxy: self.sip_server_addr,
                    },
                )
            },
            None => None,
        }
    }

    /// The registration was withdrawn, whatever the server made of it.
    pub fn unregistered(&mut self) -> (event: EndpointEvent)
        ensures
            event@ == EventView::Unregistered,
            final(self)@ == old(self)@.lapsed(),
    {
        self.registered = false;
        EndpointEvent::Unregistered
    }
}

/// An endpoint that is connected and was granted a registration can place calls, and still can after
/// the registration ends.
pub proof fn a_registered_endpoint_can_call(e: EndpointView, plan: RegisterView)
    requires
        e.connected,
        e.local_addr is Some,
    ensures
        e.granted(plan).registered,
        e.granted(plan).unready() is None,
        !e.granted(plan).lapsed().registered,
        e.granted(plan).lapsed().unready() is None,
{
}

/// Registering and unregistering touches no call.
pub proof fn registering_touches_no_call(e: EndpointView, plan: RegisterView)
    ensures
        e.granted(plan).calls == e.calls,
        e.lapsed().calls == e.calls,
{
}

/// We are to be contacted where the outside world sees us, where that is known, else at our end of
/// the connection, on its port or on 5060.
pub proof fn the_public_address_is_the_contact(e: EndpointView, public: Option<PublicAddr>)
    ensures
        public matches Some(p) ==> e.contact_host(public) == p.ip@,
        public matches Some(p) ==> (p.addr matches NetAddr::V4 { port, .. } ==> e.contact_port(
            public,
        ) == port),
        public matches Some(p) ==> (p.addr matches NetAddr::V6 { port, .. } ==> e.contact_port(
            public,
        ) == port),
        public is None && e.local_addr is Some ==> e.contact_host(public) == e.local_addr->0.host,
        public is None && e.local_addr is Some && e.local_addr->0.port is Some ==> e.contact_port(
            public,
        ) == e.local_addr->0.port->0,
        public is None && e.local_addr is Some && e.local_addr->0.port is None ==> e.contact_port(
            public,
        ) == 5060,
{
}

/// A registration that is granted makes its terms ours, and changes nothing else.
pub proof fn the_terms_of_a_registration_become_ours(e: EndpointView, plan: RegisterView)
    ensures
        e.granted(plan).registered,
        e.granted(plan).credential == Some(plan.credential),
        e.granted(plan).contact_uri == Some(plan.contact),
        e.granted(plan).aor == Some(plan.aor),
        e.granted(plan).public_addr == plan.public_addr,
        e.granted(plan).config == e.config,
        e.granted(plan).connected == e.connected,
        e.granted(plan).local_addr == e.local_addr,
        e.granted(plan).sip_server_addr == e.sip_server_addr,
        e.granted(plan).cancelled == e.cancelled,
        e.granted(plan).next_async_id == e.next_async_id,
        e.granted(plan).calls == e.calls,
{
}

/// A registration that ended is no longer there; what it left stays.
pub proof fn an_ended_registration_leaves_its_terms(e: EndpointView)
    ensures
        !e.lapsed().registered,
        e.lapsed().credential == e.credential,
        e.lapsed().contact_uri == e.contact_uri,
        e.lapsed().aor == e.aor,
        e.lapsed().public_addr == e.public_addr,
        e.lapsed().config == e.config,
        e.lapsed().connected == e.connected,
        e.lapsed().local_addr == e.local_addr,
        e.lapsed().sip_server_addr == e.sip_server_addr,
        e.lapsed().cancelled == e.cancelled,
        e.lapsed().next_async_id == e.next_async_id,
        e.lapsed().calls == e.calls,
{
}

/// A registration is withdrawn exactly where there is a connection and a credential: with that
/// credential, over the open connection, and at the server's URI where its name makes one.
pub proof fn a_registration_is_withdrawn_with_its_credential(
    e: EndpointView,
    plan: Option<UnregisterPlan>,
)
    requires
        e.withdraws(plan),
    ensures
        plan is Some <==> e.connected && e.credential is Some,
        plan matches Some(p) ==> {
            &&& p.credential.username@ == e.credential->0.username
            &&& p.credential.password@ == e.credential->0.password
            &&& p.outbound_proxy == e.sip_server_addr
            &&& p.server_uri is Some <==> uri_reading(
                "sip:"@ + e.config.sip_server@ + ";transport=tcp"@,
            ) is Ok
            &&& p.server_uri matches Some(uri) ==> uri@ == uri_reading(
                "sip:"@ + e.config.sip_server@ + ";transport=tcp"@,
            )->Ok_0
        },
{
}

/// A registration is made of what was read for it, each part in its place; where something could not
/// be read, it fails for the first of the reasons.
pub proof fn a_registration_has_its_parts_in_place(
    credential: CredentialView,
    contact: Result<Seq<char>, Seq<char>>,
    public_host: Result<Seq<char>, Seq<char>>,
    server_uri: Result<Seq<char>, Seq<char>>,
    aor: Result<Seq<char>, Seq<char>>,
    outbound_proxy: Option<NetAddr>,
    expires: u32,
    public_addr: Option<NetAddr>,
)
    ensures
        ({
            let r = registration(
                credential,
                contact,
                public_host,
                server_uri,
                aor,
                outbound_proxy,
                expires,
                public_addr,
            );
            &&& r is Ok <==> contact is Ok && public_host is Ok && server_uri is Ok && aor is Ok
            &&& r is Ok ==> {
                &&& r->Ok_0.credential == credential
                &&& r->Ok_0.contact == contact->Ok_0
                &&& r->Ok_0.public_host == public_host->Ok_0
                &&& r->Ok_0.server_uri == server_uri->Ok_0
                &&& r->Ok_0.aor == aor->Ok_0
                &&& r->Ok_0.outbound_proxy == outbound_proxy
                &&& r->Ok_0.expires == expires
                &&& r->Ok_0.public_addr == public_addr
            }
            &&& contact matches Err(why) ==> r->Err_0 == why
            &&& contact is Ok ==> (public_host matches Err(why) ==> r->Err_0 == why)
            &&& contact is Ok && public_host is Ok ==> (server_uri matches Err(why) ==> r->Err_0
                == why)
            &&& contact is Ok && public_host is Ok && server_uri is Ok ==> (aor matches Err(why)
                ==> r->Err_0 == why)
        }),
{
}

/// A status other than success is reported as its line behind `SIP` and a space.
pub proof fn a_status_is_reported_with_its_line(code: u16, reason: Seq<char>)
    ensures
        status_message(code, reason).len() == 4 + status_line(code, reason).len(),
        status_message(code, reason).take(4) == "SIP "@,
        status_message(code, reason).skip(4) == status_line(code, reason),
{
    reveal_strlit("SIP ");
    assert(status_message(code, reason).take(4) =~= "SIP "@);
    assert(status_message(code, reason).skip(4) =~= status_line(code, reason));
}

/// The registration as a model shows what is held of it, each part in its place.
pub proof fn the_model_shows_the_registration(p: RegisterPlan)
    ensures
        p@.credential.username == p.credential.username@,
        p@.credential.password == p.credential.password@,
        p@.contact == p.contact@,
        p@.public_host == p.public_host@,
        p@.server_uri == p.server_uri@,
        p@.aor == p.aor@,
        p@.outbound_proxy == p.outbound_proxy,
        p@.expires == p.expires,
        p@.public_addr == p.public_addr,
{
}

} // verus!
