//! SIP URIs, as text.

use crate::error::{EndpointError, ErrorView};
use crate::text::{a_text_contains_its_parts, a_written_number_reads_back, contains, contains_text, decimal, decimal_digits_are_worth_the_number, decimal_text, number};
use vstd::prelude::*;
use vstd::string::*;

verus! {

/// A result over texts as a result over sequences.
pub open spec fn reading_view(r: Result<String, String>) -> Result<Seq<char>, Seq<char>> {
    match r {
        Ok(text) => Ok(text@),
        Err(text) => Err(text@),
    }
}

/// What `rsip` reads from the text of a URI: the URI as it displays, or the error as it prints for
/// debugging.
pub uninterp spec fn uri_reading(text: Seq<char>) -> Result<Seq<char>, Seq<char>>;

/// What `rsip` reads from the text of a host with a port.
pub uninterp spec fn host_reading(text: Seq<char>) -> Result<Seq<char>, Seq<char>>;

/// `rsip::Uri::try_from`, with the URI displayed and the error printed for debugging: a function of
/// the text.
#[verifier::external_body]
pub(crate) fn parse_uri(text: &str) -> (r: Result<String, String>)
    ensures
        reading_view(r) == uri_reading(text@),
{
    match rsip::Uri::try_from(text) {
        Ok(uri) => Ok(uri.to_string()),
        Err(e) => Err(format!("{:?}", e)),
    }
}

/// `rsip::HostWithPort::try_from`, with the host displayed and the error printed for debugging: a
/// function of the text.
#[verifier::external_body]
pub(crate) fn parse_host(text: &str) -> (r: Result<String, String>)
    ensures
        reading_view(r) == host_reading(text@),
{
    match rsip::HostWithPort::try_from(text) {
        Ok(host) => Ok(host.to_string()),
        Err(e) => Err(format!("{:?}", e)),
    }
}

/// A text that was read, or the error of one that could not be.
pub fn accepted(reading: Result<String, String>) -> (r: Result<String, EndpointError>)
    ensures
        match reading {
            Ok(text) => r is Ok && r->Ok_0@ == text@,
            Err(why) => r is Err && r->Err_0@ == ErrorView::Other(why@),
        },
{
    match reading {
        Ok(text) => Ok(text),
        Err(why) => Err(EndpointError::Other(why)),
    }
}

/// Reads a URI.
pub fn read_uri(text: &str) -> (r: Result<String, EndpointError>)
    ensures
        match uri_reading(text@) {
            Ok(uri) => r is Ok && r->Ok_0@ == uri,
            Err(why) => r is Err && r->Err_0@ == ErrorView::Other(why),
        },
{
    accepted(parse_uri(text))
}

/// Reads a host with a port.
pub fn read_host(text: &str) -> (r: Result<String, EndpointError>)
    ensures
        match host_reading(text@) {
            Ok(host) => r is Ok && r->Ok_0@ == host,
            Err(why) => r is Err && r->Err_0@ == ErrorView::Other(why),
        },
{
    accepted(parse_host(text))
}

/// `host:port`.
pub open spec fn authority(host: Seq<char>, port: u16) -> Seq<char> {
    host + ":"@ + decimal(port as nat)
}

pub fn authority_text(host: &str, port: u16) -> (s: String)
    ensures
        s@ == authority(host@, port),
{
    let mut s = host.to_owned();
    s.append(":");
    s.append(decimal_text(port as u64).as_str());
    s
}

/// `sip:user@host:port;transport=tcp`, where the server reaches us over the connection we opened.
pub open spec fn contact_text(user: Seq<char>, host: Seq<char>, port: u16) -> Seq<char> {
    "sip:"@ + user + "@"@ + authority(host, port) + ";transport=tcp"@
}

pub fn contact_uri(user: &str, host: &str, port: u16) -> (s: String)
    ensures
        s@ == contact_text(user@, host@, port),
{
    let mut s = "sip:".to_owned();
    s.append(user);
    s.append("@");
    s.append(authority_text(host, port).as_str());
    s.append(";transport=tcp");
    s
}

/// `sip:server;transport=tcp`.
pub open spec fn server_text(server: Seq<char>) -> Seq<char> {
    "sip:"@ + server + ";transport=tcp"@
}

pub fn server_uri(server: &str) -> (s: String)
    ensures
        s@ == server_text(server@),
{
    let mut s = "sip:".to_owned();
    s.append(server);
    s.append(";transport=tcp");
    s
}

/// `sip:user@server`, the address of record.
pub open spec fn aor_text(user: Seq<char>, server: Seq<char>) -> Seq<char> {
    "sip:"@ + user + "@"@ + server
}

pub fn aor_uri(user: &str, server: &str) -> (s: String)
    ensures
        s@ == aor_text(user@, server@),
{
    let mut s = "sip:".to_owned();
    s.append(user);
    s.append("@");
    s.append(server);
    s
}

/// A destination that names its transport; one that names none is reached over TCP.
pub open spec fn over_tcp(dest: Seq<char>) -> Seq<char> {
    if contains_text(dest, "transport="@) {
        dest
    } else {
        dest + ";transport=tcp"@
    }
}

pub fn with_transport(dest: &str) -> (s: String)
    ensures
        s@ == over_tcp(dest@),
{
    let mut s = dest.to_owned();
    if !contains(dest, "transport=") {
        s.append(";transport=tcp");
    }
    s
}

/// A destination always names its transport, and naming it again changes nothing.
pub proof fn transport_is_named_once(dest: Seq<char>)
    ensures
        contains_text(over_tcp(dest), "transport="@),
        over_tcp(over_tcp(dest)) == over_tcp(dest),
{
    if !contains_text(dest, "transport="@) {
        reveal_strlit("transport=");
        reveal_strlit(";transport=tcp");
        let at = dest.len() as int + 1;
        assert(over_tcp(dest).subrange(at, at + 10) =~= "transport="@);
        assert(crate::text::occurs_at(over_tcp(dest), "transport="@, at));
    }
}

/// A host and a port are written with a colon between them, and the port can be read back from
/// behind it.
pub proof fn a_port_stands_behind_its_host(host: Seq<char>, port: u16)
    ensures
        ({
            let text = authority(host, port);
            &&& text.len() > host.len() + 1
            &&& text.take(host.len() as int) == host
            &&& text[host.len() as int] == ':'
            &&& number(text.skip(host.len() as int + 1)) == Some(port as u32)
            &&& text.skip(host.len() as int + 1) == decimal(port as nat)
        }),
{
    reveal_strlit(":");
    decimal_digits_are_worth_the_number(port as nat);
    a_written_number_reads_back(port as u32);
    let text = authority(host, port);
    assert(text.take(host.len() as int) =~= host);
    assert(text.skip(host.len() as int + 1) =~= decimal(port as nat));
}

/// The URIs that a registration is made of name the user at the host and port, the server, and the
/// user at the server; the first two say that they are reached over TCP.
pub proof fn uris_name_user_and_host(user: Seq<char>, host: Seq<char>, port: u16, server: Seq<char>)
    ensures
        contact_text(user, host, port) == "sip:"@ + user + "@"@ + host + ":"@ + decimal(
            port as nat,
        ) + ";transport=tcp"@,
        server_text(server) == "sip:"@ + server + ";transport=tcp"@,
        aor_text(user, server) == "sip:"@ + user + "@"@ + server,
        over_tcp(contact_text(user, host, port)) == contact_text(user, host, port),
        over_tcp(server_text(server)) == server_text(server),
{
    assert(contact_text(user, host, port) =~= "sip:"@ + user + "@"@ + host + ":"@ + decimal(
        port as nat,
    ) + ";transport=tcp"@);
    ends_with_its_transport("sip:"@ + user + "@"@ + authority(host, port));
    ends_with_its_transport("sip:"@ + server);
}

proof fn ends_with_its_transport(text: Seq<char>)
    ensures
        contains_text(text + ";transport=tcp"@, "transport="@),
{
    reveal_strlit("transport=");
    reveal_strlit(";transport=tcp");
    reveal_strlit("tcp");
    a_text_contains_its_parts(text + seq![';'], "transport="@, "tcp"@);
    assert(text + ";transport=tcp"@ =~= text + seq![';'] + "transport="@ + "tcp"@);
}

/// A destination that names a transport is called as it stands; any other is called as it stands
/// with TCP named behind it.
pub proof fn a_destination_is_kept(dest: Seq<char>)
    ensures
        contains_text(dest, "transport="@) ==> over_tcp(dest) == dest,
        !contains_text(dest, "transport="@) ==> over_tcp(dest) == dest + ";transport=tcp"@,
{
}

} // verus!
