use sip_transport::call::{call_id_of, choose_call_id, media_ip, random_call_id, session_refresh};
use sip_transport::endpoint::{dispatch, Dispatch, MatchedDialog};
use sip_transport::message::{caller_of, classify_termination, extract_x_headers, extract_x_headers_from_request, has_established_dialog_tag, has_tag, parse_session_expires, Request, Response, SipHeader, TerminatedReason};
use sip_transport::error::{err, EndpointError};
use sip_transport::session::{CallDirection, CallSession};
use sip_transport::text::{contains, decimal_text, eq_ignore_ascii_case, hex_text, leading_number, replace, starts_with};
use sip_transport::transport::{IpAddress, NetAddr};
use sip_transport::uri::{accepted, aor_uri, authority_text, contact_uri, read_host, read_uri, server_uri, with_transport};

fn invite_with_to(to: &str) -> Request {
    Request {
        headers: vec![
            SipHeader::From("\"testcaller\" <sip:testcaller@10.0.0.2>;tag=0D0t2D2DUjecQ".to_string()),
            SipHeader::To(to.to_string()),
            SipHeader::Defined { name: "Call-ID".to_string(), value: "abc123@10.0.0.2".to_string() },
            SipHeader::Defined { name: "CSeq".to_string(), value: "2 INVITE".to_string() },
        ],
        body: Vec::new(),
    }
}

fn response(headers: Vec<SipHeader>) -> Response {
    Response { code: 200, reason: "OK".to_string(), headers, body: Vec::new() }
}

fn extra(name: &str, value: &str) -> SipHeader {
    SipHeader::Other(name.to_string(), value.to_string())
}

fn session() -> CallSession {
    CallSession::new("c1".to_string(), CallDirection::Outbound)
}

#[test]
fn outbound_uac_bye_is_local() {
    assert_eq!(classify_termination(&TerminatedReason::UacBye, CallDirection::Outbound), "locally");
}

#[test]
fn outbound_uas_bye_is_remote() {
    assert_eq!(classify_termination(&TerminatedReason::UasBye, CallDirection::Outbound), "by remote");
}

#[test]
fn inbound_uac_bye_is_remote() {
    assert_eq!(classify_termination(&TerminatedReason::UacBye, CallDirection::Inbound), "by remote");
}

#[test]
fn inbound_uas_bye_is_local() {
    assert_eq!(classify_termination(&TerminatedReason::UasBye, CallDirection::Inbound), "locally");
}

#[test]
fn outbound_uac_cancel_is_local() {
    assert_eq!(classify_termination(&TerminatedReason::UacCancel, CallDirection::Outbound), "locally");
}

#[test]
fn inbound_uas_decline_is_local() {
    assert_eq!(classify_termination(&TerminatedReason::UasDecline, CallDirection::Inbound), "locally");
}

#[test]
fn outbound_uas_busy_is_remote() {
    assert_eq!(classify_termination(&TerminatedReason::UasBusy, CallDirection::Outbound), "by remote");
}

#[test]
fn timeout_classified_separately() {
    assert_eq!(classify_termination(&TerminatedReason::Timeout, CallDirection::Outbound), "by timeout");
    assert_eq!(classify_termination(&TerminatedReason::Timeout, CallDirection::Inbound), "by timeout");
}

#[test]
fn proxy_error_classified_as_proxy() {
    assert_eq!(
        classify_termination(&TerminatedReason::ProxyError(500), CallDirection::Outbound),
        "by proxy"
    );
    assert_eq!(
        classify_termination(&TerminatedReason::ProxyAuthRequired, CallDirection::Outbound),
        "by proxy"
    );
}

#[test]
fn uas_other_and_uac_other_classified_by_direction() {
    assert_eq!(
        classify_termination(&TerminatedReason::UacOther(401), CallDirection::Outbound),
        "locally"
    );
    assert_eq!(
        classify_termination(&TerminatedReason::UasOther(500), CallDirection::Outbound),
        "by remote"
    );
}

#[test]
fn dialog_forming_invite_has_no_to_tag() {
    assert!(!has_established_dialog_tag(&invite_with_to("<sip:bot@10.0.0.1>")));
}

#[test]
fn session_refresh_reinvite_has_to_tag() {
    assert!(has_established_dialog_tag(&invite_with_to("<sip:bot@10.0.0.1>;tag=g9hR4bKlocal")));
}

#[test]
fn a_request_without_a_to_header_has_no_tag() {
    assert!(!has_established_dialog_tag(&Request { headers: vec![], body: vec![] }));
    assert!(has_tag(Some("x".to_string())));
    assert!(!has_tag(None));
}

#[test]
fn what_ends_locally_for_us_ends_remotely_for_the_peer() {
    for reason in [TerminatedReason::UacBye, TerminatedReason::UacBusy, TerminatedReason::UacOther(487)] {
        assert_eq!(classify_termination(&reason, CallDirection::Outbound), "locally");
        assert_eq!(classify_termination(&reason, CallDirection::Inbound), "by remote");
    }
}

#[test]
fn an_in_dialog_invite_never_starts_a_call() {
    let fresh = invite_with_to("<sip:bot@10.0.0.1>");
    let tagged = invite_with_to("<sip:bot@10.0.0.1>;tag=g9hR4bKlocal");
    assert_eq!(dispatch(None, true, &fresh), Dispatch::NewCall);
    assert_eq!(dispatch(None, true, &tagged), Dispatch::NoSuchDialog);
    assert_eq!(dispatch(None, false, &fresh), Dispatch::Ignore);
    assert_eq!(dispatch(Some(MatchedDialog::Call), true, &tagged), Dispatch::InDialog);
    assert_eq!(dispatch(Some(MatchedDialog::Call), true, &fresh), Dispatch::InDialog);
    assert_eq!(dispatch(Some(MatchedDialog::Other), true, &fresh), Dispatch::Ignore);
}

#[test]
fn the_caller_is_the_from_header_as_displayed() {
    let line = caller_of(&invite_with_to("<sip:bot@10.0.0.1>")).unwrap();
    assert_eq!(line, "From: \"testcaller\" <sip:testcaller@10.0.0.2>;tag=0D0t2D2DUjecQ");
    assert!(caller_of(&Request { headers: vec![], body: vec![] }).is_none());
}

#[test]
fn x_headers_are_passed_on_and_later_ones_win() {
    let mut s = session();
    extract_x_headers(
        &response(vec![extra("X-One", "1"), extra("x-two", "2"), extra("Via-X", "3"), extra("X-One", "4")]),
        &mut s,
    );
    assert_eq!(s.extra_headers.get("X-One").unwrap(), "4");
    assert_eq!(s.extra_headers.get("x-two").unwrap(), "2");
    assert!(s.extra_headers.get("Via-X").is_none());
    assert!(s.call_uuid.is_none());
}

#[test]
fn the_call_uuid_is_taken_from_the_headers_once() {
    let mut s = session();
    extract_x_headers_from_request(
        &Request { headers: vec![extra("X-Plivo-CallUUID", "p"), extra("X-CallUUID", "u")], body: vec![] },
        &mut s,
    );
    assert_eq!(s.call_uuid.as_deref(), Some("u"));
    extract_x_headers(&response(vec![extra("X-CallUUID", "v")]), &mut s);
    assert_eq!(s.call_uuid.as_deref(), Some("u"));
    let mut p = session();
    extract_x_headers(&response(vec![extra("X-Plivo-CallUUID", "p")]), &mut p);
    assert_eq!(p.call_uuid.as_deref(), Some("p"));
}

#[test]
fn session_expires_is_read() {
    assert_eq!(parse_session_expires(&response(vec![extra("session-expires", " 1800 ;refresher=uac")])), Some(1800));
    assert_eq!(parse_session_expires(&response(vec![extra("Session-Expires", "+90")])), Some(90));
    assert_eq!(parse_session_expires(&response(vec![extra("Session-Expires", "soon"), extra("Session-Expires", "90")])), None);
    assert_eq!(parse_session_expires(&response(vec![extra("Session-Expires", "4294967296")])), None);
    assert_eq!(parse_session_expires(&response(vec![extra("Session-Expires", "")])), None);
    assert_eq!(parse_session_expires(&response(vec![])), None);
}

#[test]
fn sessions_are_refreshed_at_half_their_lifetime_but_not_too_often() {
    assert_eq!(session_refresh(Some(1800)), Some(900));
    assert_eq!(session_refresh(Some(61)), Some(30));
    assert_eq!(session_refresh(Some(62)), Some(31));
    assert_eq!(session_refresh(Some(0)), Some(30));
    assert_eq!(session_refresh(None), None);
}

#[test]
fn numbers_are_written() {
    assert_eq!(decimal_text(0), "0");
    assert_eq!(decimal_text(u64::MAX), "18446744073709551615");
    assert_eq!(hex_text(0xbeef, 8), "0000beef");
}

#[test]
fn call_ids_are_sixteen_digits_and_differ() {
    assert_eq!(call_id_of(0x1f), "c000000000000001f");
    assert_eq!(call_id_of(u64::MAX), "cffffffffffffffff");
    assert_ne!(call_id_of(1), call_id_of(1 << 60));
    let drawn: Vec<String> = (0..3).map(|_| random_call_id()).collect();
    assert!(drawn.iter().all(|id| id.len() == 17 && id.starts_with('c')));
    assert_ne!(drawn[0], drawn[1]);
    assert_eq!(choose_call_id(Some("mine".to_string())), "mine");
    assert_eq!(choose_call_id(None).len(), 17);
}

#[test]
fn texts_are_searched_and_replaced() {
    assert!(contains("sip:a;transport=udp", "transport="));
    assert!(!contains("sip:a", "transport="));
    assert!(contains("a", ""));
    assert!(starts_with("X-Foo", "X-"));
    assert!(!starts_with("X", "X-"));
    assert_eq!(replace("aaa", "aa", "b"), "ba");
    assert_eq!(replace("none", "x", "y"), "none");
    assert!(eq_ignore_ascii_case("SESSION-expires", "Session-Expires"));
    assert!(!eq_ignore_ascii_case("Session_Expires", "Session-Expires"));
    assert_eq!(leading_number("12;x"), Some(12));
}

#[test]
fn uris_are_built() {
    assert_eq!(contact_uri("bot", "1.2.3.4", 5060), "sip:bot@1.2.3.4:5060;transport=tcp");
    assert_eq!(server_uri("example.com"), "sip:example.com;transport=tcp");
    assert_eq!(aor_uri("bot", "example.com"), "sip:bot@example.com");
    assert_eq!(authority_text("example.com", 5061), "example.com:5061");
    assert_eq!(with_transport("sip:a@b"), "sip:a@b;transport=tcp");
    assert_eq!(with_transport("sip:a@b;transport=udp"), "sip:a@b;transport=udp");
    assert_eq!(with_transport(&with_transport("sip:a@b")), with_transport("sip:a@b"));
}

#[test]
fn uris_are_read_and_displayed() {
    assert_eq!(read_uri("sip:bot@example.com:5061;transport=tcp").unwrap(), "sip:bot@example.com:5061;transport=TCP");
    assert_eq!(read_host("10.0.0.1:5060").unwrap(), "10.0.0.1:5060");
    assert!(matches!(read_uri("sip:bot@example.com;transport=pigeon"), Err(EndpointError::Other(_))));
    assert!(matches!(read_host("10.0.0.1:port"), Err(EndpointError::Other(_))));
    assert!(matches!(accepted(Err("why".to_string())), Err(EndpointError::Other(why)) if why == "why"));
    assert_eq!(accepted(Ok("uri".to_string())).unwrap(), "uri");
}

#[test]
fn errors_carry_what_is_displayed() {
    match err(&17) {
        EndpointError::Other(text) => assert_eq!(text, "17"),
        _ => panic!("another error"),
    }
}

#[test]
fn media_is_announced_at_the_public_address_if_there_is_one() {
    let public = NetAddr::V4 { ip: 7, port: 1 };
    let local = IpAddress::V4 { ip: 8 };
    assert_eq!(media_ip(Some(public), Some(local)), IpAddress::V4 { ip: 7 });
    assert_eq!(media_ip(None, Some(local)), local);
    assert_eq!(media_ip(None, None), IpAddress::V4 { ip: 0 });
}
