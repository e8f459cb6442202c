use sip_transport::audio::AudioFrame;
use sip_transport::call::{new_call_context, setup_rtp_attach, DialogSide, SdpAnswer};
use sip_transport::calling::{name_caller, DialogEvent, WatchStep};
use sip_transport::codec::Codec;
use sip_transport::control::DtmfPlan;
use sip_transport::endpoint::{EndpointConfig, LocalAddr, SipEndpoint};
use sip_transport::error::EndpointError;
use sip_transport::event::EndpointEvent;
use sip_transport::media::{notify, recording_mode, samples_to_queue, AudioPush, Conversion, DirectPush, PlayoutFlag, PlayoutWait, Queue, RecordingMode};
use sip_transport::message::{Request, Response, SipHeader, TerminatedReason};
use sip_transport::registration::{reregister_period, PublicAddr};
use sip_transport::session::{CallDirection, CallState};
use sip_transport::transport::{IpAddress, NetAddr};

fn config() -> EndpointConfig {
    EndpointConfig {
        sip_server: "example.com".to_string(),
        sip_port: 5060,
        stun_server: "stun.example.com:3478".to_string(),
        codecs: vec![Codec::PCMU, Codec::PCMA],
        input_sample_rate: 16000,
        output_sample_rate: 24000,
        register_expires: 120,
        user_agent: "test".to_string(),
    }
}

fn server() -> NetAddr {
    NetAddr::V4 { ip: 0x0a00_0001, port: 5060 }
}

fn connected() -> SipEndpoint {
    let mut e = SipEndpoint::new(config()).unwrap();
    e.connected(LocalAddr { host: "192.168.1.5".to_string(), port: Some(40000) }, server());
    e
}

fn registered() -> SipEndpoint {
    let mut e = connected();
    let plan = e.register("bot", "pw", None).unwrap();
    let (r, event) = e.on_register_response(plan, 200, "OK");
    assert!(r.is_ok());
    assert!(matches!(event, EndpointEvent::Registered));
    e
}

fn request() -> Request {
    Request {
        headers: vec![
            SipHeader::From("<sip:alice@10.0.0.2>;tag=1".to_string()),
            SipHeader::Other("X-CallUUID".to_string(), "uuid-1".to_string()),
        ],
        body: b"v=0".to_vec(),
    }
}

fn ringing() -> SipEndpoint {
    let mut e = registered();
    e.incoming_call("c1", &request());
    e
}

fn answer_sdp() -> SdpAnswer {
    SdpAnswer {
        remote_ip: IpAddress::V4 { ip: 9 },
        remote_port: 4000,
        codec: Codec::PCMA,
        dtmf_payload_type: None,
        ptime_ms: 20,
    }
}

fn answered() -> SipEndpoint {
    let mut e = ringing();
    e.auto_answer_inbound("c1", &answer_sdp(), "v=0\r\na=sendrecv\r\n".to_string()).unwrap();
    e
}

fn frame(rate: u32) -> AudioFrame {
    AudioFrame { data: vec![1, 2], sample_rate: rate, num_channels: 1, samples_per_channel: 2 }
}

fn response(code: u16, reason: &str) -> Response {
    Response {
        code,
        reason: reason.to_string(),
        headers: vec![SipHeader::Other("X-Trunk".to_string(), "t".to_string())],
        body: vec![],
    }
}

fn inactive<T>(r: Result<T, EndpointError>) -> bool {
    matches!(r, Err(EndpointError::CallNotActive(id)) if id == "gone")
}

fn failed_with<T>(r: Result<T, EndpointError>, text: &str) -> bool {
    matches!(r, Err(EndpointError::Other(why)) if why == text)
}

fn terminated(event: Option<EndpointEvent>, reason: &str) -> bool {
    matches!(event, Some(EndpointEvent::CallTerminated { session, reason: r }) if session.call_id == "c1" && r == reason)
}

#[test]
fn sample_rates_must_not_be_zero() {
    let mut c = config();
    c.input_sample_rate = 0;
    assert!(failed_with(SipEndpoint::new(c), "sample_rate must be > 0"));
    let mut c = config();
    c.output_sample_rate = 0;
    assert!(failed_with(SipEndpoint::new(c), "sample_rate must be > 0"));
    let e = SipEndpoint::new(config()).unwrap();
    assert_eq!((e.input_sample_rate(), e.output_sample_rate()), (16000, 24000));
    assert!(!e.is_registered());
}

#[test]
fn the_server_is_looked_up() {
    let e = SipEndpoint::new(config()).unwrap();
    assert_eq!(e.server_authority(), "example.com:5060");
    assert_eq!(e.resolved(Ok(Some(server()))).unwrap(), server());
    assert!(failed_with(e.resolved(Ok(None)), "DNS returned no results for example.com"));
    assert!(failed_with(e.resolved(Err("timed out".to_string())), "DNS resolve example.com:5060: timed out"));
    assert_eq!(e.server_host("10.0.0.1", 5060).unwrap(), "10.0.0.1:5060");
    match e.connect_failed("10.0.0.1:5060", "refused") {
        EndpointError::Other(why) => assert_eq!(why, "TCP connect to 10.0.0.1:5060: refused"),
        _ => panic!("another error"),
    }
}

#[test]
fn a_registration_names_our_end_of_the_connection() {
    let plan = connected().register("bot", "pw", None).unwrap();
    assert_eq!(plan.contact, "sip:bot@192.168.1.5:40000;transport=TCP");
    assert_eq!(plan.public_host, "192.168.1.5:40000");
    assert_eq!(plan.server_uri, "sip:example.com;transport=TCP");
    assert_eq!(plan.aor, "sip:bot@example.com");
    assert_eq!((plan.credential.username.as_str(), plan.credential.password.as_str()), ("bot", "pw"));
    assert_eq!((plan.outbound_proxy, plan.expires, plan.public_addr), (Some(server()), 120, None));
}

#[test]
fn a_registration_names_the_public_address_if_there_is_one() {
    let public = NetAddr::V4 { ip: 0x0102_0304, port: 7000 };
    let plan = connected()
        .register("bot", "pw", Some(PublicAddr { addr: public, ip: "1.2.3.4".to_string() }))
        .unwrap();
    assert_eq!(plan.contact, "sip:bot@1.2.3.4:7000;transport=TCP");
    assert_eq!(plan.public_host, "1.2.3.4:7000");
    assert_eq!(plan.public_addr, Some(public));
}

#[test]
fn a_connection_without_a_port_is_contacted_at_the_usual_one() {
    let mut e = SipEndpoint::new(config()).unwrap();
    e.connected(LocalAddr { host: "192.168.1.5".to_string(), port: None }, server());
    assert_eq!(e.register("bot", "pw", None).unwrap().public_host, "192.168.1.5:5060");
}

#[test]
fn a_server_name_that_makes_no_uri_is_refused() {
    let mut c = config();
    c.sip_server = "example.com;transport=pigeon".to_string();
    let mut e = SipEndpoint::new(c).unwrap();
    e.connected(LocalAddr { host: "192.168.1.5".to_string(), port: None }, server());
    assert!(matches!(e.register("bot", "pw", None), Err(EndpointError::Other(_))));
}

#[test]
fn a_refused_registration_is_reported() {
    let mut e = connected();
    let plan = e.register("bot", "pw", None).unwrap();
    let (r, event) = e.on_register_response(plan, 403, "Forbidden");
    assert!(matches!(r, Err(EndpointError::Sip { code: 403, message }) if message == "SIP 403 Forbidden"));
    assert!(matches!(event, EndpointEvent::RegistrationFailed { error } if error == "SIP 403 Forbidden"));
    assert!(!e.is_registered());
    assert!(e.aor.is_none());
}

#[test]
fn an_unknown_status_keeps_its_phrase() {
    let mut e = connected();
    let plan = e.register("bot", "pw", None).unwrap();
    let (r, _) = e.on_register_response(plan, 699, "Go Away");
    assert!(matches!(r, Err(EndpointError::Sip { code: 699, message }) if message == "SIP 699 Go Away"));
}

#[test]
fn a_repeated_registration_can_fail_but_not_restore() {
    let mut e = registered();
    assert!(e.on_reregister(Ok((200, "OK".to_string()))).is_none());
    assert!(e.is_registered());
    let event = e.on_reregister(Ok((503, "x".to_string())));
    assert!(matches!(event, Some(EndpointEvent::RegistrationFailed { error }) if error == "503 ServiceUnavailable"));
    assert!(!e.is_registered());
    assert!(e.on_reregister(Ok((200, "OK".to_string()))).is_none());
    assert!(!e.is_registered());
    let event = e.on_reregister(Err("no route".to_string()));
    assert!(matches!(event, Some(EndpointEvent::RegistrationFailed { error }) if error == "no route"));
}

#[test]
fn registrations_are_repeated_no_sooner_than_every_fifty_seconds() {
    assert_eq!(reregister_period(10), 50);
    assert_eq!(reregister_period(50), 50);
    assert_eq!(reregister_period(3600), 3600);
}

#[test]
fn unregistering_needs_a_connection_and_a_credential() {
    assert!(SipEndpoint::new(config()).unwrap().unregister().is_none());
    assert!(connected().unregister().is_none());
    let mut e = registered();
    let plan = e.unregister().unwrap();
    assert_eq!(plan.server_uri.as_deref(), Some("sip:example.com;transport=TCP"));
    assert_eq!((plan.credential.username.as_str(), plan.outbound_proxy), ("bot", Some(server())));
    assert!(matches!(e.unregistered(), EndpointEvent::Unregistered));
    assert!(!e.is_registered());
    assert!(e.call("sip:a@b", None).is_ok());
}

#[test]
fn a_server_name_that_makes_no_uri_is_unregistered_from_by_default() {
    let mut e = registered();
    e.config.sip_server = "example.com;transport=pigeon".to_string();
    assert!(e.unregister().unwrap().server_uri.is_none());
}

#[test]
fn calls_need_a_connection_and_a_registration() {
    let e = SipEndpoint::new(config()).unwrap();
    assert!(matches!(e.call("sip:a@b", None), Err(EndpointError::NotInitialized)));
    assert!(matches!(connected().call("sip:a@b", None), Err(EndpointError::NotRegistered)));
    let mut e = registered();
    e.aor = None;
    assert!(matches!(e.call("sip:a@b", None), Err(EndpointError::NotRegistered)));
    let mut e = registered();
    e.local_addr = None;
    assert!(matches!(e.call("sip:a@b", None), Err(EndpointError::NotInitialized)));
}

#[test]
fn a_call_is_placed_from_the_address_of_record() {
    let out = registered().call("sip:a@b.org", Some(vec![("X-A".to_string(), "1".to_string())])).unwrap();
    assert_eq!(out.caller, "sip:bot@example.com");
    assert_eq!(out.contact, "sip:bot@192.168.1.5:40000;transport=TCP");
    assert_eq!((out.dest.as_str(), out.local_host.as_str()), ("sip:a@b.org", "192.168.1.5"));
    assert_eq!(out.headers, Some(vec![("X-A".to_string(), "1".to_string())]));
    assert_eq!(out.callee().unwrap(), "sip:a@b.org;transport=TCP");
}

#[test]
fn a_call_can_name_another_caller() {
    let e = registered();
    let out = e.call_with_from("sip:a@b.org;transport=udp", Some("sip:sales@example.com"), None, Some("mine".to_string())).unwrap();
    assert_eq!(out.caller, "sip:sales@example.com");
    assert_eq!(out.external_call_id.as_deref(), Some("mine"));
    assert_eq!(out.callee().unwrap(), "sip:a@b.org;transport=UDP");
    let r = e.call_with_from("sip:a@b.org", Some("sip:x@y;transport=pigeon"), None, None);
    assert!(matches!(r, Err(EndpointError::Other(why)) if why.starts_with("invalid from_uri: ")));
    assert!(failed_with(name_caller(Some(Err("bad".to_string())), "sip:bot@example.com"), "invalid from_uri: bad"));
    let bad = e.call("sip:a@b.org;transport=pigeon", None).unwrap();
    assert!(matches!(bad.callee(), Err(EndpointError::Other(_))));
}

#[test]
fn an_invitation_can_go_unanswered_or_be_refused() {
    let e = registered();
    let refused = e.on_invite_response("sip:a@b", "c1", None).err().unwrap();
    assert!(matches!(refused.error, EndpointError::Other(why) if why == "no response"));
    assert!(refused.event.is_none());
    let refused = e.on_invite_response("sip:a@b", "c1", Some(&response(486, "Busy Here"))).err().unwrap();
    assert!(matches!(refused.error, EndpointError::Sip { code: 486, message } if message == "SIP 486 BusyHere"));
    assert!(terminated(refused.event, "SIP 486 BusyHere"));
}

#[test]
fn an_accepted_call_is_established_once_it_has_media() {
    let mut e = registered();
    let mut new = e.on_invite_response("sip:a@b", "c1", Some(&response(200, "OK"))).ok().unwrap();
    assert_eq!((new.voice.id.as_str(), new.voice.queue_ms, new.voice.sample_rate), ("c1", 400, 24000));
    assert_eq!((new.background.id.as_str(), new.background.queue_ms), ("c1-bg", 200));
    assert_eq!(new.session.remote_uri, "sip:a@b");
    assert_eq!(new.session.extra_headers.get("X-Trunk").unwrap(), "t");
    let attached = setup_rtp_attach(&mut new.context, &answer_sdp(), 16000, 24000);
    assert_eq!(attached.transport.dtmf_pt, 101);
    assert_eq!(attached.transport.remote(), NetAddr::V4 { ip: 9, port: 4000 });
    assert_eq!(attached.recv_session.state, CallState::Pending);
    assert!(matches!(attached.event, EndpointEvent::CallAnswered { session } if session.state == CallState::Confirmed));
    let event = e.call_established(new, "v=0".to_string());
    assert!(matches!(event, EndpointEvent::CallStateChanged { session } if session.state == CallState::Pending));
    let ctx = e.with_call("c1").unwrap();
    assert_eq!(ctx.session.state, CallState::Confirmed);
    assert_eq!(ctx.local_sdp.as_deref(), Some("v=0"));
    assert_eq!(ctx.dialog(), Some(DialogSide::Client));
}

#[test]
fn an_accepted_call_without_media_is_ended() {
    let e = registered();
    let new = e.on_invite_response("sip:a@b", "c1", Some(&response(200, "OK"))).ok().unwrap();
    let failed = e.outbound_media_failed(&new, "no codec");
    assert!(failed.bye && failed.cancel);
    assert!(terminated(Some(failed.event), "rtp_setup_failed: no codec"));
}

#[test]
fn an_incoming_call_rings() {
    let mut e = registered();
    let ringing = e.incoming_call("c1", &request());
    assert_eq!(ringing.session.remote_uri, "From: <sip:alice@10.0.0.2>;tag=1");
    assert_eq!(ringing.session.call_uuid.as_deref(), Some("uuid-1"));
    assert_eq!(ringing.session.direction, CallDirection::Inbound);
    assert!(matches!(ringing.event, EndpointEvent::CallRinging { session } if session.call_id == "c1"));
    assert_eq!(e.with_call("c1").unwrap().dialog(), Some(DialogSide::Server));
    let random = e.handle_incoming(&request());
    assert_eq!(random.session.call_id.len(), 17);
    assert!(e.with_call(&random.session.call_id).is_ok());
}

#[test]
fn an_incoming_call_is_answered() {
    let mut e = ringing();
    assert_eq!(e.answer_from(), (None, "192.168.1.5".to_string()));
    let attached = e.auto_answer_inbound("c1", &answer_sdp(), "sdp".to_string()).unwrap();
    assert_eq!(attached.transport.codec, Codec::PCMA);
    assert_eq!((attached.transport.input_sample_rate, attached.transport.output_sample_rate), (16000, 24000));
    let ctx = e.with_call("c1").unwrap();
    assert!(ctx.media);
    assert_eq!(ctx.local_sdp.as_deref(), Some("sdp"));
    assert!(e.answer("c1", 200).is_ok());
    assert!(e.answer("gone", 200).is_ok());
    assert_eq!(SipEndpoint::new(config()).unwrap().answer_from(), (None, "0.0.0.0".to_string()));
}

#[test]
fn a_call_that_cannot_be_answered_is_let_go() {
    let mut e = ringing();
    assert!(inactive(e.auto_answer_inbound("gone", &answer_sdp(), String::new())));
    let failed = e.auto_answer_failed("c1", "no codec").unwrap();
    assert!(failed.reject && failed.cancel);
    assert!(terminated(Some(failed.event), "auto_answer_failed: no codec"));
    assert!(e.with_call("c1").is_err());
    assert!(e.auto_answer_failed("c1", "again").is_none());
}

#[test]
fn a_call_of_ours_is_not_answered() {
    let mut e = registered();
    let new = e.on_invite_response("sip:a@b", "c1", Some(&response(200, "OK"))).ok().unwrap();
    e.call_established(new, "v=0".to_string());
    assert!(failed_with(e.auto_answer_inbound("c1", &answer_sdp(), String::new()), "no server_dialog"));
    assert!(!e.with_call("c1").unwrap().media);
}

#[test]
fn a_call_ends_once() {
    let mut e = answered();
    assert!(terminated(e.terminate_sip_call("c1", "bye".to_string()), "bye"));
    assert!(e.terminate_sip_call("c1", "again".to_string()).is_none());
    let ctx = e.with_call("c1").unwrap();
    assert!(ctx.terminated && ctx.cancelled);
    let h = e.hangup("c1");
    assert!(h.event.is_none() && !h.cancel);
    assert_eq!(h.bye, Some(DialogSide::Server));
    assert!(e.with_call("c1").is_err());
    let h = e.hangup("c1");
    assert!(h.event.is_none() && h.bye.is_none());
    assert!(e.terminate_sip_call("c1", "late".to_string()).is_none());
}

#[test]
fn hanging_up_reports_and_lets_go() {
    let mut e = answered();
    e.incoming_call("c2", &request());
    let h = e.hangup("c1");
    assert!(h.cancel);
    assert!(terminated(h.event, "local hangup"));
    assert_eq!(h.bye, Some(DialogSide::Server));
    assert!(e.with_call("c1").is_err());
    assert!(!e.with_call("c2").unwrap().terminated);
}

#[test]
fn a_rejected_call_is_let_go() {
    let mut e = ringing();
    assert!(inactive(e.reject("gone", 486)));
    let r = e.reject("c1", 486).unwrap();
    assert!(r.reject && !r.cancel);
    assert!(terminated(Some(r.event), "Rejected 486"));
    assert!(e.with_call("c1").is_err());
}

#[test]
fn a_watched_dialog_answers_refreshes_and_ends_calls() {
    let mut e = answered();
    assert!(matches!(e.watch_dialog("c1", CallDirection::Inbound, DialogEvent::Other), WatchStep::Continue));
    assert!(matches!(e.watch_dialog("c1", CallDirection::Inbound, DialogEvent::Closed), WatchStep::Stop));
    assert!(matches!(e.watch_dialog("c1", CallDirection::Inbound, DialogEvent::Cancelled), WatchStep::Stop));
    match e.watch_dialog("c1", CallDirection::Inbound, DialogEvent::Updated) {
        WatchStep::Respond { sdp } => assert_eq!(sdp.as_deref(), Some("v=0\r\na=sendrecv\r\n")),
        _ => panic!("no answer"),
    }
    assert!(matches!(e.watch_dialog("gone", CallDirection::Inbound, DialogEvent::Updated), WatchStep::Respond { sdp: None }));
    let bye = DialogEvent::Terminated { reason: TerminatedReason::UacBye, text: "UacBye".to_string() };
    match e.watch_dialog("c1", CallDirection::Inbound, bye) {
        WatchStep::Ended { side, event } => {
            assert_eq!(side, "by remote");
            assert!(terminated(event, "UacBye"));
        },
        _ => panic!("still going"),
    }
    let again = DialogEvent::Terminated { reason: TerminatedReason::Timeout, text: "Timeout".to_string() };
    assert!(matches!(e.watch_dialog("c1", CallDirection::Inbound, again), WatchStep::Ended { side: "by timeout", event: None }));
}

#[test]
fn refreshes_go_on_as_long_as_the_call_is_described() {
    let mut e = answered();
    let refresh = e.refresh("c1").unwrap();
    assert_eq!((refresh.sdp.as_str(), refresh.dialog), ("v=0\r\na=sendrecv\r\n", Some(DialogSide::Server)));
    assert!(e.refresh("gone").is_none());
    e.hangup("c1");
    assert!(e.refresh("c1").is_none());
    assert!(ringing().refresh("c1").is_none());
}

#[test]
fn lost_media_terminates_the_call() {
    let mut e = ringing();
    let attached = e.auto_answer_inbound("c1", &answer_sdp(), String::new()).unwrap();
    let l = attached.transport.start_recv_loop("c1".to_string(), attached.recv_session, 0);
    assert!(e.media_timeout("c1", &l, true).is_none());
    assert!(!e.with_call("c1").unwrap().terminated);
    assert!(terminated(e.media_timeout("c1", &l, false), "media timeout"));
    assert!(e.terminate_sip_call("c1", "late".to_string()).is_none());
    let bye = DialogEvent::Terminated { reason: TerminatedReason::UacBye, text: "UacBye".to_string() };
    assert!(matches!(e.watch_dialog("c1", CallDirection::Inbound, bye), WatchStep::Ended { event: None, .. }));
    assert!(e.hangup("c1").event.is_none());
    assert!(terminated(e.media_timeout("gone", &l, false), "media timeout"));
}

#[test]
fn key_presses_go_as_events_or_by_signalling() {
    let e = answered();
    match e.send_dtmf("c1", "1#").unwrap() {
        DtmfPlan::Events { media, digits } => assert_eq!((media, digits), (true, vec!['1', '#'])),
        _ => panic!("by signalling"),
    }
    for method in ["sip_info", "info"] {
        match e.send_dtmf_with_method("c1", "1#", method).unwrap() {
            DtmfPlan::Info { dialog, bodies } => {
                assert_eq!(dialog, Some(DialogSide::Server));
                assert_eq!(bodies, vec!["Signal=1\r\nDuration=160\r\n", "Signal=#\r\nDuration=160\r\n"]);
            },
            _ => panic!("as events"),
        }
    }
    assert!(matches!(e.send_dtmf_with_method("c1", "", "INFO").unwrap(), DtmfPlan::Events { .. }));
    assert!(matches!(ringing().send_dtmf("c1", "1").unwrap(), DtmfPlan::Events { media: false, .. }));
    assert!(inactive(e.send_dtmf("gone", "1")));
}

#[test]
fn information_and_transfers_go_on_the_dialog() {
    let e = answered();
    let info = e.send_info("c1", "text/plain", "hi").unwrap().unwrap();
    assert_eq!((info.dialog, info.content_type.as_str(), info.body.as_str()), (DialogSide::Server, "text/plain", "hi"));
    assert!(inactive(e.send_info("gone", "text/plain", "hi")));
    let transfer = e.transfer("c1", "sip:x@y.org").unwrap().unwrap();
    assert_eq!((transfer.dialog, transfer.uri.as_str()), (DialogSide::Server, "sip:x@y.org"));
    assert!(matches!(e.transfer("c1", "sip:x@y.org;transport=pigeon"), Err(EndpointError::Other(_))));
    assert!(inactive(e.transfer("gone", "sip:x@y.org;transport=pigeon")));
    assert!(failed_with(e.transfer_attended("c1", "c2"), "attended transfer not supported"));
}

#[test]
fn a_call_without_a_dialog_has_nothing_to_send_on() {
    let mut e = registered();
    let new = new_call_context("c1", CallDirection::Inbound, 24000);
    e.call_established(new, "v=0".to_string());
    assert!(e.send_info("c1", "text/plain", "hi").unwrap().is_none());
    assert!(e.transfer("c1", "sip:x@y.org").unwrap().is_none());
    assert!(e.hold("c1").unwrap().unwrap().dialog.is_none());
    assert!(e.hangup("c1").bye.is_none());
}

#[test]
fn hold_offers_to_send_only_and_unhold_what_was_agreed() {
    let mut e = answered();
    assert!(e.unhold("c1").unwrap().is_none());
    let offer = e.hold("c1").unwrap().unwrap();
    assert_eq!(offer.sdp, "v=0\r\na=sendonly\r\n");
    assert_eq!(offer.dialog, Some(DialogSide::Server));
    e.set_held("c1", true);
    assert!(e.hold("c1").unwrap().is_none());
    assert_eq!(e.unhold("c1").unwrap().unwrap().sdp, "v=0\r\na=sendrecv\r\n");
    e.set_held("c1", false);
    assert!(e.unhold("c1").unwrap().is_none());
    assert!(inactive(e.hold("gone")));
    assert!(inactive(e.unhold("gone")));
    assert!(failed_with(ringing().hold("c1"), "no SDP"));
    let mut r = ringing();
    r.set_held("c1", true);
    assert!(failed_with(r.unhold("c1"), "no SDP"));
}

#[test]
fn unhold_replaces_both_directions() {
    let mut e = ringing();
    e.auto_answer_inbound("c1", &answer_sdp(), "a=sendonly a=inactive a=recvonly".to_string()).unwrap();
    e.set_held("c1", true);
    assert_eq!(e.unhold("c1").unwrap().unwrap().sdp, "a=sendrecv a=sendrecv a=recvonly");
}

#[test]
fn muting_and_pausing_are_undone() {
    let mut e = answered();
    e.mute("c1").unwrap();
    e.pause("c1").unwrap();
    let ctx = e.with_call("c1").unwrap();
    assert!(ctx.muted && ctx.paused);
    e.unmute("c1").unwrap();
    e.resume("c1").unwrap();
    let ctx = e.with_call("c1").unwrap();
    assert!(!ctx.muted && !ctx.paused);
    assert!(inactive(e.mute("gone")) && inactive(e.unmute("gone")));
    assert!(inactive(e.pause("gone")) && inactive(e.resume("gone")));
}

#[test]
fn what_is_asked_of_an_ended_call_succeeds_and_does_nothing() {
    let mut e = answered();
    e.terminate_sip_call("c1", "bye".to_string());
    assert!(e.mute("c1").is_ok() && e.pause("c1").is_ok());
    let ctx = e.with_call("c1").unwrap();
    assert!(!ctx.muted && !ctx.paused);
    assert!(e.with_active_call("c1").unwrap().is_none());
    assert!(e.clear_buffer("c1").unwrap().is_none());
    assert!(e.send_audio_no_backpressure("c1", &frame(24000)).unwrap().is_none());
    assert!(e.send_background_audio("c1", &frame(8000)).unwrap().is_none());
    let mut flag = PlayoutFlag { done: true };
    e.flush("c1", &mut flag).unwrap();
    assert!(flag.done);
    match e.send_audio_async("c1", &frame(24000)).unwrap() {
        AudioPush::Done { async_id, event: EndpointEvent::AudioCaptureComplete { session_id, async_id: id, cancelled } } => {
            assert_eq!((async_id, session_id.as_str(), id, cancelled), (1, "c1", 1, false));
        },
        _ => panic!("queued"),
    }
    match e.wait_for_playout_async("c1").unwrap() {
        PlayoutWait::Done { async_id, event: EndpointEvent::AudioPlayoutComplete { session_id, async_id: id } } => {
            assert_eq!((async_id, session_id.as_str(), id), (2, "c1", 2));
        },
        _ => panic!("queued"),
    }
}

#[test]
fn flushing_resets_the_playout_flag() {
    let e = answered();
    let mut flag = PlayoutFlag { done: false };
    notify(&mut flag);
    assert!(flag.done);
    e.flush("c1", &mut flag).unwrap();
    assert!(!flag.done);
    notify(&mut flag);
    assert!(inactive(e.flush("gone", &mut flag)));
    assert!(flag.done);
    assert!(e.wait_for_playout("c1", false).unwrap());
    assert!(!e.wait_for_playout("c1", true).unwrap());
    assert!(inactive(e.wait_for_playout("gone", false)));
}

#[test]
fn supplied_audio_is_resampled_where_its_rate_differs() {
    let mut e = answered();
    let queue = |p: AudioPush| match p {
        AudioPush::Queue { async_id, queue: Queue::Voice, conversion } => (async_id, conversion),
        _ => panic!("not queued"),
    };
    assert_eq!(queue(e.send_audio_async("c1", &frame(24000)).unwrap()), (1, Conversion::AsIs));
    assert_eq!(queue(e.send_audio_async("c1", &frame(0)).unwrap()), (2, Conversion::AsIs));
    let fresh = Conversion::Resample { from: 16000, to: 24000, fresh: true };
    assert_eq!(queue(e.send_audio("c1", &frame(16000)).unwrap()), (3, fresh));
    e.resampler_made("c1", 16000, true);
    let kept = Conversion::Resample { from: 16000, to: 24000, fresh: false };
    assert_eq!(queue(e.send_audio_async("c1", &frame(16000)).unwrap()), (4, kept));
    let other = Conversion::Resample { from: 8000, to: 24000, fresh: true };
    assert_eq!(queue(e.send_audio_async("c1", &frame(8000)).unwrap()), (5, other));
    assert_eq!(e.clear_buffer("c1").unwrap(), Some(Queue::Voice));
    assert_eq!(queue(e.send_audio_async("c1", &frame(16000)).unwrap()), (6, fresh));
    e.resampler_made("c1", 16000, false);
    assert_eq!(queue(e.send_audio_async("c1", &frame(16000)).unwrap()), (7, fresh));
    e.resampler_made("c1", 16000, true);
    assert_eq!(
        e.send_background_audio("c1", &frame(16000)).unwrap(),
        Some(DirectPush { queue: Queue::Background, conversion: fresh })
    );
    assert_eq!(e.with_call("c1").unwrap().resampler_rate, Some(16000));
    assert_eq!(
        e.send_audio_no_backpressure("c1", &frame(24000)).unwrap(),
        Some(DirectPush { queue: Queue::Voice, conversion: Conversion::AsIs })
    );
    assert!(inactive(e.send_audio_async("gone", &frame(0))));
    assert!(inactive(e.send_audio("gone", &frame(0))));
    assert!(inactive(e.send_audio_no_backpressure("gone", &frame(0))));
    assert!(inactive(e.send_background_audio("gone", &frame(0))));
    assert!(inactive(e.clear_buffer("gone")));
    assert_eq!(samples_to_queue(Some(vec![7]), &frame(0)), vec![7]);
    assert_eq!(samples_to_queue(None, &frame(0)), vec![1, 2]);
}

#[test]
fn numbers_are_handed_out_even_to_requests_that_fail() {
    let mut e = answered();
    assert!(inactive(e.send_audio_async("gone", &frame(0))));
    assert!(inactive(e.wait_for_playout_async("gone")));
    assert!(matches!(e.wait_for_playout_async("c1").unwrap(), PlayoutWait::Queue { async_id: 3, queue: Queue::Voice }));
    e.next_async_id = u64::MAX;
    assert!(matches!(e.wait_for_playout_async("c1").unwrap(), PlayoutWait::Queue { async_id: u64::MAX, queue: Queue::Voice }));
    assert!(matches!(e.wait_for_playout_async("c1").unwrap(), PlayoutWait::Queue { async_id: 0, queue: Queue::Voice }));
    assert_eq!(e.queued(5, Ok(())).unwrap(), 5);
    assert!(failed_with(e.queued(5, Err("buffer full".to_string())), "buffer full"));
}

#[test]
fn received_audio_is_handed_on() {
    let e = answered();
    assert!(e.recv_audio("c1", None).unwrap().is_none());
    assert_eq!(e.recv_audio("c1", Some(frame(16000))).unwrap().unwrap().data, vec![1, 2]);
    assert_eq!(e.recv_audio_blocking("c1", Some(frame(16000))).unwrap().unwrap().data, vec![1, 2]);
    assert!(inactive(e.recv_audio("gone", Some(frame(16000)))));
    assert!(inactive(e.recv_audio_blocking("gone", None)));
}

#[test]
fn queued_audio_is_counted_in_frames_of_twenty_milliseconds() {
    let e = answered();
    assert_eq!(e.queued_frames("c1", 479).unwrap(), 0);
    assert_eq!(e.queued_frames("c1", 1000).unwrap(), 2);
    assert!(inactive(e.queued_frames("gone", 1000)));
}

#[test]
fn recordings_start_and_stop() {
    assert_eq!(recording_mode(true), RecordingMode::Stereo);
    assert_eq!(recording_mode(false), RecordingMode::Mono);
    let mut e = answered();
    e.start_recording("c1").unwrap();
    assert!(e.with_call("c1").unwrap().recording);
    e.stop_recording("c1").unwrap();
    e.stop_recording("c1").unwrap();
    assert!(!e.with_call("c1").unwrap().recording);
    assert!(inactive(e.start_recording("gone")));
    assert!(e.stop_recording("gone").is_ok());
}

#[test]
fn beep_detection_is_started_settled_and_cancelled() {
    let mut e = answered();
    assert!(failed_with(e.cancel_beep_detection("c1"), "no beep detection"));
    e.detect_beep("c1").unwrap();
    assert!(e.cancel_beep_detection("c1").is_ok());
    assert!(e.cancel_beep_detection("c1").is_err());
    e.detect_beep("c1").unwrap();
    e.beep_settled("c1");
    assert!(failed_with(e.cancel_beep_detection("c1"), "no beep detection"));
    assert!(inactive(e.detect_beep("gone")));
    assert!(inactive(e.cancel_beep_detection("gone")));
}

#[test]
fn shutting_down_hangs_every_call_up_once() {
    let mut e = answered();
    e.incoming_call("c2", &request());
    e.terminate_sip_call("c2", "bye".to_string());
    assert!(e.is_registered());
    let end = e.shutdown().unwrap();
    assert!(!e.is_registered());
    let plan = end.unregister.unwrap();
    assert_eq!(plan.server_uri.as_deref(), Some("sip:example.com;transport=TCP"));
    assert_eq!((plan.credential.username.as_str(), plan.outbound_proxy), ("bot", Some(server())));
    assert!(matches!(end.unregistered, EndpointEvent::Unregistered));
    assert!(matches!(end.event, EndpointEvent::Shutdown));
    let mut ids: Vec<String> = end.calls.iter().map(|c| c.call_id.clone()).collect();
    ids.sort();
    assert_eq!(ids, vec!["c1", "c2"]);
    for c in end.calls {
        assert_eq!(c.hangup.event.is_some(), c.call_id == "c1");
        assert_eq!(c.hangup.bye, Some(DialogSide::Server));
    }
    assert!(e.with_call("c1").is_err() && e.with_call("c2").is_err());
    assert!(e.shutdown().is_none());
}

#[test]
fn shutting_down_without_a_registration_still_tells_of_it() {
    let mut e = connected();
    let end = e.shutdown().unwrap();
    assert!(end.unregister.is_none() && end.calls.is_empty());
    assert!(matches!(end.unregistered, EndpointEvent::Unregistered));
}

#[test]
fn media_lost_after_the_call_ended_is_old_news() {
    let mut e = ringing();
    let attached = e.auto_answer_inbound("c1", &answer_sdp(), String::new()).unwrap();
    let l = attached.transport.start_recv_loop("c1".to_string(), attached.recv_session, 0);
    assert!(terminated(e.terminate_sip_call("c1", "bye".to_string()), "bye"));
    assert!(e.media_timeout("c1", &l, false).is_none());
    e.hangup("c1");
    assert!(e.media_timeout("c1", &l, true).is_none());
}
