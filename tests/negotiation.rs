use webrtc_wasm::coordinator::{Action, Coordinator, Discard, Failure, SessionState};
use webrtc_wasm::session_ids::SessionIds;
use webrtc_wasm::signals::{
    IceCandidateData, IceCandidateWebRtcData, Signal, WebRtcAnswerData, WebRtcData,
    WebRtcOfferData,
};

fn started(id: u64) -> Coordinator {
    let mut c = Coordinator::new(id);
    let actions = c.start("signal.example:9000".to_string());
    assert_eq!(actions.len(), 3);
    c
}

fn cand(text: &str, index: Option<u16>) -> IceCandidateWebRtcData {
    IceCandidateWebRtcData { candidate: text.to_string(), sdp_m_line_index: index }
}

fn answer(id: u64, sdp: &str) -> Signal {
    Signal::WebRtcAnswer {
        data: WebRtcAnswerData {
            session_id: id,
            webrtc_data: WebRtcData { data_type: None, sdp: sdp.to_string() },
        },
    }
}

fn remote_candidate(id: u64, text: &str) -> Signal {
    Signal::IceCandidate {
        data: IceCandidateData { session_id: id, webrtc_data: cand(text, Some(0)) },
    }
}

fn offer_sdp(a: &Action) -> Option<(u64, Option<String>, String)> {
    match a {
        Action::Send { signal: Signal::WebRtcOffer { data } } => Some((
            data.session_id,
            data.webrtc_data.data_type.clone(),
            data.webrtc_data.sdp.clone(),
        )),
        _ => None,
    }
}

fn sent_candidate(a: &Action) -> Option<(u64, String, Option<u16>)> {
    match a {
        Action::Send { signal: Signal::IceCandidate { data } } => Some((
            data.session_id,
            data.webrtc_data.candidate.clone(),
            data.webrtc_data.sdp_m_line_index,
        )),
        _ => None,
    }
}

fn count_offers(actions: &[Action]) -> usize {
    actions.iter().filter(|a| offer_sdp(a).is_some()).count()
}

#[test]
fn start_requests_transport_capability_and_offer() {
    let mut c = Coordinator::new(7);
    assert_eq!(c.state(), SessionState::Initializing);
    let actions = c.start("signal.example:9000".to_string());
    assert_eq!(c.state(), SessionState::AwaitingTransport);
    assert!(matches!(&actions[0], Action::OpenTransport { endpoint } if endpoint == "signal.example:9000"));
    assert!(matches!(&actions[1], Action::AddReceiveOnlyMedia { kind } if kind == "video"));
    assert!(matches!(&actions[2], Action::CreateOffer));
    assert!(c.start("other:1".to_string()).is_empty());
    assert_eq!(c.state(), SessionState::AwaitingTransport);
}

#[test]
fn offer_sent_once_transport_first() {
    let mut c = started(11);
    let a1 = c.on_transport_ready();
    assert_eq!(count_offers(&a1), 0);
    assert_eq!(c.state(), SessionState::AwaitingTransport);
    let a2 = c.on_offer_ready("v=0 first".to_string());
    assert_eq!(a2.len(), 1);
    assert_eq!(offer_sdp(&a2[0]), Some((11, Some("offer".to_string()), "v=0 first".to_string())));
    assert_eq!(c.state(), SessionState::OfferSent);
    assert_eq!(count_offers(&c.on_transport_ready()), 0);
    assert_eq!(count_offers(&c.on_offer_ready("v=0 again".to_string())), 0);
}

#[test]
fn offer_sent_once_offer_first() {
    let mut c = started(12);
    let a1 = c.on_offer_ready("v=0 early".to_string());
    assert!(a1.is_empty());
    assert!(c.has_offer_waiting());
    assert_eq!(c.state(), SessionState::AwaitingTransport);
    let a2 = c.on_transport_ready();
    assert_eq!(count_offers(&a2), 1);
    assert_eq!(
        offer_sdp(a2.last().unwrap()),
        Some((12, Some("offer".to_string()), "v=0 early".to_string()))
    );
    assert!(!c.has_offer_waiting());
    assert_eq!(c.state(), SessionState::OfferSent);
    assert_eq!(count_offers(&c.on_transport_ready()), 0);
    assert_eq!(count_offers(&c.on_offer_ready("v=0 late".to_string())), 0);
}

#[test]
fn offer_not_sent_before_start() {
    let mut c = Coordinator::new(3);
    assert!(c.on_offer_ready("v=0".to_string()).is_empty());
    assert!(c.on_transport_ready().is_empty());
    assert_eq!(c.state(), SessionState::Initializing);
    assert!(!c.is_transport_ready());
}

#[test]
fn local_candidates_flushed_in_discovery_order() {
    let mut c = started(21);
    for (i, text) in ["candidate:a", "candidate:b", "candidate:c"].iter().enumerate() {
        assert!(c.on_local_candidate(cand(text, Some(i as u16))).is_empty());
    }
    assert_eq!(c.pending_local_candidates().len(), 3);
    let flushed = c.on_transport_ready();
    assert_eq!(flushed.len(), 3);
    assert_eq!(sent_candidate(&flushed[0]), Some((21, "candidate:a".to_string(), Some(0))));
    assert_eq!(sent_candidate(&flushed[1]), Some((21, "candidate:b".to_string(), Some(1))));
    assert_eq!(sent_candidate(&flushed[2]), Some((21, "candidate:c".to_string(), Some(2))));
    assert!(c.pending_local_candidates().is_empty());
    let later = c.on_local_candidate(cand("candidate:d", None));
    assert_eq!(sent_candidate(&later[0]), Some((21, "candidate:d".to_string(), None)));
}

#[test]
fn candidate_before_transport_flushed_before_offer() {
    let mut c = started(31);
    assert!(c.on_offer_ready("v=0...".to_string()).is_empty());
    let queued = c.on_local_candidate(cand("candidate:1 1 UDP 2122252543 192.0.2.1 54321 typ host", Some(0)));
    assert!(queued.is_empty());
    assert_eq!(c.pending_local_candidates().len(), 1);
    let actions = c.on_transport_ready();
    assert_eq!(actions.len(), 2);
    assert_eq!(
        sent_candidate(&actions[0]),
        Some((31, "candidate:1 1 UDP 2122252543 192.0.2.1 54321 typ host".to_string(), Some(0)))
    );
    assert_eq!(offer_sdp(&actions[1]), Some((31, Some("offer".to_string()), "v=0...".to_string())));
    assert!(c.pending_local_candidates().is_empty());
    assert!(c.on_transport_ready().is_empty());
}

#[test]
fn offer_then_answer_scenario() {
    let mut c = started(41);
    assert!(c.on_transport_ready().is_empty());
    let sent = c.on_offer_ready("v=0...".to_string());
    assert_eq!(offer_sdp(&sent[0]), Some((41, Some("offer".to_string()), "v=0...".to_string())));
    let applied = c.on_inbound_signal(answer(41, "v=0...")).unwrap();
    assert_eq!(applied.len(), 1);
    assert!(matches!(&applied[0], Action::ApplyAnswer { sdp } if sdp == "v=0..."));
    assert_eq!(c.state(), SessionState::AnswerApplied);
}

#[test]
fn malformed_message_changes_nothing() {
    let mut c = started(51);
    c.on_local_candidate(cand("candidate:x", None));
    let r = c.on_inbound_message(None);
    assert!(matches!(r, Err(Discard::MalformedSignal)));
    assert_eq!(c.state(), SessionState::AwaitingTransport);
    assert_eq!(c.pending_local_candidates().len(), 1);
    assert!(c.pending_remote_candidates().is_empty());
}

#[test]
fn decoded_message_is_handled() {
    let mut c = started(52);
    let r = c.on_inbound_message(Some(remote_candidate(52, "candidate:r")));
    assert!(matches!(r, Ok(ref a) if a.is_empty()));
    assert_eq!(c.pending_remote_candidates().len(), 1);
}

#[test]
fn answer_before_offer_sent_is_discarded() {
    let mut c = started(61);
    let r = c.on_inbound_signal(answer(61, "v=0"));
    assert!(matches!(r, Err(Discard::UnexpectedAnswer)));
    assert_eq!(c.state(), SessionState::AwaitingTransport);
}

#[test]
fn second_answer_is_discarded() {
    let mut c = started(71);
    c.on_transport_ready();
    c.on_offer_ready("v=0".to_string());
    assert!(c.on_inbound_signal(answer(71, "v=0 one")).is_ok());
    assert_eq!(c.state(), SessionState::AnswerApplied);
    let r = c.on_inbound_signal(answer(71, "v=0 two"));
    assert!(matches!(r, Err(Discard::UnexpectedAnswer)));
    assert_eq!(c.state(), SessionState::AnswerApplied);
}

#[test]
fn offer_from_peer_is_discarded() {
    let mut c = started(81);
    let offer = Signal::WebRtcOffer {
        data: WebRtcOfferData {
            session_id: 81,
            webrtc_data: WebRtcData { data_type: Some("offer".to_string()), sdp: "v=0".to_string() },
        },
    };
    assert!(matches!(c.on_inbound_signal(offer), Err(Discard::UnexpectedOffer)));
    assert_eq!(c.state(), SessionState::AwaitingTransport);
}

#[test]
fn foreign_session_is_discarded() {
    let mut c = started(91);
    c.on_transport_ready();
    c.on_offer_ready("v=0".to_string());
    assert!(matches!(c.on_inbound_signal(answer(92, "v=0")), Err(Discard::ForeignSession)));
    assert!(matches!(c.on_inbound_signal(remote_candidate(92, "candidate:z")), Err(Discard::ForeignSession)));
    assert_eq!(c.state(), SessionState::OfferSent);
    assert!(c.pending_remote_candidates().is_empty());
}

#[test]
fn remote_candidates_wait_for_answer() {
    let mut c = started(101);
    c.on_transport_ready();
    assert!(c.on_inbound_signal(remote_candidate(101, "candidate:early")).unwrap().is_empty());
    c.on_offer_ready("v=0".to_string());
    assert!(c.on_inbound_signal(remote_candidate(101, "candidate:mid")).unwrap().is_empty());
    assert_eq!(c.pending_remote_candidates().len(), 2);
    let a = c.on_inbound_signal(answer(101, "v=0 ans")).unwrap();
    assert_eq!(a.len(), 3);
    assert!(matches!(&a[0], Action::ApplyAnswer { sdp } if sdp == "v=0 ans"));
    assert!(matches!(&a[1], Action::AddRemoteCandidate { candidate } if candidate.candidate == "candidate:early"));
    assert!(matches!(&a[2], Action::AddRemoteCandidate { candidate } if candidate.candidate == "candidate:mid"));
    assert!(c.pending_remote_candidates().is_empty());
    let b = c.on_inbound_signal(remote_candidate(101, "candidate:late")).unwrap();
    assert!(matches!(&b[0], Action::AddRemoteCandidate { candidate } if candidate.candidate == "candidate:late" && candidate.sdp_m_line_index == Some(0)));
}

#[test]
fn close_twice_is_idempotent() {
    let mut c = started(111);
    c.on_local_candidate(cand("candidate:q", None));
    let first = c.close();
    assert_eq!(first.len(), 1);
    assert!(matches!(first[0], Action::Release));
    assert_eq!(c.state(), SessionState::Closed);
    assert!(c.pending_local_candidates().is_empty());
    assert!(c.close().is_empty());
    assert_eq!(c.state(), SessionState::Closed);
}

#[test]
fn completions_after_close_are_ignored() {
    let mut c = started(121);
    c.close();
    assert!(c.on_offer_ready("v=0".to_string()).is_empty());
    assert!(c.on_transport_ready().is_empty());
    assert!(c.on_local_candidate(cand("candidate:w", None)).is_empty());
    assert!(matches!(c.on_inbound_signal(answer(121, "v=0")), Err(Discard::UnexpectedAnswer)));
    assert!(matches!(c.on_inbound_signal(remote_candidate(121, "candidate:v")), Err(Discard::SessionOver)));
    assert!(c.pending_remote_candidates().is_empty());
    assert!(c.fail(Failure::TransportError).is_empty());
    assert_eq!(c.state(), SessionState::Closed);
    assert_eq!(c.failure(), None);
}

#[test]
fn failure_is_recorded_once() {
    let mut c = started(131);
    let a = c.fail(Failure::OfferCreationFailed);
    assert!(matches!(a[..], [Action::Release]));
    assert_eq!(c.state(), SessionState::Failed);
    assert_eq!(c.failure(), Some(Failure::OfferCreationFailed));
    assert!(c.fail(Failure::TransportClosed).is_empty());
    assert!(c.close().is_empty());
    assert_eq!(c.failure(), Some(Failure::OfferCreationFailed));
    assert_eq!(c.state(), SessionState::Failed);
}

#[test]
fn each_failure_kind_ends_the_session() {
    for f in [Failure::OfferCreationFailed, Failure::TransportError, Failure::TransportClosed, Failure::NotReady, Failure::PeerConnectionError] {
        let mut c = started(141);
        c.on_transport_ready();
        assert_eq!(c.fail(f).len(), 1);
        assert_eq!(c.failure(), Some(f));
    }
}

#[test]
fn session_ids_follow_the_clock() {
    let mut ids = SessionIds::new();
    assert_eq!(ids.issue(Some(1_700_000_000_000_000_000)), Some(1_700_000_000_000_000_000));
    assert_eq!(ids.issue(Some(1_700_000_000_000_000_500)), Some(1_700_000_000_000_000_500));
}

#[test]
fn session_ids_never_repeat_when_clock_stalls() {
    let mut ids = SessionIds::new();
    assert_eq!(ids.issue(Some(1000)), Some(1000));
    assert_eq!(ids.issue(Some(1000)), Some(1001));
    assert_eq!(ids.issue(Some(400)), Some(1002));
    assert_eq!(ids.issue(None), None);
    assert_eq!(ids.issue(Some(1002)), Some(1003));
}

#[test]
fn session_ids_edge_readings() {
    let mut ids = SessionIds::new();
    assert_eq!(ids.issue(Some(-1)), Some(u64::MAX));
    assert_eq!(ids.issue(Some(5)), None);
    let mut fresh = SessionIds::new();
    assert_eq!(fresh.issue(None), None);
}

#[test]
fn session_ids_from_clock_increase() {
    let mut ids = SessionIds::new();
    let a = ids.issue(chrono::Utc::now().timestamp_nanos_opt()).expect("the clock is in range");
    let b = ids.issue(chrono::Utc::now().timestamp_nanos_opt()).expect("the clock is in range");
    assert!(a > 0);
    assert!(b > a);
    let c = Coordinator::new(b);
    assert_eq!(c.session_id(), b);
    assert_eq!(c.state(), SessionState::Initializing);
}

#[test]
fn signal_constructors() {
    let o = Signal::offer(5, "v=0 x".to_string());
    assert_eq!(o.session_id(), 5);
    match o {
        Signal::WebRtcOffer { data } => {
            assert_eq!(data.webrtc_data.data_type.as_deref(), Some("offer"));
            assert_eq!(data.webrtc_data.sdp, "v=0 x");
        }
        _ => panic!("not an offer"),
    }
    let s = Signal::candidate(6, cand("candidate:k", Some(2)));
    assert_eq!(s.session_id(), 6);
    assert!(matches!(s, Signal::IceCandidate { data } if data.webrtc_data.candidate == "candidate:k" && data.webrtc_data.sdp_m_line_index == Some(2)));
}

fn peer_offer(id: u64) -> Signal {
    Signal::WebRtcOffer {
        data: WebRtcOfferData {
            session_id: id,
            webrtc_data: WebRtcData { data_type: Some("offer".to_string()), sdp: "v=0".to_string() },
        },
    }
}

#[test]
fn offer_is_unexpected_in_every_state() {
    let mut c = started(151);
    assert!(matches!(c.on_inbound_signal(peer_offer(999)), Err(Discard::UnexpectedOffer)));
    c.on_transport_ready();
    c.on_offer_ready("v=0".to_string());
    assert!(matches!(c.on_inbound_signal(peer_offer(151)), Err(Discard::UnexpectedOffer)));
    c.on_inbound_signal(answer(151, "v=0"));
    assert!(matches!(c.on_inbound_signal(peer_offer(151)), Err(Discard::UnexpectedOffer)));
    c.fail(Failure::PeerConnectionError);
    assert!(matches!(c.on_inbound_signal(peer_offer(151)), Err(Discard::UnexpectedOffer)));
    assert_eq!(c.state(), SessionState::Failed);
    assert_eq!(c.failure(), Some(Failure::PeerConnectionError));
}

#[test]
fn answer_after_end_is_unexpected() {
    let mut c = started(161);
    c.on_transport_ready();
    c.on_offer_ready("v=0".to_string());
    c.fail(Failure::TransportClosed);
    assert!(matches!(c.on_inbound_signal(answer(161, "v=0")), Err(Discard::UnexpectedAnswer)));
    assert!(matches!(c.on_inbound_signal(answer(162, "v=0")), Err(Discard::ForeignSession)));
    assert_eq!(c.state(), SessionState::Failed);
}

#[test]
fn answered_session_stays_answered() {
    let mut c = started(171);
    c.on_transport_ready();
    c.on_offer_ready("v=0".to_string());
    assert!(c.on_inbound_signal(remote_candidate(171, "candidate:1")).unwrap().is_empty());
    assert_eq!(c.on_inbound_signal(answer(171, "v=0 a")).unwrap().len(), 2);
    assert!(matches!(c.on_inbound_signal(answer(171, "v=0 b")), Err(Discard::UnexpectedAnswer)));
    assert_eq!(c.on_inbound_signal(remote_candidate(171, "candidate:2")).unwrap().len(), 1);
    assert!(matches!(c.on_inbound_signal(peer_offer(171)), Err(Discard::UnexpectedOffer)));
    assert!(matches!(c.on_inbound_signal(answer(171, "v=0 c")), Err(Discard::UnexpectedAnswer)));
    assert_eq!(c.state(), SessionState::AnswerApplied);
}
