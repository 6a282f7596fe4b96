//! The negotiation coordinator: a state machine that drives one session from
//! creation to `Closed` or `Failed`. Each entry point takes one event and
//! returns the actions that the host must perform, in order, on the
//! transport and on the peer connection.

use vstd::prelude::*;
use crate::signals::{
    candidate_signal_view, offer_signal_view, CandidateView, IceCandidateWebRtcData, Signal,
    SignalView,
};

verus! {

/// Where a session stands. Transitions only move forward.
#[derive(Debug, Clone, Copy, PartialEq, Eq, Structural)]
pub enum SessionState {
    Initializing,
    AwaitingTransport,
    OfferSent,
    AnswerApplied,
    Closed,
    Failed,
}

/// A fatal error of the session, surfaced once.
#[derive(Debug, Clone, Copy, PartialEq, Eq, Structural)]
pub enum Failure {
    OfferCreationFailed,
    TransportError,
    TransportClosed,
    NotReady,
    PeerConnectionError,
}

/// Why an inbound message was dropped. None of these ends the session.
#[derive(Debug, Clone, Copy, PartialEq, Eq, Structural)]
pub enum Discard {
    MalformedSignal,
    ForeignSession,
    UnexpectedOffer,
    UnexpectedAnswer,
    SessionOver,
}

/// Work the host performs on the coordinator's behalf.
#[derive(Debug)]
pub enum Action {
    /// Open the signaling transport to an endpoint.
    OpenTransport { endpoint: String },
    /// Add one receive-only media capability of the given kind.
    AddReceiveOnlyMedia { kind: String },
    /// Create the local offer and assign it as the local description.
    CreateOffer,
    /// Send a signal over the transport.
    Send { signal: Signal },
    /// Assign an answer as the remote description.
    ApplyAnswer { sdp: String },
    /// Hand a remote candidate to the peer connection.
    AddRemoteCandidate { candidate: IceCandidateWebRtcData },
    /// Release the transport and the peer connection.
    Release,
}

pub enum ActionView {
    OpenTransport { endpoint: Seq<char> },
    AddReceiveOnlyMedia { kind: Seq<char> },
    CreateOffer,
    Send { signal: SignalView },
    ApplyAnswer { sdp: Seq<char> },
    AddRemoteCandidate { candidate: CandidateView },
    Release,
}

impl View for Action {
    type V = ActionView;

    open spec fn view(&self) -> ActionView {
        match self {
            Action::OpenTransport { endpoint } => ActionView::OpenTransport { endpoint: endpoint@ },
            Action::AddReceiveOnlyMedia { kind } => ActionView::AddReceiveOnlyMedia { kind: kind@ },
            Action::CreateOffer => ActionView::CreateOffer,
            Action::Send { signal } => ActionView::Send { signal: signal@ },
            Action::ApplyAnswer { sdp } => ActionView::ApplyAnswer { sdp: sdp@ },
            Action::AddRemoteCandidate { candidate } => ActionView::AddRemoteCandidate {
                candidate: candidate@,
            },
            Action::Release => ActionView::Release,
        }
    }
}

pub open spec fn actions_view(a: Seq<Action>) -> Seq<ActionView> {
    a.map_values(|x: Action| x@)
}

pub open spec fn candidates_view(c: Seq<IceCandidateWebRtcData>) -> Seq<CandidateView> {
    c.map_values(|x: IceCandidateWebRtcData| x@)
}

/// Abstract state of a coordinator.
pub struct CoordinatorView {
    pub session_id: u64,
    pub state: SessionState,
    pub transport_ready: bool,
    /// The local offer, once produced and until it is sent.
    pub offer: Option<Seq<char>>,
    pub pending_local: Seq<CandidateView>,
    pub pending_remote: Seq<CandidateView>,
    pub failure: Option<Failure>,
}

pub open spec fn is_terminal(s: SessionState) -> bool {
    s == SessionState::Closed || s == SessionState::Failed
}

/// The kind of media the session receives.
pub open spec fn video_kind() -> Seq<char> {
    seq!['v', 'i', 'd', 'e', 'o']
}

impl CoordinatorView {
    pub open spec fn wf(self) -> bool {
        &&& self.pending_local.len() > 0 ==> !self.transport_ready && (self.state
            == SessionState::Initializing || self.state == SessionState::AwaitingTransport)
        &&& self.offer is Some ==> self.state == SessionState::AwaitingTransport
            && !self.transport_ready
        &&& self.state == SessionState::Initializing ==> !self.transport_ready
        &&& (self.state == SessionState::OfferSent || self.state == SessionState::AnswerApplied)
            ==> self.transport_ready
        &&& self.pending_remote.len() > 0 ==> (self.state == SessionState::Initializing
            || self.state == SessionState::AwaitingTransport || self.state
            == SessionState::OfferSent)
        &&& is_terminal(self.state) ==> self.pending_local.len() == 0
        &&& (self.failure is Some <==> self.state == SessionState::Failed)
    }
}

/// A coordinator that has not started yet.
pub open spec fn initial(session_id: u64) -> CoordinatorView {
    CoordinatorView {
        session_id,
        state: SessionState::Initializing,
        transport_ready: false,
        offer: None,
        pending_local: seq![],
        pending_remote: seq![],
        failure: None,
    }
}

/// Sends of the given local candidates, in order.
pub open spec fn local_sends(session_id: u64, cs: Seq<CandidateView>) -> Seq<ActionView> {
    cs.map_values(|c: CandidateView| ActionView::Send { signal: candidate_signal_view(session_id, c) })
}

/// Hand-overs of the given remote candidates, in order.
pub open spec fn remote_applies(cs: Seq<CandidateView>) -> Seq<ActionView> {
    cs.map_values(|c: CandidateView| ActionView::AddRemoteCandidate { candidate: c })
}

pub open spec fn offer_send(session_id: u64, sdp: Seq<char>) -> ActionView {
    ActionView::Send { signal: offer_signal_view(session_id, sdp) }
}

/// Starting: request the transport, the media capability and the offer.
pub open spec fn after_start(v: CoordinatorView, endpoint: Seq<char>) -> (CoordinatorView, Seq<ActionView>) {
    if v.state == SessionState::Initializing {
        (
            CoordinatorView { state: SessionState::AwaitingTransport, ..v },
            seq![
                ActionView::OpenTransport { endpoint },
                ActionView::AddReceiveOnlyMedia { kind: video_kind() },
                ActionView::CreateOffer,
            ],
        )
    } else {
        (v, seq![])
    }
}

/// The transport connected: flush the buffered local candidates, then send
/// the offer if it is ready.
pub open spec fn after_transport_ready(v: CoordinatorView) -> (CoordinatorView, Seq<ActionView>) {
    if v.state == SessionState::AwaitingTransport && !v.transport_ready {
        let flushed = local_sends(v.session_id, v.pending_local);
        match v.offer {
            Some(sdp) => (
                CoordinatorView {
                    state: SessionState::OfferSent,
                    transport_ready: true,
                    offer: None,
                    pending_local: seq![],
                    ..v
                },
                flushed.push(offer_send(v.session_id, sdp)),
            ),
            None => (CoordinatorView { transport_ready: true, pending_local: seq![], ..v }, flushed),
        }
    } else {
        (v, seq![])
    }
}

/// The local offer was created: send it if the transport is ready, else
/// keep it until then.
pub open spec fn after_offer_ready(v: CoordinatorView, sdp: Seq<char>) -> (CoordinatorView, Seq<ActionView>) {
    if v.state == SessionState::AwaitingTransport && v.offer is None {
        if v.transport_ready {
            (
                CoordinatorView { state: SessionState::OfferSent, ..v },
                seq![offer_send(v.session_id, sdp)],
            )
        } else {
            (CoordinatorView { offer: Some(sdp), ..v }, seq![])
        }
    } else {
        (v, seq![])
    }
}

/// A local candidate was discovered: send it once the transport is ready,
/// buffer it before.
pub open spec fn after_local_candidate(v: CoordinatorView, c: CandidateView) -> (CoordinatorView, Seq<ActionView>) {
    if is_terminal(v.state) {
        (v, seq![])
    } else if v.transport_ready {
        (v, seq![ActionView::Send { signal: candidate_signal_view(v.session_id, c) }])
    } else {
        (CoordinatorView { pending_local: v.pending_local.push(c), ..v }, seq![])
    }
}

/// An inbound signal: what it does to the session, or why it is dropped.
/// A dropped signal leaves the session as it was. An offer is never
/// expected, and an answer only while the offer awaits one, whatever else
/// holds, an ended session included. Remote candidates are
/// kept until the answer is applied, since a peer connection takes them
/// only once it has a remote description.
pub open spec fn after_signal(v: CoordinatorView, s: SignalView) -> Result<(CoordinatorView, Seq<ActionView>), Discard> {
    match s {
        SignalView::WebRtcOffer { .. } => Err(Discard::UnexpectedOffer),
        SignalView::WebRtcAnswer { session_id, sdp } => if session_id != v.session_id {
            Err(Discard::ForeignSession)
        } else if v.state == SessionState::OfferSent {
            Ok(
                (
                    CoordinatorView {
                        state: SessionState::AnswerApplied,
                        pending_remote: seq![],
                        ..v
                    },
                    seq![ActionView::ApplyAnswer { sdp: sdp.sdp }] + remote_applies(
                        v.pending_remote,
                    ),
                ),
            )
        } else {
            Err(Discard::UnexpectedAnswer)
        },
        SignalView::IceCandidate { session_id, candidate } => if session_id != v.session_id {
            Err(Discard::ForeignSession)
        } else if is_terminal(v.state) {
            Err(Discard::SessionOver)
        } else if v.state == SessionState::AnswerApplied {
            Ok((v, seq![ActionView::AddRemoteCandidate { candidate }]))
        } else {
            Ok((CoordinatorView { pending_remote: v.pending_remote.push(candidate), ..v }, seq![]))
        },
    }
}

/// An inbound message, `None` where it could not be decoded.
pub open spec fn after_message(v: CoordinatorView, m: Option<SignalView>) -> Result<(CoordinatorView, Seq<ActionView>), Discard> {
    match m {
        Some(s) => after_signal(v, s),
        None => Err(Discard::MalformedSignal),
    }
}

pub open spec fn message_view(m: Option<Signal>) -> Option<SignalView> {
    match m {
        Some(s) => Some(s@),
        None => None,
    }
}

/// The session ends: release everything, once.
pub open spec fn after_close(v: CoordinatorView) -> (CoordinatorView, Seq<ActionView>) {
    if is_terminal(v.state) {
        (v, seq![])
    } else {
        (
            CoordinatorView {
                state: SessionState::Closed,
                offer: None,
                pending_local: seq![],
                pending_remote: seq![],
                ..v
            },
            seq![ActionView::Release],
        )
    }
}

/// A fatal error: release everything and record the error, once.
pub open spec fn after_failure(v: CoordinatorView, f: Failure) -> (CoordinatorView, Seq<ActionView>) {
    if is_terminal(v.state) {
        (v, seq![])
    } else {
        (
            CoordinatorView {
                state: SessionState::Failed,
                failure: Some(f),
                offer: None,
                pending_local: seq![],
                pending_remote: seq![],
                ..v
            },
            seq![ActionView::Release],
        )
    }
}

/// One negotiation session and everything it has buffered.
pub struct Coordinator {
    session_id: u64,
    state: SessionState,
    transport_ready: bool,
    offer_sdp: Option<String>,
    pending_local: Vec<IceCandidateWebRtcData>,
    pending_remote: Vec<IceCandidateWebRtcData>,
    failure: Option<Failure>,
}

impl View for Coordinator {
    type V = CoordinatorView;

    closed spec fn view(&self) -> CoordinatorView {
        CoordinatorView {
            session_id: self.session_id,
            state: self.state,
            transport_ready: self.transport_ready,
            offer: match self.offer_sdp {
                Some(s) => Some(s@),
                None => None,
            },
            pending_local: candidates_view(self.pending_local@),
            pending_remote: candidates_view(self.pending_remote@),
            failure: self.failure,
        }
    }
}

fn is_terminal_state(s: SessionState) -> (r: bool)
    ensures
        r == is_terminal(s),
{
    s == SessionState::Closed || s == SessionState::Failed
}

/// The actions that hand over candidates: sends of the session's candidate
/// signals for local ones, hand-overs to the peer connection for remote
/// ones.
pub open spec fn candidate_actions(session_id: u64, remote: bool, cs: Seq<CandidateView>) -> Seq<ActionView> {
    if remote {
        remote_applies(cs)
    } else {
        local_sends(session_id, cs)
    }
}

/// Moves each candidate of `cs` into `out`, in order, as the action that
/// hands it over.
fn move_candidates(session_id: u64, remote: bool, cs: Vec<IceCandidateWebRtcData>, out: &mut Vec<Action>)
    ensures
        actions_view(final(out)@) == actions_view(old(out)@) + candidate_actions(
            session_id,
            remote,
            candidates_view(cs@),
        ),
{
    let ghost start = actions_view(out@);
    let ghost all = cs@;
    let mut rest = cs;
    let ghost mut k: int = 0;
    while rest.len() > 0
        invariant
            0 <= k <= all.len(),
            rest@ == all.subrange(k, all.len() as int),
            actions_view(out@) == start + candidate_actions(
                session_id,
                remote,
                candidates_view(all.subrange(0, k)),
            ),
        decreases rest.len(),
    {
        let c = rest.remove(0);
        let ghost cv = c@;
        let ghost before = out@;
        let ghost x = if remote {
            ActionView::AddRemoteCandidate { candidate: cv }
        } else {
            ActionView::Send { signal: candidate_signal_view(session_id, cv) }
        };
        if remote {
            out.push(Action::AddRemoteCandidate { candidate: c });
        } else {
            out.push(Action::Send { signal: Signal::candidate(session_id, c) });
        }
        proof {
            assert(actions_view(out@) =~= actions_view(before).push(x));
            assert(all.subrange(0, k + 1) =~= all.subrange(0, k).push(c));
            k = k + 1;
            assert(rest@ =~= all.subrange(k, all.len() as int));
            assert(candidates_view(all.subrange(0, k)) =~= candidates_view(
                all.subrange(0, k - 1),
            ).push(cv));
            assert(candidate_actions(session_id, remote, candidates_view(all.subrange(0, k)))
                =~= candidate_actions(
                session_id,
                remote,
                candidates_view(all.subrange(0, k - 1)),
            ).push(x));
            assert(actions_view(out@) =~= start + candidate_actions(
                session_id,
                remote,
                candidates_view(all.subrange(0, k)),
            ));
        }
    }
    proof {
        assert(all.subrange(0, k) =~= all);
    }
}

impl Coordinator {
    /// A coordinator for the session `session_id`, not started yet.
    pub fn new(session_id: u64) -> (r: Coordinator)
        ensures
            r@ == initial(session_id),
            r@.wf(),
    {
        let r = Coordinator {
            session_id,
            state: SessionState::Initializing,
            transport_ready: false,
            offer_sdp: None,
            pending_local: Vec::new(),
            pending_remote: Vec::new(),
            failure: None,
        };
        proof {
            assert(r@.pending_local =~= seq![]);
            assert(r@.pending_remote =~= seq![]);
        }
        r
    }

    /// Starts the negotiation: asks the host to open the transport to
    /// `endpoint`, to add one receive-only video capability and to create
    /// the local offer. Has no effect once started.
    pub fn start(&mut self, endpoint: String) -> (r: Vec<Action>)
        requires
            old(self)@.wf(),
        ensures
            final(self)@.wf(),
            (final(self)@, actions_view(r@)) == after_start(old(self)@, endpoint@),
    {
        let mut out: Vec<Action> = Vec::new();
        if self.state == SessionState::Initializing {
            self.state = SessionState::AwaitingTransport;
            let kind = "video".to_owned();
            proof {
                reveal_strlit("video");
                assert(kind@ =~= video_kind());
            }
            out.push(Action::OpenTransport { endpoint });
            out.push(Action::AddReceiveOnlyMedia { kind });
            out.push(Action::CreateOffer);
            proof {
                assert(actions_view(out@) =~= after_start(old(self)@, endpoint@).1);
            }
        } else {
            proof {
                assert(actions_view(out@) =~= seq![]);
            }
        }
        out
    }

    /// The transport connected: flushes the buffered local candidates in
    /// discovery order, then sends the offer if it was already created.
    pub fn on_transport_ready(&mut self) -> (r: Vec<Action>)
        requires
            old(self)@.wf(),
        ensures
            final(self)@.wf(),
            (final(self)@, actions_view(r@)) == after_transport_ready(old(self)@),
    {
        let mut out: Vec<Action> = Vec::new();
        if self.state == SessionState::AwaitingTransport && !self.transport_ready {
            self.transport_ready = true;
            let mut pending: Vec<IceCandidateWebRtcData> = Vec::new();
            std::mem::swap(&mut pending, &mut self.pending_local);
            move_candidates(self.session_id, false, pending, &mut out);
            match self.offer_sdp.take() {
                Some(sdp) => {
                    let ghost before = out@;
                    let ghost sv = sdp@;
                    out.push(Action::Send { signal: Signal::offer(self.session_id, sdp) });
                    self.state = SessionState::OfferSent;
                    proof {
                        assert(actions_view(out@) =~= actions_view(before).push(
                            offer_send(self.session_id, sv),
                        ));
                    }
                },
                None => {},
            }
            proof {
                assert(self@.pending_local =~= seq![]);
                assert(actions_view(seq![]) =~= seq![]);
                assert(seq![] + local_sends(self.session_id, old(self)@.pending_local)
                    =~= local_sends(self.session_id, old(self)@.pending_local));
            }
        } else {
            proof {
                assert(actions_view(out@) =~= seq![]);
            }
        }
        out
    }

    /// The local offer `sdp` was created and assigned as the local
    /// description: sends it if the transport is ready, else keeps it.
    pub fn on_offer_ready(&mut self, sdp: String) -> (r: Vec<Action>)
        requires
            old(self)@.wf(),
        ensures
            final(self)@.wf(),
            (final(self)@, actions_view(r@)) == after_offer_ready(old(self)@, sdp@),
    {
        let mut out: Vec<Action> = Vec::new();
        if self.state == SessionState::AwaitingTransport && self.offer_sdp.is_none() {
            if self.transport_ready {
                let ghost sv = sdp@;
                out.push(Action::Send { signal: Signal::offer(self.session_id, sdp) });
                self.state = SessionState::OfferSent;
                proof {
                    assert(actions_view(out@) =~= seq![offer_send(self.session_id, sv)]);
                }
            } else {
                self.offer_sdp = Some(sdp);
                proof {
                    assert(actions_view(out@) =~= seq![]);
                }
            }
        } else {
            proof {
                assert(actions_view(out@) =~= seq![]);
            }
        }
        out
    }

    /// A local candidate was discovered: sends it at once when the
    /// transport is ready, else buffers it behind the earlier ones.
    pub fn on_local_candidate(&mut self, candidate: IceCandidateWebRtcData) -> (r: Vec<Action>)
        requires
            old(self)@.wf(),
        ensures
            final(self)@.wf(),
            (final(self)@, actions_view(r@)) == after_local_candidate(old(self)@, candidate@),
    {
        let mut out: Vec<Action> = Vec::new();
        let ghost cv = candidate@;
        if is_terminal_state(self.state) {
            proof {
                assert(actions_view(out@) =~= seq![]);
            }
        } else if self.transport_ready {
            out.push(Action::Send { signal: Signal::candidate(self.session_id, candidate) });
            proof {
                assert(actions_view(out@) =~= seq![
                    ActionView::Send { signal: candidate_signal_view(self.session_id, cv) },
                ]);
            }
        } else {
            self.pending_local.push(candidate);
            proof {
                assert(self@.pending_local =~= old(self)@.pending_local.push(cv));
                assert(actions_view(out@) =~= seq![]);
            }
        }
        out
    }

    /// Handles a decoded inbound signal. Returns the actions it calls for,
    /// or why it was dropped; a dropped signal changes nothing.
    pub fn on_inbound_signal(&mut self, signal: Signal) -> (r: Result<Vec<Action>, Discard>)
        requires
            old(self)@.wf(),
        ensures
            final(self)@.wf(),
            match after_signal(old(self)@, signal@) {
                Ok((v, a)) => r matches Ok(out) && final(self)@ == v && actions_view(out@) == a,
                Err(d) => r matches Err(e) && e == d && final(self)@ == old(self)@,
            },
    {
        let own = signal.session_id() == self.session_id;
        match signal {
            Signal::WebRtcOffer { .. } => Err(Discard::UnexpectedOffer),
            Signal::WebRtcAnswer { data } => {
                if !own {
                    Err(Discard::ForeignSession)
                } else if self.state == SessionState::OfferSent {
                    self.state = SessionState::AnswerApplied;
                    let mut out: Vec<Action> = Vec::new();
                    out.push(Action::ApplyAnswer { sdp: data.webrtc_data.sdp });
                    let mut pending: Vec<IceCandidateWebRtcData> = Vec::new();
                    std::mem::swap(&mut pending, &mut self.pending_remote);
                    move_candidates(self.session_id, true, pending, &mut out);
                    proof {
                        assert(self@.pending_remote =~= seq![]);
                    }
                    Ok(out)
                } else {
                    Err(Discard::UnexpectedAnswer)
                }
            },
            Signal::IceCandidate { data } => {
                if !own {
                    return Err(Discard::ForeignSession);
                }
                if is_terminal_state(self.state) {
                    return Err(Discard::SessionOver);
                }
                let ghost cv = data.webrtc_data@;
                let mut out: Vec<Action> = Vec::new();
                if self.state == SessionState::AnswerApplied {
                    out.push(Action::AddRemoteCandidate { candidate: data.webrtc_data });
                    proof {
                        assert(actions_view(out@) =~= seq![
                            ActionView::AddRemoteCandidate { candidate: cv },
                        ]);
                    }
                } else {
                    self.pending_remote.push(data.webrtc_data);
                    proof {
                        assert(self@.pending_remote =~= old(self)@.pending_remote.push(cv));
                        assert(actions_view(out@) =~= seq![]);
                    }
                }
                Ok(out)
            },
        }
    }

    /// Handles an inbound message, `None` where it could not be decoded: a
    /// malformed message is dropped and changes nothing.
    pub fn on_inbound_message(&mut self, decoded: Option<Signal>) -> (r: Result<Vec<Action>, Discard>)
        requires
            old(self)@.wf(),
        ensures
            final(self)@.wf(),
            match after_message(old(self)@, message_view(decoded)) {
                Ok((v, a)) => r matches Ok(out) && final(self)@ == v && actions_view(out@) == a,
                Err(d) => r matches Err(e) && e == d && final(self)@ == old(self)@,
            },
    {
        match decoded {
            Some(signal) => self.on_inbound_signal(signal),
            None => Err(Discard::MalformedSignal),
        }
    }

    /// Ends the session: moves to `Closed` and asks once for the transport
    /// and the peer connection to be released. Has no effect on an ended
    /// session.
    pub fn close(&mut self) -> (r: Vec<Action>)
        requires
            old(self)@.wf(),
        ensures
            final(self)@.wf(),
            (final(self)@, actions_view(r@)) == after_close(old(self)@),
    {
        let mut out: Vec<Action> = Vec::new();
        if !is_terminal_state(self.state) {
            self.state = SessionState::Closed;
            self.offer_sdp = None;
            self.pending_local = Vec::new();
            self.pending_remote = Vec::new();
            out.push(Action::Release);
            proof {
                assert(self@.pending_local =~= seq![]);
                assert(self@.pending_remote =~= seq![]);
                assert(actions_view(out@) =~= seq![ActionView::Release]);
            }
        } else {
            proof {
                assert(actions_view(out@) =~= seq![]);
            }
        }
        out
    }

    /// A fatal error: moves to `Failed`, records `failure` and asks once for
    /// the transport and the peer connection to be released. Has no effect
    /// on an ended session.
    pub fn fail(&mut self, failure: Failure) -> (r: Vec<Action>)
        requires
            old(self)@.wf(),
        ensures
            final(self)@.wf(),
            (final(self)@, actions_view(r@)) == after_failure(old(self)@, failure),
    {
        let mut out: Vec<Action> = Vec::new();
        if !is_terminal_state(self.state) {
            self.state = SessionState::Failed;
            self.failure = Some(failure);
            self.offer_sdp = None;
            self.pending_local = Vec::new();
            self.pending_remote = Vec::new();
            out.push(Action::Release);
            proof {
                assert(self@.pending_local =~= seq![]);
                assert(self@.pending_remote =~= seq![]);
                assert(actions_view(out@) =~= seq![ActionView::Release]);
            }
        } else {
            proof {
                assert(actions_view(out@) =~= seq![]);
            }
        }
        out
    }

    pub fn session_id(&self) -> (r: u64)
        ensures
            r == self@.session_id,
    {
        self.session_id
    }

    pub fn state(&self) -> (r: SessionState)
        ensures
            r == self@.state,
    {
        self.state
    }

    /// The fatal error that ended the session, if it failed.
    pub fn failure(&self) -> (r: Option<Failure>)
        ensures
            r == self@.failure,
    {
        self.failure
    }

    pub fn is_transport_ready(&self) -> (r: bool)
        ensures
            r == self@.transport_ready,
    {
        self.transport_ready
    }

    /// Whether the local offer exists and waits for the transport.
    pub fn has_offer_waiting(&self) -> (r: bool)
        ensures
            r == self@.offer is Some,
    {
        self.offer_sdp.is_some()
    }

    /// Local candidates not sent yet, in discovery order.
    pub fn pending_local_candidates(&self) -> (r: &Vec<IceCandidateWebRtcData>)
        ensures
            candidates_view(r@) == self@.pending_local,
    {
        &self.pending_local
    }

    /// Remote candidates kept until the answer is applied, in arrival order.
    pub fn pending_remote_candidates(&self) -> (r: &Vec<IceCandidateWebRtcData>)
        ensures
            candidates_view(r@) == self@.pending_remote,
    {
        &self.pending_remote
    }
}

} // verus!
