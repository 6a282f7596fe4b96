//! Properties of the coordinator over events and sequences of events,
//! stated over the spec model that the coordinator's methods follow.

use vstd::prelude::*;
use crate::coordinator::{
    after_close, after_failure, after_local_candidate, after_message, after_offer_ready,
    after_signal, after_start, after_transport_ready, is_terminal, local_sends, offer_send,
    remote_applies, ActionView, CoordinatorView, Discard, Failure, SessionState,
};
use crate::signals::{CandidateView, SignalView};

verus! {

/// An event delivered to the coordinator.
pub enum Event {
    Start { endpoint: Seq<char> },
    TransportReady,
    OfferReady { sdp: Seq<char> },
    LocalCandidate { candidate: CandidateView },
    Inbound { message: Option<SignalView> },
    Close,
    Fail { failure: Failure },
}

/// The coordinator's response to one event; a dropped message changes
/// nothing and asks for nothing.
pub open spec fn step(v: CoordinatorView, e: Event) -> (CoordinatorView, Seq<ActionView>) {
    match e {
        Event::Start { endpoint } => after_start(v, endpoint),
        Event::TransportReady => after_transport_ready(v),
        Event::OfferReady { sdp } => after_offer_ready(v, sdp),
        Event::LocalCandidate { candidate } => after_local_candidate(v, candidate),
        Event::Inbound { message } => match after_message(v, message) {
            Ok(r) => r,
            Err(_) => (v, seq![]),
        },
        Event::Close => after_close(v),
        Event::Fail { failure } => after_failure(v, failure),
    }
}

/// The state after a sequence of events, and every action asked for, in
/// order.
pub open spec fn run(v: CoordinatorView, es: Seq<Event>) -> (CoordinatorView, Seq<ActionView>)
    decreases es.len(),
{
    if es.len() == 0 {
        (v, seq![])
    } else {
        let (v1, a1) = step(v, es[0]);
        let (v2, a2) = run(v1, es.drop_first());
        (v2, a1 + a2)
    }
}

/// How many of the actions satisfy `p`.
pub open spec fn count_where(a: Seq<ActionView>, p: spec_fn(ActionView) -> bool) -> nat
    decreases a.len(),
{
    if a.len() == 0 {
        0
    } else {
        (if p(a[0]) { 1nat } else { 0nat }) + count_where(a.drop_first(), p)
    }
}

pub open spec fn is_offer_send(a: ActionView) -> bool {
    a matches ActionView::Send { signal } && signal is WebRtcOffer
}

pub open spec fn is_answer_applied(a: ActionView) -> bool {
    a is ApplyAnswer
}

pub open spec fn is_release(a: ActionView) -> bool {
    a is Release
}

/// How far a session has come; no event lowers it.
pub open spec fn rank(s: SessionState) -> nat {
    match s {
        SessionState::Initializing => 0,
        SessionState::AwaitingTransport => 1,
        SessionState::OfferSent => 2,
        SessionState::AnswerApplied => 3,
        SessionState::Closed => 4,
        SessionState::Failed => 4,
    }
}

proof fn lemma_count_add(a: Seq<ActionView>, b: Seq<ActionView>, p: spec_fn(ActionView) -> bool)
    ensures
        count_where(a + b, p) == count_where(a, p) + count_where(b, p),
    decreases a.len(),
{
    if a.len() > 0 {
        assert((a + b).drop_first() =~= a.drop_first() + b);
        lemma_count_add(a.drop_first(), b, p);
    } else {
        assert(a + b =~= b);
    }
}

proof fn lemma_count_none(a: Seq<ActionView>, p: spec_fn(ActionView) -> bool)
    requires
        forall|i: int| 0 <= i < a.len() ==> !p(#[trigger] a[i]),
    ensures
        count_where(a, p) == 0,
    decreases a.len(),
{
    if a.len() > 0 {
        assert forall|i: int| 0 <= i < a.drop_first().len() implies !p(
            #[trigger] a.drop_first()[i],
        ) by {
            assert(a.drop_first()[i] == a[i + 1]);
        }
        lemma_count_none(a.drop_first(), p);
    }
}

proof fn lemma_count_single(x: ActionView, p: spec_fn(ActionView) -> bool)
    ensures
        count_where(seq![x], p) == if p(x) { 1nat } else { 0nat },
{
    assert(seq![x].drop_first() =~= Seq::<ActionView>::empty());
    assert(count_where(Seq::<ActionView>::empty(), p) == 0);
    assert(seq![x][0] == x);
}

/// Facts of one step that the sequence laws are built from.
proof fn lemma_step(v: CoordinatorView, e: Event)
    requires
        v.wf(),
    ensures
        step(v, e).0.wf(),
        step(v, e).0.session_id == v.session_id,
        rank(v.state) <= rank(step(v, e).0.state),
        count_where(step(v, e).1, |a: ActionView| is_offer_send(a)) == (if v.state
            == SessionState::AwaitingTransport && step(v, e).0.state == SessionState::OfferSent {
            1nat
        } else {
            0nat
        }),
        count_where(step(v, e).1, |a: ActionView| is_answer_applied(a)) == (if v.state
            == SessionState::OfferSent && step(v, e).0.state == SessionState::AnswerApplied {
            1nat
        } else {
            0nat
        }),
        count_where(step(v, e).1, |a: ActionView| is_release(a)) == (if !is_terminal(v.state)
            && is_terminal(step(v, e).0.state) {
            1nat
        } else {
            0nat
        }),
{
    let po = |a: ActionView| is_offer_send(a);
    let pa = |a: ActionView| is_answer_applied(a);
    let pr = |a: ActionView| is_release(a);
    let (v1, a1) = step(v, e);
    match e {
        Event::Start { endpoint } => {
            lemma_count_none(a1, po);
            lemma_count_none(a1, pa);
            lemma_count_none(a1, pr);
        },
        Event::TransportReady => {
            if v.state == SessionState::AwaitingTransport && !v.transport_ready {
                let flushed = local_sends(v.session_id, v.pending_local);
                lemma_count_none(flushed, po);
                lemma_count_none(flushed, pa);
                lemma_count_none(flushed, pr);
                if let Some(sdp) = v.offer {
                    let x = offer_send(v.session_id, sdp);
                    assert(flushed.push(x) =~= flushed + seq![x]);
                    lemma_count_add(flushed, seq![x], po);
                    lemma_count_add(flushed, seq![x], pa);
                    lemma_count_add(flushed, seq![x], pr);
                    lemma_count_single(x, po);
                    lemma_count_single(x, pa);
                    lemma_count_single(x, pr);
                }
            } else {
                lemma_count_none(a1, po);
                lemma_count_none(a1, pa);
                lemma_count_none(a1, pr);
            }
        },
        Event::OfferReady { sdp } => {
            if a1.len() > 0 {
                lemma_count_single(a1[0], po);
                lemma_count_single(a1[0], pa);
                lemma_count_single(a1[0], pr);
                assert(a1 =~= seq![a1[0]]);
            } else {
                lemma_count_none(a1, po);
                lemma_count_none(a1, pa);
                lemma_count_none(a1, pr);
            }
        },
        Event::LocalCandidate { candidate } => {
            lemma_count_none(a1, po);
            lemma_count_none(a1, pa);
            lemma_count_none(a1, pr);
        },
        Event::Inbound { message } => {
            match after_message(v, message) {
                Ok(r) => {
                    let s = message->Some_0;
                    if s is WebRtcAnswer {
                        let x = a1[0];
                        let rest = remote_applies(v.pending_remote);
                        assert(a1 =~= seq![x] + rest);
                        lemma_count_none(rest, po);
                        lemma_count_none(rest, pa);
                        lemma_count_none(rest, pr);
                        lemma_count_add(seq![x], rest, po);
                        lemma_count_add(seq![x], rest, pa);
                        lemma_count_add(seq![x], rest, pr);
                        lemma_count_single(x, po);
                        lemma_count_single(x, pa);
                        lemma_count_single(x, pr);
                    } else {
                        lemma_count_none(a1, po);
                        lemma_count_none(a1, pa);
                        lemma_count_none(a1, pr);
                    }
                },
                Err(_) => {
                    lemma_count_none(a1, po);
                    lemma_count_none(a1, pa);
                    lemma_count_none(a1, pr);
                },
            }
        },
        Event::Close => {
            if a1.len() > 0 {
                assert(a1 =~= seq![ActionView::Release]);
                lemma_count_single(ActionView::Release, po);
                lemma_count_single(ActionView::Release, pa);
                lemma_count_single(ActionView::Release, pr);
            } else {
                lemma_count_none(a1, po);
                lemma_count_none(a1, pa);
                lemma_count_none(a1, pr);
            }
        },
        Event::Fail { failure } => {
            if a1.len() > 0 {
                assert(a1 =~= seq![ActionView::Release]);
                lemma_count_single(ActionView::Release, po);
                lemma_count_single(ActionView::Release, pa);
                lemma_count_single(ActionView::Release, pr);
            } else {
                lemma_count_none(a1, po);
                lemma_count_none(a1, pa);
                lemma_count_none(a1, pr);
            }
        },
    }
}

/// Whichever of transport-ready and offer-ready comes first, the offer is
/// not sent by the first and is sent exactly once, as the last action, by
/// the second.
pub proof fn lemma_offer_waits_for_both(v: CoordinatorView, sdp: Seq<char>)
    requires
        v.wf(),
        v.state == SessionState::AwaitingTransport,
        !v.transport_ready,
        v.offer is None,
    ensures
        ({
            let (v1, a1) = after_transport_ready(v);
            let (v2, a2) = after_offer_ready(v1, sdp);
            &&& count_where(a1, |a: ActionView| is_offer_send(a)) == 0
            &&& v1.state == SessionState::AwaitingTransport
            &&& a2 == seq![offer_send(v.session_id, sdp)]
            &&& v2.state == SessionState::OfferSent
        }),
        ({
            let (v1, a1) = after_offer_ready(v, sdp);
            let (v2, a2) = after_transport_ready(v1);
            &&& a1 == Seq::<ActionView>::empty()
            &&& v1.state == SessionState::AwaitingTransport
            &&& count_where(a2, |a: ActionView| is_offer_send(a)) == 1
            &&& a2.last() == offer_send(v.session_id, sdp)
            &&& v2.state == SessionState::OfferSent
        }),
{
    lemma_step(v, Event::TransportReady);
    let v1 = after_offer_ready(v, sdp).0;
    lemma_step(v, Event::OfferReady { sdp });
    lemma_step(v1, Event::TransportReady);
}

/// An event makes the coordinator send its offer only when the transport
/// is ready and the offer exists: the transport connecting while the offer
/// waits, or the offer arriving once the transport is ready.
pub proof fn lemma_offer_only_after_both(v: CoordinatorView, e: Event)
    requires
        v.wf(),
    ensures
        count_where(step(v, e).1, |a: ActionView| is_offer_send(a)) > 0 ==> {
            &&& v.state == SessionState::AwaitingTransport
            &&& step(v, e).0.transport_ready
            &&& (e is TransportReady && v.offer is Some) || (e is OfferReady && v.transport_ready)
        },
{
    lemma_step(v, e);
}

/// Over any sequence of events, the offer is sent at most once, the answer
/// applied at most once and the resources released at most once; none of
/// them happens again once the session is past the state that allows it.
pub proof fn lemma_at_most_once(v: CoordinatorView, es: Seq<Event>)
    requires
        v.wf(),
    ensures
        run(v, es).0.wf(),
        count_where(run(v, es).1, |a: ActionView| is_offer_send(a)) <= if rank(v.state) <= 1 {
            1nat
        } else {
            0nat
        },
        count_where(run(v, es).1, |a: ActionView| is_answer_applied(a)) <= if rank(v.state)
            <= 2 {
            1nat
        } else {
            0nat
        },
        count_where(run(v, es).1, |a: ActionView| is_release(a)) <= if rank(v.state) <= 3 {
            1nat
        } else {
            0nat
        },
    decreases es.len(),
{
    if es.len() > 0 {
        let (v1, a1) = step(v, es[0]);
        let a2 = run(v1, es.drop_first()).1;
        lemma_step(v, es[0]);
        lemma_at_most_once(v1, es.drop_first());
        lemma_count_add(a1, a2, |a: ActionView| is_offer_send(a));
        lemma_count_add(a1, a2, |a: ActionView| is_answer_applied(a));
        lemma_count_add(a1, a2, |a: ActionView| is_release(a));
    } else {
        lemma_count_none(seq![], |a: ActionView| is_offer_send(a));
        lemma_count_none(seq![], |a: ActionView| is_answer_applied(a));
        lemma_count_none(seq![], |a: ActionView| is_release(a));
    }
}

pub open spec fn local_candidate_events(cs: Seq<CandidateView>) -> Seq<Event> {
    cs.map_values(|c: CandidateView| Event::LocalCandidate { candidate: c })
}

/// Local candidates discovered before the transport is ready are sent
/// nowhere but buffered; when the transport connects they are all sent in
/// discovery order, followed by the offer if it already exists.
pub proof fn lemma_candidates_flushed_in_order(v: CoordinatorView, cs: Seq<CandidateView>)
    requires
        v.wf(),
        v.state == SessionState::AwaitingTransport,
        !v.transport_ready,
    ensures
        run(v, local_candidate_events(cs)) == (
            CoordinatorView { pending_local: v.pending_local + cs, ..v },
            Seq::<ActionView>::empty(),
        ),
        after_transport_ready(run(v, local_candidate_events(cs)).0).1 == local_sends(
            v.session_id,
            v.pending_local + cs,
        ) + match v.offer {
            Some(sdp) => seq![offer_send(v.session_id, sdp)],
            None => Seq::<ActionView>::empty(),
        },
    decreases cs.len(),
{
    let es = local_candidate_events(cs);
    if cs.len() > 0 {
        let v1 = CoordinatorView { pending_local: v.pending_local.push(cs[0]), ..v };
        assert(es.drop_first() =~= local_candidate_events(cs.drop_first()));
        assert(step(v, es[0]) == (v1, Seq::<ActionView>::empty()));
        lemma_candidates_flushed_in_order(v1, cs.drop_first());
        assert(v1.pending_local + cs.drop_first() =~= v.pending_local + cs);
        assert(Seq::<ActionView>::empty() + Seq::<ActionView>::empty() =~= Seq::<
            ActionView,
        >::empty());
    } else {
        assert(v.pending_local + cs =~= v.pending_local);
    }
    let w = run(v, es).0;
    let flushed = local_sends(v.session_id, v.pending_local + cs);
    match v.offer {
        Some(sdp) => {
            assert(flushed.push(offer_send(v.session_id, sdp)) =~= flushed + seq![
                offer_send(v.session_id, sdp),
            ]);
        },
        None => {
            assert(flushed =~= flushed + Seq::<ActionView>::empty());
        },
    }
}

/// A message that could not be decoded is dropped as malformed and
/// changes nothing.
pub proof fn lemma_malformed_changes_nothing(v: CoordinatorView)
    ensures
        after_message(v, None) == Err::<(CoordinatorView, Seq<ActionView>), Discard>(
            Discard::MalformedSignal,
        ),
        step(v, Event::Inbound { message: None }) == (v, Seq::<ActionView>::empty()),
{
}

/// An answer that arrives while no offer awaits one, an ended session
/// included, is dropped and leaves the session as it was; one of this
/// session is dropped as unexpected.
pub proof fn lemma_stray_answer_discarded(v: CoordinatorView, s: SignalView)
    requires
        s is WebRtcAnswer,
        v.state != SessionState::OfferSent,
    ensures
        after_signal(v, s) is Err,
        s.session_id() == v.session_id ==> after_signal(v, s) == Err::<
            (CoordinatorView, Seq<ActionView>),
            Discard,
        >(Discard::UnexpectedAnswer),
        step(v, Event::Inbound { message: Some(s) }) == (v, Seq::<ActionView>::empty()),
{
}

/// An offer from the peer is never expected: whatever the session's state
/// and the offer's session, it is dropped as unexpected and changes nothing.
pub proof fn lemma_offer_always_unexpected(v: CoordinatorView, s: SignalView)
    requires
        s is WebRtcOffer,
    ensures
        after_signal(v, s) == Err::<(CoordinatorView, Seq<ActionView>), Discard>(
            Discard::UnexpectedOffer,
        ),
        step(v, Event::Inbound { message: Some(s) }) == (v, Seq::<ActionView>::empty()),
{
}

/// Of two answers to the session's offer, the first is applied and moves
/// the session to `AnswerApplied`; the second is dropped as unexpected.
pub proof fn lemma_answer_applied_once(v: CoordinatorView, s1: SignalView, s2: SignalView)
    requires
        v.wf(),
        v.state == SessionState::OfferSent,
        s1 is WebRtcAnswer,
        s2 is WebRtcAnswer,
        s1.session_id() == v.session_id,
        s2.session_id() == v.session_id,
    ensures
        after_signal(v, s1) matches Ok((v1, a1)) && v1.state == SessionState::AnswerApplied
            && a1[0] == (ActionView::ApplyAnswer { sdp: s1->WebRtcAnswer_sdp.sdp })
            && after_signal(v1, s2) == Err::<(CoordinatorView, Seq<ActionView>), Discard>(
            Discard::UnexpectedAnswer,
        ),
{
}

/// Closing ends the session and asks once for its resources to be
/// released; closing again, or any other event after the end, including a
/// late completion of an asynchronous step, changes nothing and asks for
/// nothing.
pub proof fn lemma_close_idempotent(v: CoordinatorView, e: Event)
    requires
        v.wf(),
    ensures
        is_terminal(after_close(v).0.state),
        !is_terminal(v.state) ==> after_close(v).0.state == SessionState::Closed
            && after_close(v).1 == seq![ActionView::Release],
        after_close(after_close(v).0) == (after_close(v).0, Seq::<ActionView>::empty()),
        step(after_close(v).0, e) == (after_close(v).0, Seq::<ActionView>::empty()),
{
    let w = after_close(v).0;
    match e {
        Event::Inbound { message } => {
            match message {
                Some(s) => {
                    assert(after_signal(w, s) is Err);
                },
                None => {},
            }
        },
        _ => {},
    }
}

/// Over any sequence of events, the offer is sent only if the transport
/// connected and the offer was created, each before or during the sequence.
pub proof fn lemma_offer_needs_both_events(v: CoordinatorView, es: Seq<Event>)
    requires
        v.wf(),
    ensures
        count_where(run(v, es).1, |a: ActionView| is_offer_send(a)) > 0 ==> {
            &&& v.transport_ready || exists|i: int| 0 <= i < es.len() && #[trigger] es[i] is TransportReady
            &&& v.offer is Some || exists|i: int| 0 <= i < es.len() && #[trigger] es[i] is OfferReady
        },
    decreases es.len(),
{
    if es.len() > 0 {
        let (v1, a1) = step(v, es[0]);
        let rest = es.drop_first();
        let a2 = run(v1, rest).1;
        lemma_step(v, es[0]);
        lemma_offer_only_after_both(v, es[0]);
        lemma_offer_needs_both_events(v1, rest);
        lemma_count_add(a1, a2, |a: ActionView| is_offer_send(a));
        if count_where(run(v, es).1, |a: ActionView| is_offer_send(a)) > 0 {
            if count_where(a1, |a: ActionView| is_offer_send(a)) > 0 {
                assert(es[0] is TransportReady || v.transport_ready);
                assert(es[0] is OfferReady || v.offer is Some);
            } else {
                if !v.transport_ready && !(es[0] is TransportReady) {
                    assert(!v1.transport_ready);
                    let i = choose|i: int| 0 <= i < rest.len() && #[trigger] rest[i] is TransportReady;
                    assert(es[i + 1] is TransportReady);
                }
                if v.offer is None && !(es[0] is OfferReady) {
                    assert(v1.offer is None);
                    let i = choose|i: int| 0 <= i < rest.len() && #[trigger] rest[i] is OfferReady;
                    assert(es[i + 1] is OfferReady);
                }
            }
        }
    } else {
        lemma_count_none(seq![], |a: ActionView| is_offer_send(a));
    }
}

/// Whatever ends the session, close or fatal error, asks in that same step
/// for exactly one release of the transport and the peer connection, so no
/// handle outlives the session; a step that does not end it releases
/// nothing.
pub proof fn lemma_released_when_ended(v: CoordinatorView, e: Event)
    requires
        v.wf(),
    ensures
        count_where(step(v, e).1, |a: ActionView| is_release(a)) == if !is_terminal(v.state)
            && is_terminal(step(v, e).0.state) {
            1nat
        } else {
            0nat
        },
{
    lemma_step(v, e);
}

/// No event of the sequence ends the session.
pub open spec fn never_ends(es: Seq<Event>) -> bool {
    forall|i: int| 0 <= i < es.len() ==> !(#[trigger] es[i] is Close) && !(es[i] is Fail)
}

/// The event delivers an answer of the given session.
pub open spec fn is_own_answer(e: Event, session_id: u64) -> bool {
    e matches Event::Inbound { message: Some(s) } && s is WebRtcAnswer && s.session_id()
        == session_id
}

/// Once the answer is applied the session stays in `AnswerApplied` until it
/// is closed or fails, and no further answer is applied.
pub proof fn lemma_answer_state_kept(v: CoordinatorView, es: Seq<Event>)
    requires
        v.wf(),
        v.state == SessionState::AnswerApplied,
        never_ends(es),
    ensures
        run(v, es).0.state == SessionState::AnswerApplied,
        count_where(run(v, es).1, |a: ActionView| is_answer_applied(a)) == 0,
    decreases es.len(),
{
    lemma_at_most_once(v, es);
    if es.len() > 0 {
        let v1 = step(v, es[0]).0;
        lemma_step(v, es[0]);
        assert(!(es[0] is Close) && !(es[0] is Fail));
        assert(never_ends(es.drop_first())) by {
            assert forall|i: int| 0 <= i < es.drop_first().len() implies !(
            #[trigger] es.drop_first()[i] is Close) && !(es.drop_first()[i] is Fail) by {
                assert(es.drop_first()[i] == es[i + 1]);
            }
        }
        lemma_answer_state_kept(v1, es.drop_first());
    }
}

/// From the sent offer, over any sequence of events that does not end the
/// session and carries an answer of this session, the first such answer
/// moves the session to `AnswerApplied`, where it stays, and exactly one
/// answer is applied: later answers are dropped.
pub proof fn lemma_first_answer_applied_once(v: CoordinatorView, es: Seq<Event>)
    requires
        v.wf(),
        v.state == SessionState::OfferSent,
        never_ends(es),
        exists|i: int| 0 <= i < es.len() && is_own_answer(#[trigger] es[i], v.session_id),
    ensures
        run(v, es).0.state == SessionState::AnswerApplied,
        count_where(run(v, es).1, |a: ActionView| is_answer_applied(a)) == 1,
    decreases es.len(),
{
    let pa = |a: ActionView| is_answer_applied(a);
    let (v1, a1) = step(v, es[0]);
    let rest = es.drop_first();
    let a2 = run(v1, rest).1;
    lemma_step(v, es[0]);
    lemma_count_add(a1, a2, pa);
    assert(!(es[0] is Close) && !(es[0] is Fail));
    assert(never_ends(rest)) by {
        assert forall|i: int| 0 <= i < rest.len() implies !(#[trigger] rest[i] is Close) && !(
        rest[i] is Fail) by {
            assert(rest[i] == es[i + 1]);
        }
    }
    if is_own_answer(es[0], v.session_id) {
        assert(v1.state == SessionState::AnswerApplied);
        lemma_answer_state_kept(v1, rest);
    } else {
        assert(v1.state == SessionState::OfferSent);
        let i = choose|i: int| 0 <= i < es.len() && is_own_answer(#[trigger] es[i], v.session_id);
        assert(i > 0);
        assert(is_own_answer(rest[i - 1], v1.session_id));
        lemma_first_answer_applied_once(v1, rest);
    }
}

} // verus!
