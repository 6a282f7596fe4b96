//! The signaling wire model: a tagged union of messages, each carrying the
//! session identifier of the negotiation it belongs to.

use vstd::prelude::*;

verus! {

/// Abstract value of a session description payload.
pub struct SdpView {
    pub data_type: Option<Seq<char>>,
    pub sdp: Seq<char>,
}

/// Abstract value of a connectivity candidate payload.
pub struct CandidateView {
    pub candidate: Seq<char>,
    pub sdp_m_line_index: Option<u16>,
}

/// Abstract value of a signal.
pub enum SignalView {
    WebRtcOffer { session_id: u64, sdp: SdpView },
    WebRtcAnswer { session_id: u64, sdp: SdpView },
    IceCandidate { session_id: u64, candidate: CandidateView },
}

impl SignalView {
    pub open spec fn session_id(self) -> u64 {
        match self {
            SignalView::WebRtcOffer { session_id, .. } => session_id,
            SignalView::WebRtcAnswer { session_id, .. } => session_id,
            SignalView::IceCandidate { session_id, .. } => session_id,
        }
    }
}

/// A message exchanged over the signaling channel.
#[allow(inconsistent_fields)]
#[derive(Debug)]
pub enum Signal {
    WebRtcOffer { data: WebRtcOfferData },
    WebRtcAnswer { data: WebRtcAnswerData },
    IceCandidate { data: IceCandidateData },
}

#[derive(Debug)]
pub struct WebRtcOfferData {
    pub session_id: u64,
    pub webrtc_data: WebRtcData,
}

#[derive(Debug)]
pub struct WebRtcAnswerData {
    pub session_id: u64,
    pub webrtc_data: WebRtcData,
}

#[derive(Debug)]
pub struct IceCandidateData {
    pub session_id: u64,
    pub webrtc_data: IceCandidateWebRtcData,
}

/// A session description: its kind (`"offer"` or `"answer"`, optional on
/// the wire) and the SDP text.
#[derive(Debug)]
pub struct WebRtcData {
    pub data_type: Option<String>,
    pub sdp: String,
}

/// A connectivity candidate and the media line it belongs to, if known.
#[derive(Debug)]
pub struct IceCandidateWebRtcData {
    pub candidate: String,
    pub sdp_m_line_index: Option<u16>,
}

impl View for WebRtcData {
    type V = SdpView;

    open spec fn view(&self) -> SdpView {
        SdpView {
            data_type: match self.data_type {
                Some(t) => Some(t@),
                None => None,
            },
            sdp: self.sdp@,
        }
    }
}

impl View for IceCandidateWebRtcData {
    type V = CandidateView;

    open spec fn view(&self) -> CandidateView {
        CandidateView { candidate: self.candidate@, sdp_m_line_index: self.sdp_m_line_index }
    }
}

impl View for Signal {
    type V = SignalView;

    open spec fn view(&self) -> SignalView {
        match self {
            Signal::WebRtcOffer { data } => SignalView::WebRtcOffer {
                session_id: data.session_id,
                sdp: data.webrtc_data@,
            },
            Signal::WebRtcAnswer { data } => SignalView::WebRtcAnswer {
                session_id: data.session_id,
                sdp: data.webrtc_data@,
            },
            Signal::IceCandidate { data } => SignalView::IceCandidate {
                session_id: data.session_id,
                candidate: data.webrtc_data@,
            },
        }
    }
}

/// The tag text of an offer's session description.
pub open spec fn offer_tag() -> Seq<char> {
    seq!['o', 'f', 'f', 'e', 'r']
}

/// The signal that carries a local offer of the given session.
pub open spec fn offer_signal_view(session_id: u64, sdp: Seq<char>) -> SignalView {
    SignalView::WebRtcOffer {
        session_id,
        sdp: SdpView { data_type: Some(offer_tag()), sdp },
    }
}

/// The signal that carries a local candidate of the given session.
pub open spec fn candidate_signal_view(session_id: u64, c: CandidateView) -> SignalView {
    SignalView::IceCandidate { session_id, candidate: c }
}

impl Signal {
    /// The session this signal belongs to.
    pub fn session_id(&self) -> (r: u64)
        ensures
            r == self@.session_id(),
    {
        match self {
            Signal::WebRtcOffer { data } => data.session_id,
            Signal::WebRtcAnswer { data } => data.session_id,
            Signal::IceCandidate { data } => data.session_id,
        }
    }

    /// The offer signal of a session, tagged `"offer"`.
    pub fn offer(session_id: u64, sdp: String) -> (r: Signal)
        ensures
            r@ == offer_signal_view(session_id, sdp@),
    {
        let tag = "offer".to_owned();
        proof {
            reveal_strlit("offer");
            assert(tag@ =~= offer_tag());
        }
        Signal::WebRtcOffer {
            data: WebRtcOfferData {
                session_id,
                webrtc_data: WebRtcData { data_type: Some(tag), sdp },
            },
        }
    }

    /// The signal that announces a local candidate of a session.
    pub fn candidate(session_id: u64, candidate: IceCandidateWebRtcData) -> (r: Signal)
        ensures
            r@ == candidate_signal_view(session_id, candidate@),
    {
        Signal::IceCandidate { data: IceCandidateData { session_id, webrtc_data: candidate } }
    }
}

} // verus!
