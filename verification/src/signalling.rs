use vstd::prelude::*;

use crate::common::{published, withdrawn, AVBus, StreamMap};
use crate::error::Error;
use crate::json::{same_text, Json};

verus! {

/// What the server does on a message from the browser.
pub enum SignalAction {
    /// Parse `sdp` as an SDP answer and set it as the remote description.
    SetRemoteAnswer { sdp: String },
    /// Add `candidate` as a remote ICE candidate of media line `mline_index`.
    AddIceCandidate { mline_index: u32, candidate: String },
}

/// The mathematical value of a `SignalAction`.
pub enum SignalActionView {
    SetRemoteAnswer { sdp: Seq<char> },
    AddIceCandidate { mline_index: u32, candidate: Seq<char> },
}

impl View for SignalAction {
    type V = SignalActionView;

    open spec fn view(&self) -> SignalActionView {
        match self {
            SignalAction::SetRemoteAnswer { sdp } => SignalActionView::SetRemoteAnswer { sdp: sdp@ },
            SignalAction::AddIceCandidate { mline_index, candidate } => SignalActionView::AddIceCandidate {
                mline_index: *mline_index,
                candidate: candidate@,
            },
        }
    }
}

/// How the server closes a WebSocket connection.
#[derive(Clone, Copy, PartialEq, Eq, Structural)]
pub enum CloseReason {
    /// A normal close.
    Normal,
    /// A close that reports an error.
    Error,
}

/// What the server does when a browser connects.
pub enum OpenDecision {
    /// Send `notice` to the browser, then close the connection with `close`.
    Reject { notice: String, close: CloseReason },
    /// Set up a WebRTC session to receive the stream.
    SetUpWebRtc,
}

/// The notice sent to a browser that connects to an endpoint where a stream
/// is already published.
pub open spec fn already_active_notice() -> Seq<char> {
    "{\"msg\":\"there is already an active stream at this endpoint\"}"@
}

/// A message whose SDP part the server accepts: where it names a type, the
/// type is `answer` and the SDP is a string.
pub open spec fn sdp_part_ok(msg: Json) -> bool {
    msg.member("type"@) is Some ==> {
        &&& msg.at("type"@).text() == Some("answer"@)
        &&& msg.at("sdp"@).text() is Some
    }
}

/// A message whose ICE part the server accepts: the candidate is a string
/// and its media line index a non-negative integer.
pub open spec fn ice_part_ok(msg: Json) -> bool {
    &&& msg.at("ice"@).at("candidate"@).text() is Some
    &&& msg.at("ice"@).at("sdpMLineIndex"@).unsigned() is Some
}

/// What the server does with the SDP part of a message: nothing where the
/// message names no type, else set the answer as the remote description.
pub open spec fn spec_ws_on_sdp(msg: Json) -> Option<SignalActionView> {
    if msg.member("type"@) is None {
        None
    } else {
        Some(SignalActionView::SetRemoteAnswer { sdp: msg.at("sdp"@).text()->0 })
    }
}

/// What the server does with the ICE part of a message: add the candidate,
/// for the media line given by the low 32 bits of the index.
pub open spec fn spec_ws_on_ice(msg: Json) -> SignalActionView {
    SignalActionView::AddIceCandidate {
        mline_index: msg.at("ice"@).at("sdpMLineIndex"@).unsigned()->0 as u32,
        candidate: msg.at("ice"@).at("candidate"@).text()->0,
    }
}

/// A message that the server can handle on a connection: a message with an
/// SDP or an ICE part needs a WebRTC session and an acceptable part.
pub open spec fn message_ok(webrtc_ready: bool, msg: Json) -> bool {
    &&& msg.member("sdp"@) is Some ==> webrtc_ready && sdp_part_ok(msg)
    &&& msg.member("ice"@) is Some ==> webrtc_ready && ice_part_ok(msg)
}

/// What the server does on a message: first its SDP part, then its ICE part.
pub open spec fn spec_on_message(msg: Json) -> Seq<SignalActionView> {
    let sdp_actions = if msg.member("sdp"@) is Some {
        match spec_ws_on_sdp(msg) {
            Some(a) => seq![a],
            None => Seq::empty(),
        }
    } else {
        Seq::empty()
    };
    let ice_actions = if msg.member("ice"@) is Some {
        seq![spec_ws_on_ice(msg)]
    } else {
        Seq::empty()
    };
    sdp_actions + ice_actions
}

/// The text of the string member `key` of `msg`, where it is one.
fn member_text(msg: &Json, key: &str) -> (r: Option<String>)
    ensures
        match r {
            Some(s) => msg.at(key@).text() == Some(s@),
            None => msg.at(key@).text() is None,
        },
{
    match msg.get(key) {
        Some(v) => match v.as_str() {
            Some(s) => Some(s.clone()),
            None => None,
        },
        None => None,
    }
}

/// Whether the server accepts the SDP part of `msg`.
pub fn sdp_part_accepted(msg: &Json) -> (r: bool)
    ensures
        r == sdp_part_ok(*msg),
{
    msg.get("type").is_none() || (match member_text(msg, "type") {
        Some(t) => same_text(t.as_str(), "answer"),
        None => false,
    } && member_text(msg, "sdp").is_some())
}

/// Whether the server accepts the ICE part of `msg`.
pub fn ice_part_accepted(msg: &Json) -> (r: bool)
    ensures
        r == ice_part_ok(*msg),
{
    match msg.get("ice") {
        Some(ice) => member_text(ice, "candidate").is_some() && match ice.get("sdpMLineIndex") {
            Some(v) => v.as_u64().is_some(),
            None => false,
        },
        None => {
            assert(msg.at("ice"@) == Json::Null);
            false
        },
    }
}

/// Handles the SDP part of a message.
pub fn ws_on_sdp(msg: &Json) -> (r: Option<SignalAction>)
    requires
        sdp_part_ok(*msg),
    ensures
        match r {
            Some(a) => spec_ws_on_sdp(*msg) == Some(a@),
            None => spec_ws_on_sdp(*msg) is None,
        },
{
    if msg.get("type").is_none() {
        return None;
    }
    match member_text(msg, "sdp") {
        Some(sdp) => Some(SignalAction::SetRemoteAnswer { sdp }),
        None => None,
    }
}

/// Handles the ICE part of a message.
pub fn ws_on_ice(msg: &Json) -> (r: SignalAction)
    requires
        ice_part_ok(*msg),
    ensures
        r@ == spec_ws_on_ice(*msg),
{
    let ice = match msg.get("ice") {
        Some(v) => v,
        None => {
            assert(false);
            return SignalAction::AddIceCandidate { mline_index: 0, candidate: String::new() };
        },
    };
    let candidate = member_text(ice, "candidate");
    let index = match ice.get("sdpMLineIndex") {
        Some(v) => v.as_u64(),
        None => None,
    };
    match (candidate, index) {
        (Some(candidate), Some(n)) => SignalAction::AddIceCandidate {
            mline_index: n as u32,
            candidate,
        },
        _ => {
            assert(false);
            SignalAction::AddIceCandidate { mline_index: 0, candidate: String::new() }
        },
    }
}

/// The signalling state of one WebSocket connection.
pub struct WsConnInner {
    /// The endpoint path that the browser connected to.
    pub path: String,
    /// Whether the WebRTC session of the connection is set up.
    pub webrtc_ready: bool,
}

impl WsConnInner {
    /// A new connection: no path yet, no WebRTC session.
    pub fn new() -> (r: Self)
        ensures
            r.path@ == Seq::<char>::empty(),
            !r.webrtc_ready,
    {
        WsConnInner { path: String::new(), webrtc_ready: false }
    }

    /// The browser connected to `resource`: it becomes the connection's path.
    /// A second stream at a path where one is published is refused.
    pub fn on_open<T>(&mut self, resource: String, stream_map: &StreamMap<T>) -> (r: OpenDecision)
        ensures
            final(self).path@ == resource@,
            final(self).webrtc_ready == old(self).webrtc_ready,
            match r {
                OpenDecision::Reject { notice, close } => {
                    &&& stream_map@.contains_key(resource@)
                    &&& notice@ == already_active_notice()
                    &&& close == CloseReason::Error
                },
                OpenDecision::SetUpWebRtc => !stream_map@.contains_key(resource@),
            },
    {
        self.path = resource;
        if stream_map.contains_key(self.path.as_str()) {
            let notice = "{\"msg\":\"there is already an active stream at this endpoint\"}".to_owned();
            OpenDecision::Reject { notice, close: CloseReason::Error }
        } else {
            OpenDecision::SetUpWebRtc
        }
    }

    /// Publishes the connection's stream: registers fresh buses under its path.
    pub fn add_conn<T>(&self, stream_map: &mut StreamMap<T>) -> (r: AVBus<T>)
        ensures
            final(stream_map)@ == published(old(stream_map)@, self.path@, r),
    {
        stream_map.add_conn(self.path.clone())
    }

    /// The WebRTC setup ended: on success the session is live; on failure the
    /// connection is closed normally.
    pub fn finish_setup(&mut self, outcome: &Result<(), Error>) -> (r: Option<CloseReason>)
        ensures
            final(self).path == old(self).path,
            outcome is Ok ==> final(self).webrtc_ready && r is None,
            outcome is Err ==> final(self).webrtc_ready == old(self).webrtc_ready && r == Some(
                CloseReason::Normal,
            ),
    {
        match outcome {
            Ok(()) => {
                self.webrtc_ready = true;
                None
            },
            Err(_) => Some(CloseReason::Normal),
        }
    }

    /// Whether the connection can handle `msg`.
    pub fn accepts(&self, msg: &Json) -> (r: bool)
        ensures
            r == message_ok(self.webrtc_ready, *msg),
    {
        let sdp_ok = msg.get("sdp").is_none() || (self.webrtc_ready && sdp_part_accepted(msg));
        let ice_ok = msg.get("ice").is_none() || (self.webrtc_ready && ice_part_accepted(msg));
        sdp_ok && ice_ok
    }

    /// Handles a message from the browser.
    pub fn on_message(&self, msg: &Json) -> (r: Vec<SignalAction>)
        requires
            message_ok(self.webrtc_ready, *msg),
        ensures
            r@.map_values(|a: SignalAction| a@) == spec_on_message(*msg),
    {
        let mut actions: Vec<SignalAction> = Vec::new();
        if msg.get("sdp").is_some() {
            match ws_on_sdp(msg) {
                Some(a) => actions.push(a),
                None => {},
            }
        }
        if msg.get("ice").is_some() {
            actions.push(ws_on_ice(msg));
        }
        assert(actions@.map_values(|a: SignalAction| a@) =~= spec_on_message(*msg));
        actions
    }

    /// The connection closed: its path is withdrawn from the registry.
    pub fn on_close<T>(&self, stream_map: &mut StreamMap<T>)
        ensures
            final(stream_map)@ == withdrawn(old(stream_map)@, self.path@),
    {
        let _ = stream_map.remove(self.path.as_str());
    }
}

} // verus!
