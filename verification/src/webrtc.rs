use vstd::prelude::*;
use vstd::string::StringExecFns;

use crate::caps::{audio_caps, spec_audio_caps, spec_video_caps, video_caps, Caps, CapsView, VideoType};
use crate::json::{same_text, Json};
use crate::json_text::{decimal, json_quoted, json_string_text, json_u32_text};

verus! {

/// The offer message sent to the browser: `{"sdp":<sdp>,"type":"offer"}`,
/// with the members in key order.
pub open spec fn offer_message_text(sdp: Seq<char>) -> Seq<char> {
    "{\"sdp\":"@ + json_quoted(sdp) + ",\"type\":\"offer\"}"@
}

/// The message that hands a local ICE candidate to the browser:
/// `{"ice":{"candidate":<candidate>,"sdpMLineIndex":<index>}}`.
pub open spec fn ice_message_text(candidate: Seq<char>, mline_index: u32) -> Seq<char> {
    "{\"ice\":{\"candidate\":"@ + json_quoted(candidate) + ",\"sdpMLineIndex\":"@ + decimal(
        mline_index as nat,
    ) + "}}"@
}

/// `msg` is the JSON object `{"ice":{"candidate":<candidate>,"sdpMLineIndex":<index>}}`,
/// members in that order: the object whose text an ICE candidate message is.
pub open spec fn ice_message_object(msg: Json, candidate: Seq<char>, mline_index: u32) -> bool {
    match msg {
        Json::Object(outer) => {
            &&& outer@.len() == 1
            &&& outer@[0].0@ == "ice"@
            &&& match outer@[0].1 {
                Json::Object(inner) => {
                    &&& inner@.len() == 2
                    &&& inner@[0].0@ == "candidate"@
                    &&& inner@[0].1.text() == Some(candidate)
                    &&& inner@[1].0@ == "sdpMLineIndex"@
                    &&& inner@[1].1.unsigned() == Some(mline_index as u64)
                },
                _ => false,
            }
        },
        _ => false,
    }
}

/// Frames the SDP text of a local offer as the offer message.
pub fn offer_message(sdp_text: &str) -> (r: String)
    ensures
        r@ == offer_message_text(sdp_text@),
{
    let quoted = json_string_text(sdp_text);
    let r = "{\"sdp\":".to_owned().concat(quoted.as_str()).concat(",\"type\":\"offer\"}");
    r
}

/// Frames a local ICE candidate of media line `mline_index` as a message.
pub fn ice_candidate_message(candidate: &str, mline_index: u32) -> (r: String)
    ensures
        r@ == ice_message_text(candidate@, mline_index),
{
    let quoted = json_string_text(candidate);
    let index = json_u32_text(mline_index);
    "{\"ice\":{\"candidate\":".to_owned().concat(quoted.as_str()).concat(
        ",\"sdpMLineIndex\":",
    ).concat(index.as_str()).concat("}}")
}

/// The attribute added to every local offer before it is sent: the H.264
/// format parameters of payload type 96.
pub fn offer_fmtp_attribute() -> (r: (String, String))
    ensures
        r.0@ == "fmtp"@,
        r.1@ == "96 profile-level-id=42e00a;packetization-mode=1"@,
{
    ("fmtp".to_owned(), "96 profile-level-id=42e00a;packetization-mode=1".to_owned())
}

/// The two kinds of media that a published stream carries.
#[derive(Clone, Copy, PartialEq, Eq, Structural)]
pub enum MediaKind {
    Video,
    Audio,
}

/// The media that arrives on a receiving pad of the WebRTC element: its
/// pads are named after the transceivers, video first.
pub open spec fn pad_kind(pad_name: Seq<char>) -> Option<MediaKind> {
    if pad_name == "src_0"@ {
        Some(MediaKind::Video)
    } else if pad_name == "src_1"@ {
        Some(MediaKind::Audio)
    } else {
        None
    }
}

/// The caps of the media of each kind that a stream receives.
pub open spec fn media_caps(kind: MediaKind) -> CapsView {
    match kind {
        MediaKind::Video => spec_video_caps(VideoType::H264),
        MediaKind::Audio => spec_audio_caps(),
    }
}

/// The transceivers of the WebRTC element, in the order they are added:
/// receive-only, video then audio.
pub open spec fn receive_caps() -> Seq<CapsView> {
    seq![media_caps(MediaKind::Video), media_caps(MediaKind::Audio)]
}

/// Whether a pad of the WebRTC element carries received media.
pub fn is_media_pad(pad_name: &str) -> (r: bool)
    ensures
        r == pad_kind(pad_name@) is Some,
{
    same_text(pad_name, "src_0") || same_text(pad_name, "src_1")
}

/// Which media a receiving pad carries, and the caps its sink takes.
pub fn route_pad(pad_name: &str) -> (r: (MediaKind, Caps))
    requires
        pad_kind(pad_name@) is Some,
    ensures
        pad_kind(pad_name@) == Some(r.0),
        r.1@ == media_caps(r.0),
{
    if same_text(pad_name, "src_0") {
        (MediaKind::Video, video_caps(VideoType::H264))
    } else {
        (MediaKind::Audio, audio_caps())
    }
}

/// The direction of a WebRTC transceiver, as the local end sees it.
#[derive(Clone, Copy, PartialEq, Eq, Structural)]
pub enum TransceiverDirection {
    SendRecv,
    SendOnly,
    RecvOnly,
    Inactive,
}

/// One transceiver of the WebRTC element.
pub struct Transceiver {
    pub direction: TransceiverDirection,
    pub caps: Caps,
}

/// What to build to receive a stream published at a path.
pub struct WebRtcSetup {
    /// The name of the pipeline that holds the WebRTC element.
    pub pipeline_name: String,
    /// The element factory of the WebRTC element.
    pub element_factory: String,
    /// The name of the WebRTC element.
    pub element_name: String,
    /// The STUN server the element uses.
    pub stun_server: String,
    /// Its transceivers, in the order they are added.
    pub transceivers: Vec<Transceiver>,
}

/// The setup for a stream published at `path`.
pub fn webrtc_setup(path: &str) -> (r: WebRtcSetup)
    ensures
        r.pipeline_name@ == "pipeline"@ + path@,
        r.element_factory@ == "webrtcbin"@,
        r.element_name@ == "webrtcsource"@,
        r.stun_server@ == "stun://stun.l.google.com:19302"@,
        r.transceivers@.map_values(|t: Transceiver| t.caps@) == receive_caps(),
        forall|i: int|
            0 <= i < r.transceivers@.len() ==> (#[trigger] r.transceivers@[i]).direction
                == TransceiverDirection::RecvOnly,
{
    let mut transceivers: Vec<Transceiver> = Vec::new();
    transceivers.push(
        Transceiver { direction: TransceiverDirection::RecvOnly, caps: video_caps(VideoType::H264) },
    );
    transceivers.push(Transceiver { direction: TransceiverDirection::RecvOnly, caps: audio_caps() });
    let r = WebRtcSetup {
        pipeline_name: "pipeline".to_owned().concat(path),
        element_factory: "webrtcbin".to_owned(),
        element_name: "webrtcsource".to_owned(),
        stun_server: "stun://stun.l.google.com:19302".to_owned(),
        transceivers,
    };
    assert(r.transceivers@.map_values(|t: Transceiver| t.caps@) =~= receive_caps());
    r
}

} // verus!
