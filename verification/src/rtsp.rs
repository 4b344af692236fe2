use vstd::prelude::*;

use crate::caps::{audio_caps, spec_audio_caps, spec_video_caps, video_caps, Caps, CapsView, VideoType};
use crate::webrtc::MediaKind;

verus! {

/// The transports an RTSP server can offer its clients.
#[derive(Clone, Copy, PartialEq, Eq, Structural)]
pub enum RtspTransport {
    Udp,
    UdpMulticast,
    Tcp,
}

/// One media source of the RTSP pipeline: the name of its source element,
/// the media it plays and the caps it announces.
pub struct RtspSource {
    pub element_name: String,
    pub kind: MediaKind,
    pub caps: Caps,
}

/// What to build to play a published stream over RTSP.
pub struct RtspSetup {
    /// The address the server listens on.
    pub address: String,
    /// The pipeline description of the mount's media.
    pub launch: String,
    /// Whether all clients of the mount share one pipeline.
    pub shared: bool,
    /// The only transport offered to clients.
    pub transport: RtspTransport,
    /// The path of the mount.
    pub mount_path: String,
    /// The path of the published stream that the mount plays.
    pub played_path: String,
    /// The sources of the pipeline, in order.
    pub sources: Vec<RtspSource>,
}

/// The media of each source of the RTSP pipeline: `pay0` plays the video
/// (VP8) and `pay1` the audio.
pub open spec fn rtsp_sources() -> Seq<(Seq<char>, MediaKind, CapsView)> {
    seq![
        ("pay0"@, MediaKind::Video, spec_video_caps(VideoType::VP8)),
        ("pay1"@, MediaKind::Audio, spec_audio_caps()),
    ]
}

/// The pipeline description of the RTSP mount: one application source per
/// medium, named `pay0` and `pay1`.
pub open spec fn rtsp_launch() -> Seq<char> {
    "(\n        appsrc name=pay0 \n        appsrc name=pay1 \n         )"@
}

/// The RTSP server's setup.
pub fn rtsp_setup() -> (r: RtspSetup)
    ensures
        r.address@ == "0.0.0.0"@,
        r.launch@ == rtsp_launch(),
        r.shared,
        r.transport == RtspTransport::Tcp,
        r.mount_path@ == "/test"@,
        r.played_path@ == "/foo"@,
        r.sources@.map_values(|s: RtspSource| (s.element_name@, s.kind, s.caps@)) == rtsp_sources(),
{
    let mut sources: Vec<RtspSource> = Vec::new();
    sources.push(
        RtspSource {
            element_name: "pay0".to_owned(),
            kind: MediaKind::Video,
            caps: video_caps(VideoType::VP8),
        },
    );
    sources.push(
        RtspSource { element_name: "pay1".to_owned(), kind: MediaKind::Audio, caps: audio_caps() },
    );
    let r = RtspSetup {
        address: "0.0.0.0".to_owned(),
        launch: "(\n        appsrc name=pay0 \n        appsrc name=pay1 \n         )".to_owned(),
        shared: true,
        transport: RtspTransport::Tcp,
        mount_path: "/test".to_owned(),
        played_path: "/foo".to_owned(),
        sources,
    };
    assert(r.sources@.map_values(|s: RtspSource| (s.element_name@, s.kind, s.caps@)) =~= rtsp_sources());
    r
}

} // verus!
