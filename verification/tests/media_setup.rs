use rivet::caps::{audio_caps, video_caps, Caps, CapsValue, VideoType};
use rivet::webrtc::{
    ice_candidate_message, is_media_pad, offer_fmtp_attribute, offer_message, route_pad, webrtc_setup,
    MediaKind, TransceiverDirection,
};
use rivet::rtsp::{rtsp_setup, RtspTransport};

fn field<'a>(caps: &'a Caps, i: usize) -> (&'a str, &'a CapsValue) {
    (caps.fields[i].0.as_str(), &caps.fields[i].1)
}

fn text(v: &CapsValue) -> Option<&str> {
    match v {
        CapsValue::Text(s) => Some(s.as_str()),
        CapsValue::Int(_) => None,
    }
}

fn int_value(v: &CapsValue) -> Option<i32> {
    match v {
        CapsValue::Int(n) => Some(*n),
        CapsValue::Text(_) => None,
    }
}

#[test]
fn vp8_video_caps() {
    let c = video_caps(VideoType::VP8);
    assert_eq!(c.name, "application/x-rtp");
    assert_eq!(c.fields.len(), 4);
    assert_eq!(field(&c, 0).0, "media");
    assert_eq!(text(field(&c, 0).1), Some("video"));
    assert_eq!(field(&c, 1).0, "encoding-name");
    assert_eq!(text(field(&c, 1).1), Some("VP8"));
    assert_eq!(field(&c, 2).0, "payload");
    assert_eq!(int_value(field(&c, 2).1), Some(96));
    assert_eq!(field(&c, 3).0, "clock-rate");
    assert_eq!(int_value(field(&c, 3).1), Some(90_000));
}

#[test]
fn h264_video_caps() {
    let c = video_caps(VideoType::H264);
    assert_eq!(text(field(&c, 1).1), Some("H264"));
    assert_eq!(int_value(field(&c, 2).1), Some(96));
}

#[test]
fn opus_audio_caps() {
    let c = audio_caps();
    assert_eq!(c.name, "application/x-rtp");
    assert_eq!(c.fields.len(), 5);
    assert_eq!(text(field(&c, 0).1), Some("audio"));
    assert_eq!(text(field(&c, 1).1), Some("OPUS"));
    assert_eq!(int_value(field(&c, 2).1), Some(97));
    assert_eq!(int_value(field(&c, 3).1), Some(48_000));
    assert_eq!(field(&c, 4).0, "encoding-params");
    assert_eq!(text(field(&c, 4).1), Some("2"));
}

#[test]
fn offer_message_frames_the_sdp() {
    assert_eq!(offer_message("v=0"), "{\"sdp\":\"v=0\",\"type\":\"offer\"}");
}

#[test]
fn offer_message_escapes_the_sdp() {
    assert_eq!(
        offer_message("v=0\r\na=\"x\"\\\t\u{1}é"),
        "{\"sdp\":\"v=0\\r\\na=\\\"x\\\"\\\\\\t\\u0001é\",\"type\":\"offer\"}"
    );
    assert_eq!(offer_message("\u{8}\u{c}\u{1f}"), "{\"sdp\":\"\\b\\f\\u001f\",\"type\":\"offer\"}");
}

#[test]
fn offer_message_is_valid_json() {
    let m = offer_message("v=0\r\n\"quoted\"");
    let v: serde_json::Value = serde_json::from_str(&m).unwrap();
    assert_eq!(v["type"], "offer");
    assert_eq!(v["sdp"], "v=0\r\n\"quoted\"");
}

#[test]
fn ice_message_frames_the_candidate() {
    assert_eq!(
        ice_candidate_message("candidate:0 1 UDP 1 1.2.3.4 9 typ host", 1),
        "{\"ice\":{\"candidate\":\"candidate:0 1 UDP 1 1.2.3.4 9 typ host\",\"sdpMLineIndex\":1}}"
    );
    assert_eq!(
        ice_candidate_message("a\"b", 4294967295),
        "{\"ice\":{\"candidate\":\"a\\\"b\",\"sdpMLineIndex\":4294967295}}"
    );
    assert_eq!(ice_candidate_message("", 0), "{\"ice\":{\"candidate\":\"\",\"sdpMLineIndex\":0}}");
}

#[test]
fn fmtp_attribute_of_offers() {
    let (k, v) = offer_fmtp_attribute();
    assert_eq!(k, "fmtp");
    assert_eq!(v, "96 profile-level-id=42e00a;packetization-mode=1");
}

#[test]
fn setup_of_a_stream() {
    let s = webrtc_setup("/foo");
    assert_eq!(s.pipeline_name, "pipeline/foo");
    assert_eq!(s.element_factory, "webrtcbin");
    assert_eq!(s.element_name, "webrtcsource");
    assert_eq!(s.stun_server, "stun://stun.l.google.com:19302");
    assert_eq!(s.transceivers.len(), 2);
    assert_eq!(text(field(&s.transceivers[0].caps, 1).1), Some("H264"));
    assert_eq!(text(field(&s.transceivers[1].caps, 1).1), Some("OPUS"));
}

#[test]
fn pads_route_to_their_transceivers_media() {
    assert!(is_media_pad("src_0"));
    assert!(is_media_pad("src_1"));
    assert!(!is_media_pad("src_2"));
    assert!(!is_media_pad("sink_0"));
    let setup = webrtc_setup("/x");
    let (kind0, caps0) = route_pad("src_0");
    assert!(kind0 == MediaKind::Video);
    assert_eq!(text(field(&caps0, 1).1), text(field(&setup.transceivers[0].caps, 1).1));
    let (kind1, caps1) = route_pad("src_1");
    assert!(kind1 == MediaKind::Audio);
    assert_eq!(text(field(&caps1, 1).1), text(field(&setup.transceivers[1].caps, 1).1));
}

#[test]
fn ice_message_is_valid_json() {
    let m = ice_candidate_message("candidate:\"x\"\n", 7);
    let v: serde_json::Value = serde_json::from_str(&m).unwrap();
    assert_eq!(v["ice"]["candidate"], "candidate:\"x\"\n");
    assert_eq!(v["ice"]["sdpMLineIndex"].as_u64(), Some(7));
}

#[test]
fn transceivers_only_receive() {
    let s = webrtc_setup("/foo");
    assert!(s.transceivers.iter().all(|t| t.direction == TransceiverDirection::RecvOnly));
}

#[test]
fn rtsp_mount_setup() {
    let s = rtsp_setup();
    assert_eq!(s.address, "0.0.0.0");
    assert_eq!(s.launch, "(\n        appsrc name=pay0 \n        appsrc name=pay1 \n         )");
    assert!(s.shared);
    assert!(s.transport == RtspTransport::Tcp);
    assert_eq!(s.mount_path, "/test");
    assert_eq!(s.played_path, "/foo");
    assert_eq!(s.sources.len(), 2);
    assert_eq!(s.sources[0].element_name, "pay0");
    assert!(s.sources[0].kind == MediaKind::Video);
    assert_eq!(text(field(&s.sources[0].caps, 1).1), Some("VP8"));
    assert_eq!(s.sources[1].element_name, "pay1");
    assert!(s.sources[1].kind == MediaKind::Audio);
    assert_eq!(text(field(&s.sources[1].caps, 1).1), Some("OPUS"));
}
