use vstd::prelude::*;

verus! {

/// The value of one field of a media description.
pub enum CapsValue {
    Text(String),
    Int(i32),
}

/// A media description: a media type name and its fields, in order.
pub struct Caps {
    pub name: String,
    pub fields: Vec<(String, CapsValue)>,
}

/// The mathematical value of a `CapsValue`.
pub enum CapsValueView {
    Text(Seq<char>),
    Int(int),
}

/// The mathematical value of a `Caps`.
pub struct CapsView {
    pub name: Seq<char>,
    pub fields: Seq<(Seq<char>, CapsValueView)>,
}

impl View for CapsValue {
    type V = CapsValueView;

    open spec fn view(&self) -> CapsValueView {
        match self {
            CapsValue::Text(s) => CapsValueView::Text(s@),
            CapsValue::Int(n) => CapsValueView::Int(*n as int),
        }
    }
}

impl View for Caps {
    type V = CapsView;

    open spec fn view(&self) -> CapsView {
        CapsView {
            name: self.name@,
            fields: self.fields@.map_values(|f: (String, CapsValue)| (f.0@, f.1@)),
        }
    }
}

/// The video codecs that a stream can carry.
#[derive(Clone, Copy, PartialEq, Eq, Structural)]
pub enum VideoType {
    H264,
    VP8,
}

/// The encoding name of a video codec in RTP caps.
pub open spec fn video_encoding_name(video_type: VideoType) -> Seq<char> {
    match video_type {
        VideoType::H264 => "H264"@,
        VideoType::VP8 => "VP8"@,
    }
}

/// RTP video: payload type 96 at a 90 kHz clock.
pub open spec fn spec_video_caps(video_type: VideoType) -> CapsView {
    CapsView {
        name: "application/x-rtp"@,
        fields: seq![
            ("media"@, CapsValueView::Text("video"@)),
            ("encoding-name"@, CapsValueView::Text(video_encoding_name(video_type))),
            ("payload"@, CapsValueView::Int(96)),
            ("clock-rate"@, CapsValueView::Int(90000)),
        ],
    }
}

/// RTP audio: two-channel Opus, payload type 97 at a 48 kHz clock.
pub open spec fn spec_audio_caps() -> CapsView {
    CapsView {
        name: "application/x-rtp"@,
        fields: seq![
            ("media"@, CapsValueView::Text("audio"@)),
            ("encoding-name"@, CapsValueView::Text("OPUS"@)),
            ("payload"@, CapsValueView::Int(97)),
            ("clock-rate"@, CapsValueView::Int(48000)),
            ("encoding-params"@, CapsValueView::Text("2"@)),
        ],
    }
}

fn text_field(key: &str, value: &str) -> (r: (String, CapsValue))
    ensures
        r.0@ == key@,
        r.1@ == CapsValueView::Text(value@),
{
    (key.to_owned(), CapsValue::Text(value.to_owned()))
}

fn int_field(key: &str, value: i32) -> (r: (String, CapsValue))
    ensures
        r.0@ == key@,
        r.1@ == CapsValueView::Int(value as int),
{
    (key.to_owned(), CapsValue::Int(value))
}

/// The caps of the video that a stream carries.
pub fn video_caps(video_type: VideoType) -> (r: Caps)
    ensures
        r@ == spec_video_caps(video_type),
{
    let encoding = match video_type {
        VideoType::H264 => "H264",
        VideoType::VP8 => "VP8",
    };
    let mut fields: Vec<(String, CapsValue)> = Vec::new();
    fields.push(text_field("media", "video"));
    fields.push(text_field("encoding-name", encoding));
    fields.push(int_field("payload", 96));
    fields.push(int_field("clock-rate", 90000));
    let r = Caps { name: "application/x-rtp".to_owned(), fields };
    assert(r@.fields =~= spec_video_caps(video_type).fields);
    r
}

/// The caps of the audio that a stream carries.
pub fn audio_caps() -> (r: Caps)
    ensures
        r@ == spec_audio_caps(),
{
    let mut fields: Vec<(String, CapsValue)> = Vec::new();
    fields.push(text_field("media", "audio"));
    fields.push(text_field("encoding-name", "OPUS"));
    fields.push(int_field("payload", 97));
    fields.push(int_field("clock-rate", 48000));
    fields.push(text_field("encoding-params", "2"));
    let r = Caps { name: "application/x-rtp".to_owned(), fields };
    assert(r@.fields =~= spec_audio_caps().fields);
    r
}

} // verus!
