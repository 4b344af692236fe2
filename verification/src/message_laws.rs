use vstd::prelude::*;

use crate::caps::{spec_audio_caps, spec_video_caps, CapsValueView, VideoType};
use crate::common::{lemma_map_of, map_of};
use crate::json::Json;
use crate::signalling::{
    ice_part_ok, message_ok, sdp_part_ok, spec_on_message, spec_ws_on_ice, spec_ws_on_sdp,
    SignalActionView,
};

verus! {

/// The text of the member `key` of `j`, where it is a string.
pub open spec fn string_member(j: Json, key: Seq<char>) -> Option<Seq<char>> {
    match j.member(key) {
        Some(v) => v.text(),
        None => None,
    }
}

/// The value of the member `key` of `j`, where it is a non-negative integer.
pub open spec fn unsigned_member(j: Json, key: Seq<char>) -> Option<u64> {
    match j.member(key) {
        Some(v) => v.unsigned(),
        None => None,
    }
}

/// An answer sets the whole SDP it carries: for any message whose `type`
/// member is the string `answer` and whose `sdp` member is a string `sdp`,
/// the SDP part is accepted, and the remote description set is exactly
/// `sdp`, every character of it; on a connection with a WebRTC session, a
/// message without an ICE part does exactly that and nothing else.
pub proof fn law_answer_sets_whole_sdp(msg: Json, sdp: Seq<char>)
    requires
        string_member(msg, "type"@) == Some("answer"@),
        string_member(msg, "sdp"@) == Some(sdp),
    ensures
        sdp_part_ok(msg),
        spec_ws_on_sdp(msg) == Some(SignalActionView::SetRemoteAnswer { sdp }),
        msg.member("ice"@) is None ==> {
            &&& message_ok(true, msg)
            &&& spec_on_message(msg) == seq![SignalActionView::SetRemoteAnswer { sdp }]
        },
{
    if msg.member("ice"@) is None {
        assert(spec_on_message(msg) =~= seq![SignalActionView::SetRemoteAnswer { sdp }]);
    }
}

/// The SDP part of a message is accepted exactly when the message names no
/// type, or names the string type `answer` and carries a string SDP, whatever
/// that string holds.
pub proof fn law_sdp_acceptance(msg: Json)
    ensures
        sdp_part_ok(msg) <==> (msg.member("type"@) is None || (string_member(msg, "type"@) == Some(
            "answer"@) && string_member(msg, "sdp"@) is Some)),
{
}

/// The low 32 bits of an unsigned integer, as a number.
pub open spec fn low_32_bits(n: u64) -> int {
    n as int % 0x1_0000_0000
}

/// A candidate is added for the media line that the message names: for any
/// message whose `ice` member has a string `candidate` and a non-negative
/// integer `sdpMLineIndex` (whatever other members the objects hold), the ICE
/// part is accepted, and the candidate added is exactly that string, for the
/// media line given by the low 32 bits of the index.
pub proof fn law_ice_adds_named_candidate(msg: Json, candidate: Seq<char>, index: u64)
    requires
        string_member(msg.at("ice"@), "candidate"@) == Some(candidate),
        unsigned_member(msg.at("ice"@), "sdpMLineIndex"@) == Some(index),
    ensures
        ice_part_ok(msg),
        spec_ws_on_ice(msg) matches SignalActionView::AddIceCandidate { mline_index, candidate: c } && {
            &&& mline_index as int == low_32_bits(index)
            &&& c == candidate
        },
{
    let n = index;
    assert((n as u32) as u64 == n % 0x1_0000_0000) by (bit_vector);
}

/// The ICE part of a message is accepted exactly when its candidate is a
/// string and its media line index a non-negative integer.
pub proof fn law_ice_acceptance(msg: Json)
    ensures
        ice_part_ok(msg) <==> (string_member(msg.at("ice"@), "candidate"@) is Some && unsigned_member(
            msg.at("ice"@),
            "sdpMLineIndex"@,
        ) is Some),
{
}

/// Adding a member under a key that is not looked up leaves what an object
/// gives for every other key as it was.
proof fn lemma_member_after_push(members: Seq<(String, Json)>, extra: (String, Json), key: Seq<char>)
    requires
        extra.0@ != key,
    ensures
        map_of(members.push(extra)).contains_key(key) == map_of(members).contains_key(key),
        map_of(members).contains_key(key) ==> map_of(members.push(extra))[key] == map_of(members)[key],
{
    assert(members.push(extra).drop_last() =~= members);
}

/// Other members of a candidate object do not matter: where one message's
/// candidate object is another's with one more member under a key other than
/// `candidate` and `sdpMLineIndex` (as a browser adds `sdpMid` and
/// `usernameFragment`), both are accepted or refused alike and both add the
/// same candidate for the same media line.
pub proof fn law_ice_other_members_ignored(
    msg1: Json,
    msg2: Json,
    members: Seq<(String, Json)>,
    extra: (String, Json),
)
    requires
        msg1.at("ice"@) matches Json::Object(m1) && m1@ == members,
        msg2.at("ice"@) matches Json::Object(m2) && m2@ == members.push(extra),
        extra.0@ != "candidate"@,
        extra.0@ != "sdpMLineIndex"@,
    ensures
        ice_part_ok(msg1) == ice_part_ok(msg2),
        ice_part_ok(msg1) ==> spec_ws_on_ice(msg1) == spec_ws_on_ice(msg2),
{
    lemma_member_after_push(members, extra, "candidate"@);
    lemma_member_after_push(members, extra, "sdpMLineIndex"@);
    assert(msg1.at("ice"@).at("candidate"@) == msg2.at("ice"@).at("candidate"@));
    assert(msg1.at("ice"@).at("sdpMLineIndex"@) == msg2.at("ice"@).at("sdpMLineIndex"@));
}

/// Video is clocked at 90 kHz whatever its codec, and the video caps of two
/// codecs differ only in the encoding name; audio is clocked at 48 kHz.
pub proof fn law_video_caps_clock_and_codecs(t1: VideoType, t2: VideoType)
    ensures
        spec_video_caps(t1).fields[3] == ("clock-rate"@, CapsValueView::Int(90000)),
        spec_video_caps(t1).fields[2] == ("payload"@, CapsValueView::Int(96)),
        spec_video_caps(t1).name == spec_video_caps(t2).name,
        spec_video_caps(t1).fields.len() == spec_video_caps(t2).fields.len(),
        forall|i: int|
            0 <= i < spec_video_caps(t1).fields.len() && i != 1 ==> spec_video_caps(t1).fields[i]
                == spec_video_caps(t2).fields[i],
        spec_video_caps(t1).fields[1].0 == spec_video_caps(t2).fields[1].0,
        spec_audio_caps().name == spec_video_caps(t1).name,
        spec_audio_caps().fields[2] == ("payload"@, CapsValueView::Int(97)),
        spec_audio_caps().fields[3] == ("clock-rate"@, CapsValueView::Int(48000)),
{
}

/// An SDP part that names no type is ignored: it is accepted and sets
/// nothing.
pub proof fn law_untyped_sdp_ignored(msg: Json)
    requires
        msg.member("type"@) is None,
    ensures
        sdp_part_ok(msg),
        spec_ws_on_sdp(msg) is None,
{
}

/// A message with an answer and a candidate is handled answer first: the
/// remote description is set to its SDP, then its candidate is added for the
/// media line given by the low 32 bits of its index.
pub proof fn law_answer_before_candidate(msg: Json, sdp: Seq<char>, candidate: Seq<char>, index: u64)
    requires
        string_member(msg, "type"@) == Some("answer"@),
        string_member(msg, "sdp"@) == Some(sdp),
        string_member(msg.at("ice"@), "candidate"@) == Some(candidate),
        unsigned_member(msg.at("ice"@), "sdpMLineIndex"@) == Some(index),
        (msg.member("ice"@) is Some),
    ensures
        message_ok(true, msg),
        spec_on_message(msg).len() == 2,
        spec_on_message(msg)[0] == (SignalActionView::SetRemoteAnswer { sdp }),
        (spec_on_message(msg)[1] matches SignalActionView::AddIceCandidate { mline_index, candidate: c }
            && mline_index as int == low_32_bits(index) && c == candidate),
{
    law_answer_sets_whole_sdp(msg, sdp);
    law_ice_adds_named_candidate(msg, candidate, index);
}

} // verus!
