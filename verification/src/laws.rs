use vstd::prelude::*;

use crate::common::{lookup, published, withdrawn, AVBus};
use crate::common::{keys_unique, lemma_map_of, map_of};
use crate::json::Json;
use crate::json_text::{
    decimal, json_escape, json_quoted, lemma_decimal_injective, lemma_escape_plain,
    lemma_escape_self_delimiting, member_text, members_text, object_text, plain_char,
};
use crate::signalling::{message_ok, spec_on_message, SignalActionView};
use crate::webrtc::{ice_message_object, ice_message_text, media_caps, offer_message_text, pad_kind, receive_caps};

verus! {

/// A stream published at a path is found there: `get` at `path` after
/// `add_conn` at `path` gives the buses that `add_conn` handed out.
pub proof fn law_published_stream_is_found<T>(
    registry: Map<Seq<char>, AVBus<T>>,
    path: Seq<char>,
    buses: AVBus<T>,
)
    ensures
        lookup(published(registry, path, buses), path) == Some(buses),
{
}

/// Endpoints are independent: publishing or withdrawing the stream at one
/// path leaves what `get` finds at every other path as it was.
pub proof fn law_endpoints_independent<T>(
    registry: Map<Seq<char>, AVBus<T>>,
    path: Seq<char>,
    other: Seq<char>,
    buses: AVBus<T>,
)
    requires
        path != other,
    ensures
        lookup(published(registry, path, buses), other) == lookup(registry, other),
        lookup(withdrawn(registry, path), other) == lookup(registry, other),
{
}

/// A withdrawn stream is gone: `get` at `path` after `remove` (or the close
/// of the connection at `path`) finds nothing.
pub proof fn law_withdrawn_stream_is_gone<T>(registry: Map<Seq<char>, AVBus<T>>, path: Seq<char>)
    ensures
        lookup(withdrawn(registry, path), path) is None,
{
}

/// Closing the connection that published a stream undoes the publication:
/// the registry is as it was, less the path; where the path was free, it is
/// exactly as it was.
pub proof fn law_close_undoes_publish<T>(
    registry: Map<Seq<char>, AVBus<T>>,
    path: Seq<char>,
    buses: AVBus<T>,
)
    ensures
        withdrawn(published(registry, path, buses), path) == withdrawn(registry, path),
        lookup(registry, path) is None ==> withdrawn(published(registry, path, buses), path) == registry,
{
    assert(registry.insert(path, buses).remove(path) =~= registry.remove(path));
    if !registry.contains_key(path) {
        assert(registry.remove(path) =~= registry);
    }
}

/// The receiving pad `src_<i>` of the WebRTC element carries the media of
/// its `i`-th transceiver, so the sink behind it gets that transceiver's caps.
pub proof fn law_pads_follow_transceivers()
    ensures
        forall|i: nat|
            #![trigger decimal(i)]
            i < receive_caps().len() ==> {
                &&& pad_kind("src_"@ + decimal(i)) is Some
                &&& media_caps(pad_kind("src_"@ + decimal(i))->0) == receive_caps()[i as int]
            },
{
    reveal_strlit("src_");
    reveal_strlit("src_0");
    reveal_strlit("src_1");
    assert("src_"@ + decimal(0) =~= "src_0"@);
    assert("src_"@ + decimal(1) =~= "src_1"@);
    assert("src_1"@ != "src_0"@) by {
        assert("src_1"@[4] != "src_0"@[4]);
    }
    assert forall|i: nat| #![trigger decimal(i)] i < receive_caps().len() implies {
        &&& pad_kind("src_"@ + decimal(i)) is Some
        &&& media_caps(pad_kind("src_"@ + decimal(i))->0) == receive_caps()[i as int]
    } by {
        if i == 0 {
        } else {
            assert(i == 1);
        }
    }
}

/// Distinct SDP texts make distinct offer messages.
pub proof fn law_offer_message_determines_sdp(sdp1: Seq<char>, sdp2: Seq<char>)
    requires
        offer_message_text(sdp1) == offer_message_text(sdp2),
    ensures
        sdp1 == sdp2,
{
    let p = "{\"sdp\":"@;
    let tail = ",\"type\":\"offer\"}"@;
    let m = offer_message_text(sdp1);
    let start = p.len() + 1;
    assert(m.subrange(start as int, m.len() as int) =~= json_escape(sdp1) + seq!['"'] + tail);
    assert(offer_message_text(sdp2).subrange(start as int, m.len() as int) =~= json_escape(sdp2)
        + seq!['"'] + tail);
    lemma_escape_self_delimiting(sdp1, sdp2, tail, tail);
}

/// Distinct candidates or media line indexes make distinct ICE candidate
/// messages.
pub proof fn law_ice_message_determines_candidate(
    candidate1: Seq<char>,
    mline_index1: u32,
    candidate2: Seq<char>,
    mline_index2: u32,
)
    requires
        ice_message_text(candidate1, mline_index1) == ice_message_text(candidate2, mline_index2),
    ensures
        candidate1 == candidate2,
        mline_index1 == mline_index2,
{
    let p = "{\"ice\":{\"candidate\":"@;
    let middle = ",\"sdpMLineIndex\":"@;
    let end = "}}"@;
    let r1 = middle + decimal(mline_index1 as nat) + end;
    let r2 = middle + decimal(mline_index2 as nat) + end;
    let m = ice_message_text(candidate1, mline_index1);
    let start = p.len() + 1;
    assert(m.subrange(start as int, m.len() as int) =~= json_escape(candidate1) + seq!['"'] + r1);
    assert(ice_message_text(candidate2, mline_index2).subrange(start as int, m.len() as int)
        =~= json_escape(candidate2) + seq!['"'] + r2);
    lemma_escape_self_delimiting(candidate1, candidate2, r1, r2);
    let d1 = decimal(mline_index1 as nat);
    let d2 = decimal(mline_index2 as nat);
    assert(d1.len() == d2.len());
    assert(d1 =~= r1.subrange(middle.len() as int, (middle.len() + d1.len()) as int));
    assert(d2 =~= r2.subrange(middle.len() as int, (middle.len() + d2.len()) as int));
    lemma_decimal_injective(mline_index1 as nat, mline_index2 as nat);
}

/// A key made of plain characters is quoted as it is.
proof fn lemma_quoted_plain(key: Seq<char>)
    requires
        forall|i: int| 0 <= i < key.len() ==> plain_char(#[trigger] key[i]),
    ensures
        json_quoted(key) == seq!['"'] + key + seq!['"'],
{
    lemma_escape_plain(key);
}

/// The ICE candidate message is the compact JSON text of the object
/// `{"ice":{"candidate":<candidate>,"sdpMLineIndex":<index>}}`, and that
/// object, once read, is handled by adding exactly that candidate for
/// exactly that media line. Turning the text into the object is the work of
/// the JSON reader, which is not part of this library.
pub proof fn law_ice_message_round_trip(candidate: Seq<char>, mline_index: u32, msg: Json)
    ensures
        ice_message_text(candidate, mline_index) == object_text(
            seq![
                ("ice"@, object_text(
                    seq![
                        ("candidate"@, json_quoted(candidate)),
                        ("sdpMLineIndex"@, decimal(mline_index as nat)),
                    ],
                )),
            ],
        ),
        ice_message_object(msg, candidate, mline_index) ==> {
            &&& message_ok(true, msg)
            &&& spec_on_message(msg) == seq![
                SignalActionView::AddIceCandidate { mline_index, candidate },
            ]
        },
{
    reveal_strlit("ice");
    reveal_strlit("candidate");
    reveal_strlit("sdpMLineIndex");
    reveal_strlit("sdp");
    reveal_strlit("{\"ice\":{\"candidate\":");
    reveal_strlit(",\"sdpMLineIndex\":");
    reveal_strlit("}}");
    lemma_quoted_plain("ice"@);
    lemma_quoted_plain("candidate"@);
    lemma_quoted_plain("sdpMLineIndex"@);
    let inner_members = seq![
        ("candidate"@, json_quoted(candidate)),
        ("sdpMLineIndex"@, decimal(mline_index as nat)),
    ];
    assert(inner_members.drop_last() =~= seq![("candidate"@, json_quoted(candidate))]);
    let q = json_quoted(candidate);
    let d = decimal(mline_index as nat);
    assert("{\"ice\":{\"candidate\":"@ =~= seq!['{'] + json_quoted("ice"@) + seq![':'] + seq!['{']
        + json_quoted("candidate"@) + seq![':']);
    assert(",\"sdpMLineIndex\":"@ =~= seq![','] + json_quoted("sdpMLineIndex"@) + seq![':']);
    assert("}}"@ =~= seq!['}'] + seq!['}']);
    let first = seq![("candidate"@, q)];
    assert(members_text(first) == member_text(("candidate"@, q)));
    assert(members_text(inner_members) == member_text(
        ("candidate"@, q),
    ) + seq![','] + member_text(("sdpMLineIndex"@, d)));
    let inner_text = object_text(inner_members);
    assert(members_text(seq![("ice"@, inner_text)])
        == member_text(("ice"@, inner_text)));
    assert(ice_message_text(candidate, mline_index) =~= object_text(
        seq![("ice"@, object_text(inner_members))],
    ));
    if ice_message_object(msg, candidate, mline_index) {
        let outer = msg->Object_0@;
        let ice = outer[0].1;
        let inner = ice->Object_0@;
        lemma_map_of(outer);
        lemma_map_of(inner);
        assert(keys_unique(outer));
        assert(inner[0].0@ != inner[1].0@) by {
            assert(inner[0].0@.len() != inner[1].0@.len());
        }
        assert(keys_unique(inner));
        assert(map_of(outer)[outer[0].0@] == ice);
        assert(msg.member("ice"@) == Some(ice));
        assert(!map_of(outer).contains_key("sdp"@)) by {
            assert("sdp"@[0] != "ice"@[0]);
        }
        assert(msg.member("sdp"@) is None);
        assert(map_of(inner)[inner[0].0@] == inner[0].1);
        assert(map_of(inner)[inner[1].0@] == inner[1].1);
        assert(ice.at("candidate"@) == inner[0].1);
        assert(ice.at("sdpMLineIndex"@) == inner[1].1);
        assert((mline_index as u64) as u32 == mline_index);
        assert(spec_on_message(msg) =~= seq![
            SignalActionView::AddIceCandidate { mline_index, candidate },
        ]);
    }
}

/// The offer message is the compact JSON text of the object
/// `{"sdp":<sdp>,"type":"offer"}`.
pub proof fn law_offer_message_is_json_object(sdp: Seq<char>)
    ensures
        offer_message_text(sdp) == object_text(
            seq![("sdp"@, json_quoted(sdp)), ("type"@, json_quoted("offer"@))],
        ),
{
    reveal_strlit("sdp");
    reveal_strlit("type");
    reveal_strlit("offer");
    reveal_strlit("{\"sdp\":");
    reveal_strlit(",\"type\":\"offer\"}");
    lemma_quoted_plain("sdp"@);
    lemma_quoted_plain("type"@);
    lemma_quoted_plain("offer"@);
    let q = json_quoted(sdp);
    let members = seq![("sdp"@, q), ("type"@, json_quoted("offer"@))];
    assert(members.drop_last() =~= seq![("sdp"@, q)]);
    assert(members_text(seq![("sdp"@, q)]) == member_text(("sdp"@, q)));
    assert(members_text(members) == member_text(("sdp"@, q)) + seq![','] + member_text(
        ("type"@, json_quoted("offer"@)),
    ));
    assert("{\"sdp\":"@ =~= seq!['{'] + json_quoted("sdp"@) + seq![':']);
    assert(",\"type\":\"offer\"}"@ =~= seq![','] + json_quoted("type"@) + seq![':'] + json_quoted(
        "offer"@,
    ) + seq!['}']);
    assert(offer_message_text(sdp) =~= object_text(members));
}

} // verus!
