use rivet::json::{Json, JsonNumber};
use rivet::signalling::{ice_part_accepted, sdp_part_accepted, ws_on_ice, ws_on_sdp, SignalAction, WsConnInner};
use rivet::webrtc::ice_candidate_message;

fn obj(members: Vec<(&str, Json)>) -> Json {
    Json::Object(members.into_iter().map(|(k, v)| (k.to_string(), v)).collect())
}

fn s(text: &str) -> Json {
    Json::Str(text.to_string())
}

fn live() -> WsConnInner {
    let mut c = WsConnInner::new();
    c.finish_setup(&Ok(()));
    c
}

fn ice(candidate: Json, index: Json) -> Json {
    obj(vec![("ice", obj(vec![("candidate", candidate), ("sdpMLineIndex", index)]))])
}

#[test]
fn get_finds_members_of_objects_only() {
    let m = obj(vec![("a", Json::Null), ("b", s("x"))]);
    assert!(matches!(m.get("a"), Some(Json::Null)));
    assert_eq!(m.get("b").unwrap().as_str().unwrap(), "x");
    assert!(m.get("c").is_none());
    assert!(s("a").get("a").is_none());
    assert!(Json::Array(vec![]).get("a").is_none());
}

#[test]
fn get_takes_the_last_of_repeated_keys() {
    let m = obj(vec![("k", s("first")), ("k", s("last"))]);
    assert_eq!(m.get("k").unwrap().as_str().unwrap(), "last");
}

#[test]
fn as_u64_reads_non_negative_integers_only() {
    assert_eq!(Json::Number(JsonNumber::PosInt(5)).as_u64(), Some(5));
    assert_eq!(Json::Number(JsonNumber::NegInt(-5)).as_u64(), None);
    assert_eq!(Json::Number(JsonNumber::Float).as_u64(), None);
    assert_eq!(s("5").as_u64(), None);
}

#[test]
fn sdp_answer_sets_the_remote_description() {
    let msg = obj(vec![("sdp", s("v=0\r\n")), ("type", s("answer"))]);
    match ws_on_sdp(&msg) {
        Some(SignalAction::SetRemoteAnswer { sdp }) => assert_eq!(sdp, "v=0\r\n"),
        _ => panic!("expected an answer"),
    }
}

#[test]
fn sdp_without_type_is_ignored() {
    let msg = obj(vec![("sdp", s("v=0"))]);
    assert!(ws_on_sdp(&msg).is_none());
    let actions = live().on_message(&msg);
    assert!(actions.is_empty());
}

#[test]
fn ice_candidate_is_added() {
    let msg = ice(s("candidate:1 1 UDP 2 10.0.0.1 5000 typ host"), Json::Number(JsonNumber::PosInt(1)));
    match ws_on_ice(&msg) {
        SignalAction::AddIceCandidate { mline_index, candidate } => {
            assert_eq!(mline_index, 1);
            assert_eq!(candidate, "candidate:1 1 UDP 2 10.0.0.1 5000 typ host");
        }
        _ => panic!("expected a candidate"),
    }
}

#[test]
fn ice_index_keeps_its_low_32_bits() {
    let msg = ice(s("c"), Json::Number(JsonNumber::PosInt((1u64 << 32) + 3)));
    match ws_on_ice(&msg) {
        SignalAction::AddIceCandidate { mline_index, .. } => assert_eq!(mline_index, 3),
        _ => panic!("expected a candidate"),
    }
}

#[test]
fn message_with_sdp_and_ice_is_handled_sdp_first() {
    let msg = obj(vec![
        ("ice", obj(vec![("candidate", s("c")), ("sdpMLineIndex", Json::Number(JsonNumber::PosInt(0)))])),
        ("sdp", s("v=0")),
        ("type", s("answer")),
    ]);
    let c = live();
    assert!(c.accepts(&msg));
    let actions = c.on_message(&msg);
    assert_eq!(actions.len(), 2);
    assert!(matches!(&actions[0], SignalAction::SetRemoteAnswer { sdp } if sdp == "v=0"));
    assert!(matches!(&actions[1], SignalAction::AddIceCandidate { mline_index: 0, candidate } if candidate == "c"));
}

#[test]
fn unrelated_message_does_nothing() {
    let msg = obj(vec![("hello", s("world"))]);
    let c = WsConnInner::new();
    assert!(c.accepts(&msg));
    assert!(c.on_message(&msg).is_empty());
}

#[test]
fn messages_needing_a_session_are_refused_without_one() {
    let c = WsConnInner::new();
    assert!(!c.accepts(&obj(vec![("sdp", s("v=0"))])));
    assert!(!c.accepts(&ice(s("c"), Json::Number(JsonNumber::PosInt(0)))));
}

#[test]
fn offers_and_malformed_parts_are_refused() {
    let c = live();
    assert!(!c.accepts(&obj(vec![("sdp", s("v=0")), ("type", s("offer"))])));
    assert!(!c.accepts(&obj(vec![("sdp", Json::Null), ("type", s("answer"))])));
    assert!(c.accepts(&obj(vec![("sdp", Json::Null)])));
    assert!(!c.accepts(&ice(Json::Null, Json::Number(JsonNumber::PosInt(0)))));
    assert!(!c.accepts(&ice(s("c"), Json::Number(JsonNumber::NegInt(-1)))));
    assert!(!c.accepts(&obj(vec![("ice", s("c"))])));
}

fn from_serde(value: serde_json::Value) -> Json {
    match value {
        serde_json::Value::Null => Json::Null,
        serde_json::Value::Bool(b) => Json::Bool(b),
        serde_json::Value::Number(n) => Json::Number(match (n.as_u64(), n.as_i64()) {
            (Some(u), _) => JsonNumber::PosInt(u),
            (None, Some(i)) => JsonNumber::NegInt(i),
            (None, None) => JsonNumber::Float,
        }),
        serde_json::Value::String(s) => Json::Str(s),
        serde_json::Value::Array(items) => Json::Array(items.into_iter().map(from_serde).collect()),
        serde_json::Value::Object(members) => {
            Json::Object(members.into_iter().map(|(k, v)| (k, from_serde(v))).collect())
        }
    }
}

#[test]
fn sent_ice_message_read_back_adds_the_same_candidate() {
    for (candidate, index) in [("candidate:1 1 UDP 2 10.0.0.1 5000 typ host", 0u32), ("a\"b\\c\n", 4294967295u32)] {
        let text = ice_candidate_message(candidate, index);
        let msg = from_serde(serde_json::from_str(&text).unwrap());
        let c = live();
        assert!(c.accepts(&msg));
        let actions = c.on_message(&msg);
        assert_eq!(actions.len(), 1);
        match &actions[0] {
            SignalAction::AddIceCandidate { mline_index, candidate: got } => {
                assert_eq!(*mline_index, index);
                assert_eq!(got, candidate);
            }
            _ => panic!("expected a candidate"),
        }
    }
}

#[test]
fn part_checks() {
    assert!(sdp_part_accepted(&obj(vec![("sdp", s("v=0"))])));
    assert!(sdp_part_accepted(&obj(vec![("sdp", s("v=0")), ("type", s("answer"))])));
    assert!(!sdp_part_accepted(&obj(vec![("sdp", s("v=0")), ("type", s("offer"))])));
    assert!(!sdp_part_accepted(&obj(vec![("type", s("answer"))])));
    assert!(ice_part_accepted(&ice(s("c"), Json::Number(JsonNumber::PosInt(2)))));
    assert!(!ice_part_accepted(&ice(s("c"), Json::Number(JsonNumber::Float))));
    assert!(!ice_part_accepted(&obj(vec![])));
}
