use std::sync::Arc;

use rivet::common::{AVBus, StreamMap, BUS_CAPACITY};
use rivet::signalling::{CloseReason, OpenDecision, WsConnInner};

fn same_buses(a: &AVBus<u32>, b: &AVBus<u32>) -> bool {
    Arc::ptr_eq(&a.audio, &b.audio) && Arc::ptr_eq(&a.video, &b.video)
}

#[test]
fn new_registry_is_empty() {
    let m: StreamMap<u32> = StreamMap::new();
    assert!(!m.contains_key("/foo"));
    assert!(m.get("/foo").is_none());
}

#[test]
fn add_conn_then_get_returns_the_same_buses() {
    let mut m: StreamMap<u32> = StreamMap::new();
    let b = m.add_conn("/foo".to_string());
    assert!(m.contains_key("/foo"));
    let g = m.get("/foo").unwrap();
    assert!(same_buses(&b, &g));
}

#[test]
fn published_buses_carry_media_to_readers() {
    let mut m: StreamMap<u32> = StreamMap::new();
    let b = m.add_conn("/foo".to_string());
    let g = m.get("/foo").unwrap();
    let mut rx = g.video.lock().unwrap().add_rx();
    b.video.lock().unwrap().broadcast(7);
    assert_eq!(rx.recv(), Ok(7));
}

#[test]
fn bus_holds_capacity_messages_before_it_is_full() {
    let mut m: StreamMap<u32> = StreamMap::new();
    let b = m.add_conn("/foo".to_string());
    let mut bus = b.audio.lock().unwrap();
    let _rx = bus.add_rx();
    for i in 0..BUS_CAPACITY {
        assert_eq!(bus.try_broadcast(i as u32), Ok(()));
    }
    assert_eq!(bus.try_broadcast(99), Err(99));
}

#[test]
fn add_conn_twice_replaces_the_buses() {
    let mut m: StreamMap<u32> = StreamMap::new();
    let first = m.add_conn("/foo".to_string());
    let second = m.add_conn("/foo".to_string());
    let g = m.get("/foo").unwrap();
    assert!(same_buses(&second, &g));
    assert!(!same_buses(&first, &g));
}

#[test]
fn remove_withdraws_only_that_path() {
    let mut m: StreamMap<u32> = StreamMap::new();
    let a = m.add_conn("/a".to_string());
    let b = m.add_conn("/b".to_string());
    let removed = m.remove("/a").unwrap();
    assert!(same_buses(&a, &removed));
    assert!(!m.contains_key("/a"));
    assert!(same_buses(&b, &m.get("/b").unwrap()));
    assert!(m.remove("/a").is_none());
}

#[test]
fn paths_are_compared_by_text() {
    let mut m: StreamMap<u32> = StreamMap::new();
    m.add_conn("/foo".to_string());
    assert!(!m.contains_key("/foo/"));
    assert!(!m.contains_key("/fo"));
    assert!(!m.contains_key(""));
    assert!(m.contains_key(&String::from("/foo")));
}

#[test]
fn new_connection_has_no_path_and_no_session() {
    let c = WsConnInner::new();
    assert_eq!(c.path, "");
    assert!(!c.webrtc_ready);
}

#[test]
fn open_on_a_free_endpoint_sets_up_webrtc() {
    let m: StreamMap<u32> = StreamMap::new();
    let mut c = WsConnInner::new();
    let d = c.on_open("/foo".to_string(), &m);
    assert!(matches!(d, OpenDecision::SetUpWebRtc));
    assert_eq!(c.path, "/foo");
}

#[test]
fn open_on_a_busy_endpoint_is_rejected() {
    let mut m: StreamMap<u32> = StreamMap::new();
    m.add_conn("/foo".to_string());
    let mut c = WsConnInner::new();
    match c.on_open("/foo".to_string(), &m) {
        OpenDecision::Reject { notice, close } => {
            assert_eq!(notice, "{\"msg\":\"there is already an active stream at this endpoint\"}");
            assert!(close == CloseReason::Error);
        }
        OpenDecision::SetUpWebRtc => panic!("a second stream at a busy endpoint must be refused"),
    }
    assert_eq!(c.path, "/foo");
}

#[test]
fn connection_publishes_and_withdraws_its_path() {
    let mut m: StreamMap<u32> = StreamMap::new();
    let other = m.add_conn("/other".to_string());
    let mut c = WsConnInner::new();
    assert!(matches!(c.on_open("/foo".to_string(), &m), OpenDecision::SetUpWebRtc));
    let b = c.add_conn(&mut m);
    assert!(same_buses(&b, &m.get("/foo").unwrap()));
    assert!(c.finish_setup(&Ok(())).is_none());
    assert!(c.webrtc_ready);
    c.on_close(&mut m);
    assert!(!m.contains_key("/foo"));
    assert!(same_buses(&other, &m.get("/other").unwrap()));
    let mut again = WsConnInner::new();
    assert!(matches!(again.on_open("/foo".to_string(), &m), OpenDecision::SetUpWebRtc));
}

#[test]
fn failed_setup_closes_normally() {
    let mut c = WsConnInner::new();
    let r = c.finish_setup(&Err(rivet::error::Error::Empty));
    assert!(r == Some(CloseReason::Normal));
    assert!(!c.webrtc_ready);
}

#[test]
fn closing_a_rejected_connection_withdraws_the_active_stream() {
    // The rejected connection shares the path of the active stream, and its
    // close withdraws that path.
    let mut m: StreamMap<u32> = StreamMap::new();
    let mut first = WsConnInner::new();
    first.on_open("/foo".to_string(), &m);
    first.add_conn(&mut m);
    let mut second = WsConnInner::new();
    assert!(matches!(second.on_open("/foo".to_string(), &m), OpenDecision::Reject { .. }));
    second.on_close(&mut m);
    assert!(!m.contains_key("/foo"));
}

#[test]
fn error_from_unit_is_empty() {
    let e: rivet::error::Error = ().into();
    assert!(matches!(e, rivet::error::Error::Empty));
}

#[test]
fn audio_and_video_have_buses_of_their_own() {
    let mut m: StreamMap<u32> = StreamMap::new();
    let b = m.add_conn("/foo".to_string());
    assert!(!Arc::ptr_eq(&b.audio, &b.video));
    let other = m.add_conn("/bar".to_string());
    assert!(!Arc::ptr_eq(&b.video, &other.video));
}
