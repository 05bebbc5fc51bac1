use std::sync::mpsc::channel;
use std::time::Duration;

use jidori_kun::server::{check_url, HttpState, StartPlan};
use jidori_kun::{CaptureBridge, Settings};

#[test]
fn server_starts_stops_and_restarts_on_the_same_socket() {
    let mut st: HttpState<u32> = HttpState::new();
    assert!(!st.running());
    assert_eq!(st.begin_start("0.0.0.0:8790"), StartPlan::Bind { retired: None });
    st.bound("0.0.0.0:8790".to_string(), 1);
    assert!(st.running());
    st.stop();
    assert!(!st.running());
    assert_eq!(st.handle(), Some(&1));
    assert_eq!(st.begin_start("0.0.0.0:8790"), StartPlan::Reuse);
    assert!(st.running());
    assert_eq!(st.handle(), Some(&1));
}

#[test]
fn new_address_retires_the_old_server() {
    let mut st: HttpState<u32> = HttpState::new();
    st.begin_start("0.0.0.0:8790");
    st.bound("0.0.0.0:8790".to_string(), 1);
    assert_eq!(st.begin_start("127.0.0.1:9000"), StartPlan::Bind { retired: Some(1) });
    assert!(!st.running());
    assert_eq!(st.handle(), None);
    st.bound("127.0.0.1:9000".to_string(), 2);
    assert!(st.running());
    assert_eq!(st.handle(), Some(&2));
}

#[test]
fn stop_without_server_is_harmless() {
    let mut st: HttpState<u32> = HttpState::new();
    st.stop();
    assert!(!st.running());
}

#[test]
fn only_web_urls_open() {
    assert_eq!(check_url("https://github.com/yatmita/jidori-kun/releases"), Ok(()));
    assert_eq!(check_url("http://example.com"), Ok(()));
    assert_eq!(check_url("file:///etc/passwd"), Err("invalid url".to_string()));
    assert_eq!(check_url("javascript:alert(1)"), Err("invalid url".to_string()));
    assert_eq!(check_url("HTTP://example.com"), Err("invalid url".to_string()));
}

#[test]
fn default_settings() {
    let s = Settings::default();
    assert!(!s.http_enabled);
    assert_eq!(s.port, 8790);
    assert_eq!(s.token, "");
    assert!(s.lan);
}

#[test]
fn addresses_and_urls() {
    let mut s = Settings::default();
    assert_eq!(s.bind_address(), "0.0.0.0:8790");
    assert_eq!(s.endpoint_url(Some("192.168.1.20".to_string())), "http://192.168.1.20:8790/mcp");
    assert_eq!(s.endpoint_url(None), "http://127.0.0.1:8790/mcp");
    s.lan = false;
    s.port = 9000;
    assert_eq!(s.bind_address(), "127.0.0.1:9000");
    assert_eq!(s.endpoint_url(Some("192.168.1.20".to_string())), "http://127.0.0.1:9000/mcp");
    assert_eq!(s.bind_error("address in use"), "ポート 9000 を開けませんでした: address in use");
}

#[test]
fn capture_requests_get_consecutive_ids() {
    let mut b = CaptureBridge::new();
    let (tx1, _rx1) = channel::<String>();
    let (tx2, _rx2) = channel::<String>();
    assert_eq!(b.register(tx1), 1);
    assert_eq!(b.register(tx2), 2);
}

#[test]
fn fulfill_hands_the_frame_to_its_waiter_once() {
    let mut b = CaptureBridge::new();
    let (tx, rx) = channel::<String>();
    let id = b.register(tx);
    let (waiter, frame) = b.fulfill(id, "data:image/png;base64,QUJD".to_string()).unwrap();
    assert_eq!(frame, "data:image/png;base64,QUJD");
    waiter.send(frame).unwrap();
    assert_eq!(rx.try_recv().unwrap(), "data:image/png;base64,QUJD");
    assert!(b.fulfill(id, "again".to_string()).is_none());
    assert!(b.fulfill(99, "nobody".to_string()).is_none());
}

#[test]
fn readiness_ends_waiting() {
    let mut b = CaptureBridge::new();
    let t = Duration::from_secs(20);
    assert_eq!(b.wait_ready(t), Some(t));
    b.mark_ready();
    assert_eq!(b.wait_ready(t), None);
    let (tx, _rx) = channel::<String>();
    b.register(tx);
    assert_eq!(b.wait_ready(t), None);
}
