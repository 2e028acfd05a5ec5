use mcp_web_search::transport::{SseSessionManager, SseTransportConfig};

#[test]
fn transport_defaults() {
    let c = SseTransportConfig::default();
    assert_eq!(c.host, "127.0.0.1");
    assert_eq!(c.port, 3000);
}

#[test]
fn sessions_open_and_close() {
    let mut m = SseSessionManager::new();
    assert_eq!(m.session_count(), 0);
    let a = m.create_session();
    let b = m.create_session();
    assert_eq!(a.len(), 36);
    assert_eq!(&a[8..9], "-");
    assert_ne!(a, b);
    assert_eq!(m.session_count(), 2);
    m.remove_session(&a);
    assert_eq!(m.session_count(), 1);
    m.remove_session("unknown");
    assert_eq!(m.session_count(), 1);
    m.remove_session(&b);
    assert_eq!(m.session_count(), 0);
}

#[test]
fn session_ids_are_lower_case_hex() {
    let mut m = SseSessionManager::new();
    let id = m.create_session();
    for (i, c) in id.chars().enumerate() {
        if i == 8 || i == 13 || i == 18 || i == 23 {
            assert_eq!(c, '-');
        } else {
            assert!(c.is_ascii_digit() || ('a'..='f').contains(&c));
        }
    }
}
