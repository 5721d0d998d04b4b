use sync_core::HostState;
use sync_core::engine::{payload_read_slice, payload_write_at, response_read_slice, select_entry_point, vault_gate, EntryPoint};
use sync_core::crypto::{decode_payload_base64, encode_payload_base64};

#[test]
fn test_host_allowed() {
    let state = HostState::new(
        "/test.sync".to_string(),
        vec!["api.example.com".to_string(), "*.internal.local".to_string()],
        30,
    );

    assert!(state.is_host_allowed("https://api.example.com/path"));
    assert!(state.is_host_allowed("http://sub.internal.local:8080/"));
    assert!(!state.is_host_allowed("https://evil.com/"));
    assert!(!state.is_host_allowed("https://other.example.com/"));
}

#[test]
fn empty_allowlist_admits_nothing() {
    let state = HostState::new("/t.sync".to_string(), Vec::new(), 30);
    assert!(!state.is_host_allowed("https://api.example.com/"));
}

#[test]
fn payload_reads_clamp_to_the_buffer() {
    let payload: Vec<u8> = b"abcdefgh".to_vec();
    assert_eq!(payload_read_slice(&payload, 0, 3), b"abc".to_vec());
    assert_eq!(payload_read_slice(&payload, 5, 100), b"fgh".to_vec());
    assert_eq!(payload_read_slice(&payload, 8, 4), Vec::<u8>::new());
    assert_eq!(payload_read_slice(&payload, 100, 4), Vec::<u8>::new());
}

#[test]
fn payload_writes_extend_with_zeroes() {
    let mut buf: Option<Vec<u8>> = None;
    let wrote = payload_write_at(&mut buf, 2, &b"xy".to_vec());
    assert_eq!(wrote, 2);
    assert_eq!(buf.as_deref(), Some(&[0u8, 0, b'x', b'y'][..]));

    let wrote = payload_write_at(&mut buf, 1, &b"AB".to_vec());
    assert_eq!(wrote, 2);
    assert_eq!(buf.as_deref(), Some(&[0u8, b'A', b'B', b'y'][..]));

    let wrote = payload_write_at(&mut buf, 3, &b"CDE".to_vec());
    assert_eq!(wrote, 3);
    assert_eq!(buf.as_deref(), Some(&[0u8, b'A', b'B', b'C', b'D', b'E'][..]));
}

#[test]
fn response_reads_clamp_to_guest_buffer() {
    let resp = b"response body".to_vec();
    assert_eq!(response_read_slice(&resp, 4), b"resp".to_vec());
    assert_eq!(response_read_slice(&resp, 100), b"response body".to_vec());
}

#[test]
fn entry_point_prefers_run() {
    assert_eq!(select_entry_point(true, true), Some(EntryPoint::Run));
    assert_eq!(select_entry_point(true, false), Some(EntryPoint::Run));
    assert_eq!(select_entry_point(false, true), Some(EntryPoint::Start));
    assert_eq!(select_entry_point(false, false), None);
}

#[test]
fn vaults_require_a_password() {
    assert!(!vault_gate(true, false));
    assert!(vault_gate(true, true));
    assert!(vault_gate(false, false));
}

#[test]
fn payload_base64_round_trips() {
    let data = b"\x00\x01binary payload\xff".to_vec();
    let encoded = encode_payload_base64(&data);
    assert_eq!(encoded, base64::Engine::encode(&base64::engine::general_purpose::STANDARD, &data));
    assert_eq!(decode_payload_base64(&encoded), Some(data));
    assert_eq!(decode_payload_base64("not base64!!"), None);
}
