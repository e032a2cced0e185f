use echo_service::server_timing::ServerTimingService;
use echo_service::text::header_text;
use echo_service::{format_entry, merge_timing, HeaderEncodingError, ServerTimingLayer};

#[test]
fn service_name() {
    let name = "svc1";
    let obj = ServerTimingLayer::new(name);
    assert_eq!(obj.app, name);
}

#[test]
fn service_desc() {
    let name = "svc1";
    let desc = "desc1";
    let obj = ServerTimingLayer::new(name).with_description(desc);
    assert_eq!(obj.app, name);
    assert_eq!(obj.description.as_deref(), Some(desc));
}

#[test]
fn with_description_leaves_original_unchanged() {
    let mut layer = ServerTimingLayer::new("svc1");
    let described = layer.with_description("desc1");
    assert_eq!(layer.description, None);
    assert_eq!(described.description.as_deref(), Some("desc1"));
}

#[test]
fn entry_without_description() {
    assert_eq!(format_entry("svc1", None, 100), "svc1;dur=100");
    assert_eq!(format_entry("svc1", None, 0), "svc1;dur=0");
}

#[test]
fn entry_with_description() {
    assert_eq!(format_entry("svc1", Some("desc1"), 42), "svc1;desc=\"desc1\";dur=42");
}

#[test]
fn entry_large_duration() {
    assert_eq!(
        format_entry("a", None, u64::MAX),
        "a;dur=18446744073709551615"
    );
}

#[test]
fn merge_into_existing_header() {
    let r = merge_timing("svc1;dur=100", &[b"inner;dur=23".to_vec()]);
    assert_eq!(r, Ok("svc1;dur=100, inner;dur=23".to_string()));
}

#[test]
fn merge_without_existing_header() {
    assert_eq!(merge_timing("svc1;dur=7", &[]), Ok("svc1;dur=7".to_string()));
}

#[test]
fn merge_rejects_existing_non_text() {
    let r = merge_timing("svc1;dur=7", &[vec![0x69u8, 0x01, 0x6a]]);
    assert_eq!(r, Err(HeaderEncodingError::ExistingNotText));
    let r = merge_timing("svc1;dur=7", &[b"a;dur=1".to_vec(), vec![0xc3u8, 0xa9]]);
    assert_eq!(r, Err(HeaderEncodingError::ExistingNotText));
}

#[test]
fn merge_rejects_invalid_value() {
    let r = merge_timing("svc\n1;dur=7", &[]);
    assert_eq!(r, Err(HeaderEncodingError::InvalidValue));
}

#[test]
fn service_value_keeps_inner_entry() {
    let layer = ServerTimingLayer::new("svc1");
    let svc: ServerTimingService<()> = layer.layer(());
    let v = svc.timing_value(123, &[b"inner;dur=23".to_vec()]).unwrap();
    assert_eq!(v, "svc1;dur=123, inner;dur=23");
    assert!(v.contains("svc1"));
    assert!(v.contains("inner"));
}

#[test]
fn service_value_with_description() {
    let layer = ServerTimingLayer::new("svc1").with_description("desc1");
    let svc = layer.layer(5u8);
    assert_eq!(svc.service, 5u8);
    assert_eq!(svc.timing_value(100, &[]), Ok("svc1;desc=\"desc1\";dur=100".to_string()));
}

#[test]
fn header_text_of_bytes() {
    assert_eq!(header_text(b"Bearer abc\tx"), Some("Bearer abc\tx".to_string()));
    assert_eq!(header_text(&[0x41, 0x7f]), None);
    assert_eq!(header_text(b""), Some(String::new()));
}

#[test]
fn merge_keeps_every_existing_value() {
    let r = merge_timing(
        "svc1;dur=5",
        &[b"inner;dur=23".to_vec(), b"db;dur=2".to_vec()],
    );
    assert_eq!(r, Ok("svc1;dur=5, inner;dur=23, db;dur=2".to_string()));
}
