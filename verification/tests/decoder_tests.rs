use podpingd::decoder::{decode_operation, CustomJsonOp, DecodeOutcome, PodpingError};
use podpingd::podping::Podping;

fn op(id: &str, json: &str) -> CustomJsonOp {
    CustomJsonOp {
        id: id.as_bytes().to_vec(),
        json: json.as_bytes().to_vec(),
        required_posting_auths: vec![b"podping.aaa".to_vec()],
    }
}

fn expect_podpings(outcome: DecodeOutcome) -> Vec<Podping> {
    match outcome {
        DecodeOutcome::Podpings(ps) => ps,
        DecodeOutcome::Invalid(e) => panic!("rejected: {:?}", e),
        DecodeOutcome::NotPodping => panic!("not recognized as podping"),
    }
}

#[test]
fn unknown_id_is_silently_dropped() {
    let o = op("follow", r#"{"version":"1.1"}"#);
    assert!(matches!(decode_operation(&o), DecodeOutcome::NotPodping));
}

#[test]
fn recognizes_podping_and_pp_ids() {
    let body = r#"{"version":"1.0","medium":"podcast","reason":"update","iris":["https://example.org/feed"]}"#;
    assert!(matches!(decode_operation(&op("podping", body)), DecodeOutcome::Podpings(_)));
    assert!(matches!(decode_operation(&op("pp_podcast_update", body)), DecodeOutcome::Podpings(_)));
}

#[test]
fn malformed_json_is_decode_error() {
    let o = op("podping", "{not json");
    assert!(matches!(
        decode_operation(&o),
        DecodeOutcome::Invalid(PodpingError::DecodeError)
    ));
}

#[test]
fn unknown_schema_is_schema_error() {
    let o = op("podping", r#"{"version":"9.9","what":"ever"}"#);
    assert!(matches!(
        decode_operation(&o),
        DecodeOutcome::Invalid(PodpingError::SchemaError)
    ));
}

#[test]
fn decodes_v0() {
    let ps = expect_podpings(decode_operation(&op(
        "podping",
        r#"{"url":"https://example.org/feed.xml"}"#,
    )));
    assert_eq!(ps.len(), 1);
    assert!(matches!(ps[0], Podping::V0 { .. }));
}

#[test]
fn decodes_v02() {
    let ps = expect_podpings(decode_operation(&op(
        "podping",
        r#"{"version":"0.2","urls":["https://example.org/feed.xml"]}"#,
    )));
    assert_eq!(ps.len(), 1);
    assert!(matches!(ps[0], Podping::V02 { .. }));
}

#[test]
fn decodes_v03() {
    let ps = expect_podpings(decode_operation(&op(
        "podping",
        r#"{"version":"0.3","urls":["https://example.org/feed.xml"]}"#,
    )));
    assert_eq!(ps.len(), 1);
    assert!(matches!(ps[0], Podping::V03 { .. }));
}

#[test]
fn decodes_v10() {
    let ps = expect_podpings(decode_operation(&op(
        "pp_podcast_update",
        r#"{"version":"1.0","medium":"podcast","reason":"update","iris":["https://example.org/feed"]}"#,
    )));
    assert_eq!(ps.len(), 1);
    assert!(matches!(ps[0], Podping::V10 { .. }));
}

#[test]
fn decodes_v11_with_session_and_timestamp() {
    let ps = expect_podpings(decode_operation(&op(
        "pp_podcast_update",
        r#"{"version":"1.1","medium":"podcast","reason":"update","iris":["https://example.org/feed"],"session_id":"abc","timestamp_ns":123}"#,
    )));
    assert_eq!(ps.len(), 1);
    match &ps[0] {
        Podping::V11 { session_id, timestamp_ns, payload } => {
            assert_eq!(session_id, &b"abc".to_vec());
            assert_eq!(*timestamp_ns, 123);
            assert!(!payload.is_empty());
        }
        other => panic!("wrong variant: {:?}", other),
    }
}

#[test]
fn v11_missing_session_falls_out_as_schema_error() {
    let o = op(
        "pp_podcast_update",
        r#"{"version":"1.1","medium":"podcast","reason":"update","iris":["https://example.org/feed"]}"#,
    );
    assert!(matches!(
        decode_operation(&o),
        DecodeOutcome::Invalid(PodpingError::SchemaError)
    ));
}

#[test]
fn flattens_batched_podpings() {
    let ps = expect_podpings(decode_operation(&op(
        "podping",
        r#"[{"version":"0.3","urls":["https://a.example/f"]},{"version":"0.3","urls":["https://b.example/f"]}]"#,
    )));
    assert_eq!(ps.len(), 2);
    assert!(matches!(ps[0], Podping::V03 { .. }));
    assert!(matches!(ps[1], Podping::V03 { .. }));
}

#[test]
fn one_bad_element_fails_the_whole_batch() {
    let o = op(
        "podping",
        r#"[{"version":"0.3","urls":["https://a.example/f"]},{"version":"9.9"}]"#,
    );
    assert!(matches!(
        decode_operation(&o),
        DecodeOutcome::Invalid(PodpingError::SchemaError)
    ));
}

#[test]
fn payload_is_canonical_serialization() {
    let ps = expect_podpings(decode_operation(&op(
        "podping",
        r#"{"url":"https://example.org/feed.xml"}"#,
    )));
    match &ps[0] {
        Podping::V0 { payload } => {
            let v: serde_json::Value = serde_json::from_slice(payload).unwrap();
            assert_eq!(
                v.get("url").and_then(|u| u.as_str()),
                Some("https://example.org/feed.xml")
            );
        }
        other => panic!("wrong variant: {:?}", other),
    }
}
