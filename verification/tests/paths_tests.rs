use podpingd::paths::{block_dir, last_updated_block_filename, podping_file_name, podping_path};
use podpingd::podping::{Podping, Timestamp};

fn ts(year: u32, month: u32, day: u32, hour: u32, minute: u32, second: u32) -> Timestamp {
    Timestamp { year, month, day, hour, minute, second }
}

#[test]
fn watermark_filename_is_fixed() {
    assert_eq!(last_updated_block_filename(), b"last_updated_block".to_vec());
}

#[test]
fn calendar_directory_has_unpadded_fields() {
    let dir = block_dir(&ts(2024, 6, 7, 8, 9, 10));
    assert_eq!(dir, b"2024/6/7/8/9/10".to_vec());
}

#[test]
fn older_variant_filename_uses_index() {
    let p = Podping::V03 { payload: b"{}".to_vec() };
    let name = podping_file_name(777, &b"deadbeef".to_vec(), 2, &p);
    assert_eq!(name, b"777_deadbeef_2.json".to_vec());
}

#[test]
fn v11_filename_uses_session_and_timestamp() {
    let p = Podping::V11 {
        session_id: b"abc".to_vec(),
        timestamp_ns: 123,
        payload: b"{}".to_vec(),
    };
    let name = podping_file_name(777, &b"deadbeef".to_vec(), 0, &p);
    assert_eq!(name, b"777_deadbeef_abc_123.json".to_vec());
}

#[test]
fn full_path_for_v11_block() {
    // One V11 podping at block 777, timestamp 2024-06-07T08:09:10Z.
    let p = Podping::V11 {
        session_id: b"abc".to_vec(),
        timestamp_ns: 123,
        payload: b"{}".to_vec(),
    };
    let path = podping_path(&ts(2024, 6, 7, 8, 9, 10), 777, &b"deadbeef".to_vec(), 0, &p);
    assert_eq!(path, b"2024/6/7/8/9/10/777_deadbeef_abc_123.json".to_vec());
}

#[test]
fn each_variant_gets_its_own_filename() {
    let tx = b"aa00".to_vec();
    let cases: Vec<(Podping, &[u8])> = vec![
        (Podping::V0 { payload: b"{}".to_vec() }, b"9_aa00_1.json"),
        (Podping::V02 { payload: b"{}".to_vec() }, b"9_aa00_1.json"),
        (Podping::V03 { payload: b"{}".to_vec() }, b"9_aa00_1.json"),
        (Podping::V10 { payload: b"{}".to_vec() }, b"9_aa00_1.json"),
        (
            Podping::V11 { session_id: b"s".to_vec(), timestamp_ns: 5, payload: b"{}".to_vec() },
            b"9_aa00_s_5.json",
        ),
    ];
    for (p, expected) in cases {
        assert_eq!(podping_file_name(9, &tx, 1, &p), expected.to_vec());
    }
}
