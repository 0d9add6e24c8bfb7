use podpingd::config::{
    choose_writer, persistence_warnings, validate_disk, validate_object_storage, InitError,
    UrlStyle, WriterChoice, WriterSettings, WriterType,
};
use podpingd::console::{console_last_block, console_line};
use podpingd::plan::{block_put_plan, ContentType};
use podpingd::podping::{BlockTransaction, HiveBlockWithNum, Podping, Timestamp};
use podpingd::status::{classify_put_object, GetObjectError, PutObjectError};
use podpingd::watermark::{read_watermark, WriterState};
use podpingd::writer_steps::{
    batch_last_block, batch_step, process_block, streaming_step, BatchAction, BatchRecvOutcome,
    RecvOutcome, StreamAction,
};

fn ts(year: u32, month: u32, day: u32, hour: u32, minute: u32, second: u32) -> Timestamp {
    Timestamp { year, month, day, hour, minute, second }
}

fn v03_block(block_num: u64) -> HiveBlockWithNum {
    HiveBlockWithNum {
        block_num,
        timestamp: ts(2024, 6, 7, 8, 9, 10),
        transactions: vec![BlockTransaction {
            tx_id: b"deadbeef".to_vec(),
            podpings: vec![Podping::V03 { payload: br#"{"version":"0.3"}"#.to_vec() }],
        }],
    }
}

#[test]
fn watermark_values_written_are_strictly_increasing() {
    let mut w = WriterState::new(Some(10));
    let mut written: Vec<u64> = vec![10];
    for n in [11u64, 11, 5, 12, 12, 100] {
        if w.record_block(n) {
            written.push(n);
        }
    }
    assert_eq!(written, vec![10, 11, 12, 100]);
    for pair in written.windows(2) {
        assert!(pair[0] < pair[1]);
    }
    assert_eq!(w.watermark, Some(100));
}

#[test]
fn empty_block_still_advances_watermark() {
    let block = HiveBlockWithNum {
        block_num: 55,
        timestamp: ts(2024, 1, 2, 3, 4, 5),
        transactions: vec![],
    };
    let mut w = WriterState::new(Some(54));
    let (plan, wrote) = process_block(&mut w, &block);
    assert!(plan.is_empty());
    assert!(wrote);
    assert_eq!(w.watermark, Some(55));
}

#[test]
fn replaying_a_block_is_idempotent() {
    let block = v03_block(777);
    let mut w = WriterState::new(None);
    let (plan1, wrote1) = process_block(&mut w, &block);
    assert!(wrote1);
    assert_eq!(w.watermark, Some(777));
    let (plan2, wrote2) = process_block(&mut w, &block);
    assert!(!wrote2);
    assert_eq!(w.watermark, Some(777));
    assert_eq!(plan1.len(), plan2.len());
    for (a, b) in plan1.iter().zip(plan2.iter()) {
        assert_eq!(a.path, b.path);
        assert_eq!(a.body, b.body);
        assert_eq!(a.content_type, b.content_type);
    }
}

#[test]
fn put_plan_targets_variant_paths_with_json_bodies() {
    let plan = block_put_plan(&v03_block(777));
    assert_eq!(plan.len(), 1);
    assert_eq!(plan[0].path, b"2024/6/7/8/9/10/777_deadbeef_0.json".to_vec());
    assert_eq!(plan[0].body, br#"{"version":"0.3"}"#.to_vec());
    assert_eq!(plan[0].content_type, ContentType::ApplicationJson);
}

#[test]
fn lag_is_warned_and_tolerated_then_writing_resumes() {
    match streaming_step(RecvOutcome::Lagged(7)) {
        StreamAction::WarnLag(n) => assert_eq!(n, 7),
        other_action => panic!("lag must only warn, got {}", describe_stream(&other_action)),
    }
    // After the lag the writer state is untouched and later blocks persist.
    let mut w = WriterState::new(Some(100));
    let (_, wrote) = process_block(&mut w, &v03_block(150));
    assert!(wrote);
    assert_eq!(w.watermark, Some(150));
}

fn describe_stream(a: &StreamAction) -> &'static str {
    match a {
        StreamAction::Persist(_) => "persist",
        StreamAction::WarnLag(_) => "warn-lag",
        StreamAction::FatalChannelClosed => "fatal-channel-closed",
    }
}

#[test]
fn channel_closure_is_fatal_streaming_clean_batched() {
    assert!(matches!(
        streaming_step(RecvOutcome::Closed),
        StreamAction::FatalChannelClosed
    ));
    assert!(matches!(batch_step(BatchRecvOutcome::Closed), BatchAction::Shutdown));
    assert!(matches!(
        batch_step(BatchRecvOutcome::Lagged(3)),
        BatchAction::WarnLag(3)
    ));
}

#[test]
fn batch_watermark_is_last_block() {
    let blocks = vec![v03_block(5), v03_block(6), v03_block(9)];
    assert_eq!(batch_last_block(&blocks), Some(9));
    assert_eq!(batch_last_block(&vec![]), None);
}

#[test]
fn put_status_codes_map_to_their_errors() {
    assert_eq!(classify_put_object(Some(200)), Ok(()));
    assert_eq!(classify_put_object(Some(404)), Err(PutObjectError::NotFound));
    assert_eq!(classify_put_object(Some(403)), Err(PutObjectError::AccessDenied));
    assert_eq!(classify_put_object(Some(400)), Err(PutObjectError::BadRequest));
    assert_eq!(classify_put_object(Some(500)), Err(PutObjectError::UnknownError));
    assert_eq!(classify_put_object(None), Err(PutObjectError::UnknownError));
}

#[test]
fn watermark_read_back_handles_absence_and_errors() {
    assert_eq!(read_watermark(Ok(b"200\n".to_vec())), Ok(Some(200)));
    assert_eq!(read_watermark(Ok(b"garbage".to_vec())), Ok(None));
    assert_eq!(read_watermark(Err(GetObjectError::NotFound)), Ok(None));
    assert_eq!(
        read_watermark(Err(GetObjectError::AccessDenied)),
        Err(GetObjectError::AccessDenied)
    );
}

#[test]
fn console_line_is_one_json_record() {
    let p = Podping::V11 {
        session_id: b"abc".to_vec(),
        timestamp_ns: 123,
        payload: br#"{"version":"1.1"}"#.to_vec(),
    };
    let line = console_line(777, &b"deadbeef".to_vec(), 0, &p);
    assert_eq!(
        line,
        br#"{"block_num":777,"tx_id":"deadbeef","index":0,"variant":"V11","podping":{"version":"1.1"}}"#
            .to_vec()
    );
    assert_eq!(console_last_block(), None);
}

fn full_settings() -> WriterSettings {
    WriterSettings {
        enabled: true,
        type_: Some(WriterType::ObjectStorage),
        disable_persistence_warnings: false,
        disk_path: Some(b"/var/lib/podpings".to_vec()),
        object_storage_base_url: Some(b"https://s3.example".to_vec()),
        object_storage_bucket_name: Some(b"podpings".to_vec()),
        object_storage_region: Some(b"us-east-1".to_vec()),
        object_storage_url_style: Some(UrlStyle::Path),
    }
}

#[test]
fn writer_selection_follows_settings() {
    assert_eq!(choose_writer(false, None), Ok(WriterChoice::Console));
    assert_eq!(choose_writer(false, Some(WriterType::Disk)), Ok(WriterChoice::Console));
    assert_eq!(choose_writer(true, Some(WriterType::Disk)), Ok(WriterChoice::Disk));
    assert_eq!(
        choose_writer(true, Some(WriterType::ObjectStorage)),
        Ok(WriterChoice::ObjectStorage)
    );
    assert_eq!(choose_writer(true, None), Err(InitError::WriterTypeNotSet));
}

#[test]
fn disabled_persistence_warns_unless_suppressed() {
    assert_eq!(persistence_warnings(false, false, None, None), (true, false));
    assert_eq!(persistence_warnings(false, false, Some(5), None), (true, true));
    assert_eq!(persistence_warnings(false, true, Some(5), None), (false, false));
    assert_eq!(persistence_warnings(true, false, Some(5), None), (false, false));
}

#[test]
fn object_storage_validation_reports_first_missing_piece() {
    let key = || Some(b"test-access".to_vec());
    let secret = || Some(b"test-secret".to_vec());

    let ok = match validate_object_storage(&full_settings(), key(), secret()) {
        Ok(c) => c,
        Err(e) => panic!("expected full settings to validate, got {:?}", e),
    };
    assert_eq!(ok.base_url, b"https://s3.example".to_vec());
    assert_eq!(ok.access_key, b"test-access".to_vec());
    assert_eq!(ok.secret_key, b"test-secret".to_vec());
    assert_eq!(ok.bucket_name, b"podpings".to_vec());
    assert_eq!(ok.region, b"us-east-1".to_vec());
    assert_eq!(ok.url_style, UrlStyle::Path);

    let mut s = full_settings();
    s.object_storage_base_url = None;
    assert_eq!(
        validate_object_storage(&s, key(), secret()).err(),
        Some(InitError::MissingBaseUrl)
    );

    assert_eq!(
        validate_object_storage(&full_settings(), None, secret()).err(),
        Some(InitError::MissingAccessKey)
    );
    assert_eq!(
        validate_object_storage(&full_settings(), key(), None).err(),
        Some(InitError::MissingSecretKey)
    );

    let mut s = full_settings();
    s.object_storage_bucket_name = None;
    assert_eq!(
        validate_object_storage(&s, key(), secret()).err(),
        Some(InitError::MissingBucketName)
    );

    let mut s = full_settings();
    s.object_storage_region = None;
    assert_eq!(
        validate_object_storage(&s, key(), secret()).err(),
        Some(InitError::MissingRegion)
    );

    let mut s = full_settings();
    s.object_storage_url_style = None;
    assert_eq!(
        validate_object_storage(&s, key(), secret()).err(),
        Some(InitError::MissingUrlStyle)
    );

    let mut s = full_settings();
    s.disk_path = None;
    assert_eq!(validate_disk(&s), Err(InitError::MissingDiskPath));
    assert_eq!(validate_disk(&full_settings()), Ok(b"/var/lib/podpings".to_vec()));
}
