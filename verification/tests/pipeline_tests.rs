use podpingd::decoder::CustomJsonOp;
use podpingd::podping::Timestamp;
use podpingd::resume::{resume_point, BlockSearch, ResumePoint};
use podpingd::scanner::{decode_block, scan_step, RawTransaction, ScanAction, ScannerState};
use podpingd::status::{classify_head_bucket, HeadBucketError};
use podpingd::config::{init_probe, InitError};
use podpingd::watermark::WriterState;
use podpingd::writer_steps::process_block;

fn ts(year: u32, month: u32, day: u32, hour: u32, minute: u32, second: u32) -> Timestamp {
    Timestamp { year, month, day, hour, minute, second }
}

fn empty_block_ts() -> Timestamp {
    ts(2024, 6, 7, 8, 9, 10)
}

#[test]
fn s1_start_block_with_absent_watermark() {
    // Watermark absent, start_block = 100, chain head = 105: blocks
    // 100..=105 are written, then the scanner polls; final watermark 105.
    let rp = resume_point(None, Some(100), None, 105);
    assert_eq!(rp, ResumePoint::At(100));
    let start = match rp {
        ResumePoint::At(n) => n,
        ResumePoint::SearchFrom(_) => panic!("no search expected"),
    };
    let head = 105u64;
    let mut scanner = ScannerState::new(start);
    let mut writer = WriterState::new(None);
    let mut persisted: Vec<u64> = Vec::new();
    loop {
        match scan_step(scanner.cursor, head, 10) {
            ScanAction::Poll => break,
            ScanAction::Fetch { lo, hi } => {
                assert_eq!(lo, scanner.cursor);
                assert!(hi <= head);
                for n in lo..=hi {
                    let (block, skipped) = decode_block(n, empty_block_ts(), vec![]);
                    assert_eq!(skipped, 0);
                    scanner.emit(n);
                    let (plan, wrote) = process_block(&mut writer, &block);
                    assert!(plan.is_empty());
                    assert!(wrote);
                    persisted.push(n);
                }
            }
        }
    }
    assert_eq!(persisted, (100..=105).collect::<Vec<u64>>());
    assert_eq!(writer.watermark, Some(105));
    assert!(matches!(scan_step(scanner.cursor, head, 10), ScanAction::Poll));
}

#[test]
fn s2_watermark_beats_start_block() {
    // Watermark 200, start_block = 50: the scanner resumes at 201 and its
    // first fetch starts there — blocks 50..=200 are never read.
    let rp = resume_point(Some(200), Some(50), None, 300);
    assert_eq!(rp, ResumePoint::At(201));
    let start = match rp {
        ResumePoint::At(n) => n,
        ResumePoint::SearchFrom(_) => panic!("no search expected"),
    };
    match scan_step(start, 300, 100) {
        ScanAction::Fetch { lo, hi } => {
            assert_eq!(lo, 201);
            assert!(hi >= lo && hi <= 300);
        }
        ScanAction::Poll => panic!("cursor is behind head"),
    }
}

#[test]
fn s3_datetime_resume_searches_first_block_at_or_after() {
    // Watermark absent, start_datetime = 2024-01-01T00:00:00Z. Blocks 90..=99
    // are from 2023, blocks 100..=109 from 2024: the search must find 100.
    let target = ts(2024, 1, 1, 0, 0, 0);
    let rp = resume_point(None, None, Some(target), 109);
    assert_eq!(rp, ResumePoint::SearchFrom(target));

    let base = 90u64;
    let chain_ts = |block: u64| -> Timestamp {
        if block < 100 {
            ts(2023, 12, 31, 23, 59, (block - base) as u32)
        } else {
            ts(2024, 1, 1, 0, 0, (block - 100) as u32)
        }
    };
    let mut search = BlockSearch::new(90, 109);
    let mut probes = 0u32;
    while let Some(mid) = search.next_probe() {
        search.step(chain_ts(mid).ge(&target));
        probes += 1;
        assert!(probes <= 16, "search must converge in O(log n) probes");
    }
    assert_eq!(search.lo, 100);
    assert!(chain_ts(search.lo).ge(&target));
    assert!(!chain_ts(search.lo - 1).ge(&target));
}

#[test]
fn s5_malformed_operation_is_skipped_valid_one_written() {
    // One malformed custom-JSON operation plus one valid V03 podping in the
    // same block: one warning counted, one file planned, watermark advances.
    let bad = CustomJsonOp {
        id: b"podping".to_vec(),
        json: b"{not json".to_vec(),
        required_posting_auths: vec![b"podping.bbb".to_vec()],
    };
    let good = CustomJsonOp {
        id: b"podping".to_vec(),
        json: br#"{"version":"0.3","urls":["https://example.org/feed.xml"]}"#.to_vec(),
        required_posting_auths: vec![b"podping.bbb".to_vec()],
    };
    let raw = RawTransaction { tx_id: b"cafe".to_vec(), ops: vec![bad, good] };
    let (block, skipped) = decode_block(4242, empty_block_ts(), vec![raw]);
    assert_eq!(skipped, 1);
    assert_eq!(block.transactions.len(), 1);
    assert_eq!(block.transactions[0].podpings.len(), 1);

    let mut writer = WriterState::new(Some(4241));
    let (plan, wrote) = process_block(&mut writer, &block);
    assert_eq!(plan.len(), 1);
    assert!(wrote);
    assert_eq!(writer.watermark, Some(4242));
}

#[test]
fn s6_forbidden_bucket_probe_is_fatal_init() {
    // Bucket HEAD returning 403 at startup is a fatal initialization error.
    let probe = classify_head_bucket(Some(403));
    assert_eq!(probe, Err(HeadBucketError::AccessDenied));
    let init = init_probe(probe);
    assert_eq!(init, Err(InitError::BucketProbe(HeadBucketError::AccessDenied)));
}

#[test]
fn operations_without_posting_auths_are_ignored() {
    let unauthorized = CustomJsonOp {
        id: b"podping".to_vec(),
        json: br#"{"version":"0.3","urls":["https://example.org/feed.xml"]}"#.to_vec(),
        required_posting_auths: vec![],
    };
    let raw = RawTransaction { tx_id: b"cafe".to_vec(), ops: vec![unauthorized] };
    let (block, skipped) = decode_block(7, empty_block_ts(), vec![raw]);
    assert_eq!(skipped, 0);
    assert!(block.transactions.is_empty());
}

#[test]
fn head_and_datetime_fallbacks() {
    // With nothing configured the scanner starts at the chain head.
    assert_eq!(resume_point(None, None, None, 12345), ResumePoint::At(12345));
    // A watermark beats a start datetime too.
    let dt = ts(2024, 1, 1, 0, 0, 0);
    assert_eq!(resume_point(Some(9), None, Some(dt), 50), ResumePoint::At(10));
}
