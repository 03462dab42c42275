use filedb::codec::{compress, expand, whole_stream};
use filedb::error::describe_missing;
use filedb::engine::ListedRow;
use filedb::filedb::{
    acknowledged, decode_listing, decode_lookup, engine_answer, release_time, stored_row,
};
use filedb::retention::{retention_cutoff, RETENTION_DAYS, SECONDS_PER_DAY};
use filedb::{Error, Origin, TimeStamp};

#[test]
fn time_stamp_keeps_seconds_and_remainder() {
    let t = TimeStamp::new(1_672_531_200, 250_000_000);
    assert_eq!(t.secs, 1_672_531_200);
    assert_eq!(t.nanos, 250_000_000);
    assert_eq!(t.seconds(), 1_672_531_200);
    assert_eq!(TimeStamp::from_seconds(-1), TimeStamp { secs: -1, nanos: 0 });
}

#[test]
fn truncation_drops_only_the_remainder() {
    let t = TimeStamp::new(-86_400, 999_999_999);
    assert_eq!(t.truncated(), TimeStamp::from_seconds(-86_400));
    assert_eq!(t.truncated().truncated(), t.truncated());
    assert_eq!(TimeStamp::new(9, 1).truncated(), TimeStamp::new(9, 2).truncated());
    assert_ne!(TimeStamp::new(9, 1).truncated(), TimeStamp::new(10, 1).truncated());
}

#[test]
fn time_stamp_agrees_with_the_calendar() {
    let naive = chrono::NaiveDate::from_ymd_opt(2023, 1, 1)
        .unwrap()
        .and_hms_milli_opt(0, 0, 0, 750)
        .unwrap();
    let t = TimeStamp::new(naive.and_utc().timestamp(), naive.and_utc().timestamp_subsec_nanos());
    assert_eq!(t, TimeStamp::new(1_672_531_200, 750_000_000));
    assert_eq!(t.seconds(), 1_672_531_200);
}

#[test]
fn horizon_is_365_days() {
    assert_eq!(RETENTION_DAYS, 365);
    assert_eq!(SECONDS_PER_DAY, 86_400);
    assert_eq!(retention_cutoff(TimeStamp::from_seconds(0)), -31_536_000);
    assert_eq!(retention_cutoff(TimeStamp::new(1_700_000_000, 5)), 1_668_464_000);
    assert_eq!(retention_cutoff(TimeStamp::new(31_536_000, 999_999_999)), 0);
}

#[test]
fn cutoff_stops_at_the_lower_end_of_the_range() {
    assert_eq!(retention_cutoff(TimeStamp::from_seconds(i64::MIN)), i64::MIN);
    assert_eq!(retention_cutoff(TimeStamp::from_seconds(i64::MIN + 31_535_999)), i64::MIN);
    assert_eq!(retention_cutoff(TimeStamp::from_seconds(i64::MIN + 31_536_000)), i64::MIN);
    assert_eq!(retention_cutoff(TimeStamp::from_seconds(i64::MIN + 31_536_001)), i64::MIN + 1);
    assert_eq!(retention_cutoff(TimeStamp::from_seconds(i64::MAX)), i64::MAX - 31_536_000);
}

#[test]
fn general_error_carries_its_message() {
    let e = Error::general_error("the key must not be empty".to_string());
    assert!(matches!(&e, Error::GeneralError(msg) if msg == "the key must not be empty"));
    assert_eq!(e.message(), "the key must not be empty");
    assert_eq!(e.origin(), None);
}

#[test]
fn no_match_names_the_key() {
    let e = Error::NoMatch("report.txt".to_string());
    assert_eq!(e.message(), "No match found for key report.txt");
    assert_eq!(e.origin(), None);
}

#[test]
fn missing_time_stamp_names_key_and_calendar_time() {
    let e = Error::TimeStampNotAvailable("report.txt".to_string(), TimeStamp::from_seconds(1_672_617_600));
    assert_eq!(
        e.message(),
        "No data available for key report.txt and time stamp 2023-01-02 00:00:00"
    );
    let with_fraction = Error::TimeStampNotAvailable("k".to_string(), TimeStamp::new(0, 500_000_000));
    assert_eq!(
        with_fraction.message(),
        "No data available for key k and time stamp 1970-01-01 00:00:00.500"
    );
    assert_eq!(e.origin(), None);
}

#[test]
fn missing_time_stamp_beyond_the_calendar_still_has_a_message() {
    let e = Error::TimeStampNotAvailable("k".to_string(), TimeStamp::from_seconds(i64::MAX));
    assert_eq!(e.message(), "No data available for key k and time stamp <out of range>");
}

#[test]
fn foreign_failures_keep_origin_and_text() {
    let engine = Error::engine_failure("database is locked".to_string());
    assert!(matches!(&engine, Error::InternalError(Origin::Engine, text) if text == "database is locked"));
    assert_eq!(engine.message(), "database is locked");
    assert_eq!(engine.origin(), Some(Origin::Engine));

    let codec = Error::codec_failure("corrupt deflate stream".to_string());
    assert!(matches!(&codec, Error::InternalError(Origin::Codec, text) if text == "corrupt deflate stream"));
    assert_eq!(codec.message(), "corrupt deflate stream");
    assert_eq!(codec.origin(), Some(Origin::Codec));
}

#[test]
fn compress_then_expand_restores_the_payload() {
    let data = b"hello hello hello hello hello hello hello hello".to_vec();
    let packed = compress(&data).unwrap();
    assert_ne!(packed, data);
    assert_eq!(expand(&packed).unwrap(), data);
}

#[test]
fn compress_writes_a_zlib_stream() {
    let packed = compress(b"hello").unwrap();
    assert_eq!(packed[0], 0x78);
    assert_eq!(((packed[0] as u32) * 256 + packed[1] as u32) % 31, 0);
    assert!(packed.len() > 5);

    let many = vec![7u8; 10_000];
    assert!(compress(&many).unwrap().len() < 100);
}

#[test]
fn compress_is_the_same_for_the_same_payload() {
    let data: Vec<u8> = (0..5_000u32).map(|n| (n * n % 251) as u8).collect();
    assert_eq!(compress(&data).unwrap(), compress(&data).unwrap());
}

#[test]
fn empty_payload_has_a_stored_form() {
    let packed = compress(b"").unwrap();
    assert!(!packed.is_empty());
    assert_eq!(expand(&packed).unwrap(), Vec::<u8>::new());
}

#[test]
fn expand_reads_a_stream_written_elsewhere() {
    let stream = [0x78, 0x9c, 0xcb, 0x48, 0xcd, 0xc9, 0xc9, 0x07, 0x00, 0x06, 0x2c, 0x02, 0x15];
    assert_eq!(expand(&stream).unwrap(), b"hello".to_vec());
}

#[test]
fn expand_refuses_a_corrupt_stream() {
    match expand(&[0xff, 0xfe, 0xfd, 0xfc, 0xfb, 0xfa]) {
        Err(Error::InternalError(origin, text)) => {
            assert_eq!(origin, Origin::Codec);
            assert!(!text.is_empty());
        }
        other => panic!("expected a codec failure, got {:?}", other),
    }
    let mut damaged = compress(b"some payload that is long enough to matter").unwrap();
    damaged[0] = 0x00;
    assert!(matches!(expand(&damaged), Err(Error::InternalError(Origin::Codec, _))));
}

#[test]
fn stored_row_holds_key_seconds_and_packed_payload() {
    let row = stored_row("report.txt", TimeStamp::new(1_672_531_200, 999), b"hello").unwrap();
    assert_eq!(row.key, "report.txt");
    assert_eq!(row.time_stamp, 1_672_531_200);
    assert_eq!(row.data, compress(b"hello").unwrap());
    assert_eq!(expand(&row.data).unwrap(), b"hello".to_vec());
}

#[test]
fn lookup_without_row_is_a_missing_time_stamp() {
    let at = TimeStamp::new(12, 34);
    match decode_lookup("k", at, None) {
        Err(Error::TimeStampNotAvailable(key, t)) => {
            assert_eq!(key, "k");
            assert_eq!(t, at);
        }
        other => panic!("expected a missing time stamp, got {:?}", other),
    }
}

#[test]
fn lookup_of_null_is_success_without_payload() {
    assert!(matches!(decode_lookup("k", TimeStamp::from_seconds(1), Some(None)), Ok(None)));
}

#[test]
fn lookup_of_a_blob_unpacks_it() {
    let packed = compress(b"payload").unwrap();
    let found = decode_lookup("k", TimeStamp::from_seconds(1), Some(Some(packed)));
    assert_eq!(found.unwrap(), Some(b"payload".to_vec()));

    let empty = compress(b"").unwrap();
    let found = decode_lookup("k", TimeStamp::from_seconds(1), Some(Some(empty)));
    assert_eq!(found.unwrap(), Some(Vec::new()));
}

#[test]
fn lookup_of_a_corrupt_blob_is_a_codec_failure() {
    let found = decode_lookup("k", TimeStamp::from_seconds(1), Some(Some(vec![1, 2, 3])));
    assert!(matches!(found, Err(Error::InternalError(Origin::Codec, _))));
}

#[test]
fn listing_keeps_decoded_rows_in_order() {
    let rows: Vec<ListedRow> = vec![
        Ok(("b".to_string(), 20)),
        Err("Invalid column type Text at index: 1, name: time_stamp".to_string()),
        Ok(("a".to_string(), -10)),
        Ok(("b".to_string(), 21)),
        Err("Invalid column type Null at index: 0, name: key".to_string()),
    ];
    assert_eq!(
        decode_listing(&rows),
        vec![
            ("b".to_string(), TimeStamp::from_seconds(20)),
            ("a".to_string(), TimeStamp::from_seconds(-10)),
            ("b".to_string(), TimeStamp::from_seconds(21)),
        ]
    );
}

#[test]
fn listing_of_nothing_is_empty() {
    assert_eq!(decode_listing(&Vec::new()), Vec::new());
    let only_failures: Vec<ListedRow> = vec![Err("x".to_string()), Err("y".to_string())];
    assert_eq!(decode_listing(&only_failures), Vec::new());
}

#[test]
fn expand_refuses_a_stream_cut_short() {
    let data: Vec<u8> = (0..20_000u32).map(|n| (n * 7 % 251) as u8).collect();
    let packed = compress(&data).unwrap();
    assert_eq!(expand(&packed).unwrap(), data);

    let half = &packed[..packed.len() / 2];
    assert!(matches!(expand(half), Err(Error::InternalError(Origin::Codec, _))));
    let without_checksum = &packed[..packed.len() - 4];
    assert!(matches!(expand(without_checksum), Err(Error::InternalError(Origin::Codec, _))));
    let one_short = &packed[..packed.len() - 1];
    assert!(matches!(expand(one_short), Err(Error::InternalError(Origin::Codec, _))));
    assert!(matches!(expand(&[]), Err(Error::InternalError(Origin::Codec, _))));
}

#[test]
fn expand_refuses_a_wrong_checksum() {
    let mut packed = compress(b"a payload with a checksum behind it").unwrap();
    let last = packed.len() - 1;
    packed[last] ^= 0x55;
    assert!(matches!(expand(&packed), Err(Error::InternalError(Origin::Codec, _))));
}

#[test]
fn expand_refuses_bytes_behind_the_stream() {
    let mut packed = compress(b"payload").unwrap();
    packed.extend_from_slice(b"tail");
    match expand(&packed) {
        Err(Error::InternalError(origin, text)) => {
            assert_eq!(origin, Origin::Codec);
            assert_eq!(text, "bytes behind the end of the stream");
        }
        other => panic!("expected a codec failure, got {:?}", other),
    }
    let mut doubled = compress(b"payload").unwrap();
    doubled.extend_from_slice(&compress(b"payload").unwrap());
    assert!(matches!(expand(&doubled), Err(Error::InternalError(Origin::Codec, _))));
}

#[test]
fn whole_stream_accepts_only_a_value_that_was_taken_in_entirely() {
    assert_eq!(whole_stream(13, b"hello".to_vec(), 13).unwrap(), b"hello".to_vec());
    assert_eq!(whole_stream(0, Vec::new(), 0).unwrap(), Vec::<u8>::new());
    match whole_stream(17, b"hello".to_vec(), 13) {
        Err(Error::InternalError(origin, text)) => {
            assert_eq!(origin, Origin::Codec);
            assert_eq!(text, "bytes behind the end of the stream");
        }
        other => panic!("expected a codec failure, got {:?}", other),
    }
    assert!(matches!(whole_stream(12, Vec::new(), 13), Err(Error::InternalError(Origin::Codec, _))));
}

#[test]
fn describe_missing_joins_key_and_rendering() {
    assert_eq!(
        describe_missing("report.txt", Some("2023-01-02 00:00:00".to_string())),
        "No data available for key report.txt and time stamp 2023-01-02 00:00:00"
    );
    assert_eq!(
        describe_missing("", None),
        "No data available for key  and time stamp <out of range>"
    );
}

#[test]
fn payloads_of_many_sizes_round_trip() {
    let mut state: u32 = 0x2545_f491;
    let mut noise: Vec<u8> = Vec::new();
    for _ in 0..70_000 {
        state ^= state << 13;
        state ^= state >> 17;
        state ^= state << 5;
        noise.push((state >> 24) as u8);
    }
    for len in [0usize, 1, 2, 3, 15, 16, 17, 255, 256, 257, 4_095, 32_767, 32_768, 65_535, 65_536, 70_000] {
        let data = &noise[..len];
        let packed = compress(data).unwrap();
        assert_eq!(expand(&packed).unwrap(), data.to_vec());
        let zeros = vec![0u8; len];
        assert_eq!(expand(&compress(&zeros).unwrap()).unwrap(), zeros);
    }
}

#[test]
fn engine_answer_passes_success_on_and_wraps_failure() {
    assert_eq!(engine_answer(Ok::<usize, String>(3)).unwrap(), 3);
    assert_eq!(engine_answer(Ok::<String, String>("x".to_string())).unwrap(), "x");
    match engine_answer(Err::<usize, String>("database is locked".to_string())) {
        Err(Error::InternalError(origin, text)) => {
            assert_eq!(origin, Origin::Engine);
            assert_eq!(text, "database is locked");
        }
        other => panic!("expected an engine failure, got {:?}", other),
    }
}

#[test]
fn a_write_is_acknowledged_whatever_the_count() {
    assert!(matches!(acknowledged(Ok(1)), Ok(())));
    assert!(matches!(acknowledged(Ok(0)), Ok(())));
    match acknowledged(Err("UNIQUE constraint failed: files.key, files.time_stamp".to_string())) {
        Err(Error::InternalError(origin, text)) => {
            assert_eq!(origin, Origin::Engine);
            assert_eq!(text, "UNIQUE constraint failed: files.key, files.time_stamp");
        }
        other => panic!("expected an engine failure, got {:?}", other),
    }
}

#[test]
fn release_sweeps_at_the_second_that_the_clock_reads() {
    assert_eq!(release_time(Some(0)), Some(TimeStamp::from_seconds(0)));
    assert_eq!(release_time(Some(1_700_000_000)), Some(TimeStamp::from_seconds(1_700_000_000)));
    assert_eq!(
        release_time(Some(i64::MAX as u64)),
        Some(TimeStamp::from_seconds(i64::MAX))
    );
}

#[test]
fn release_leaves_the_sweep_out_without_a_usable_clock() {
    assert_eq!(release_time(None), None);
    assert_eq!(release_time(Some(i64::MAX as u64 + 1)), None);
    assert_eq!(release_time(Some(u64::MAX)), None);
}

#[test]
fn stored_stream_is_never_empty() {
    for data in [&b""[..], &b"a"[..], &[0u8; 64][..]] {
        let row = stored_row("k", TimeStamp::from_seconds(1), data).unwrap();
        assert!(!row.data.is_empty());
        assert!(row.data.len() >= 8);
        assert_ne!(row.data, data.to_vec());
    }
}
