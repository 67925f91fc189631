use flowerchecker::metadata::parse_metadata;
use flowerchecker::metadata::read_metadata;
use flowerchecker::metadata::render_metadata;
use flowerchecker::metadata::MetadataError;
use flowerchecker::metadata::PackageMetadata;

#[test]
fn render_metadata_writes_count_then_limit() {
    let m = PackageMetadata { case_count: 3, time_limit_ms: 1000 };
    assert_eq!(render_metadata(m), "3\n1000");
    let m = PackageMetadata { case_count: 30, time_limit_ms: 4000 };
    assert_eq!(render_metadata(m), "30\n4000");
    let m = PackageMetadata { case_count: 0, time_limit_ms: 0 };
    assert_eq!(render_metadata(m), "0\n0");
    let m = PackageMetadata { case_count: -2, time_limit_ms: u64::MAX };
    assert_eq!(render_metadata(m), "-2\n18446744073709551615");
}

#[test]
fn parse_metadata_reads_two_lines() {
    assert_eq!(
        parse_metadata("3\n1000"),
        Ok(PackageMetadata { case_count: 3, time_limit_ms: 1000 })
    );
    assert_eq!(
        parse_metadata("30\n4000\n"),
        Ok(PackageMetadata { case_count: 30, time_limit_ms: 4000 })
    );
    assert_eq!(
        parse_metadata("+5\n+250"),
        Ok(PackageMetadata { case_count: 5, time_limit_ms: 250 })
    );
    assert_eq!(
        parse_metadata("-1\n0"),
        Ok(PackageMetadata { case_count: -1, time_limit_ms: 0 })
    );
}

#[test]
fn parse_metadata_does_not_look_at_further_lines() {
    assert_eq!(
        parse_metadata("3\n1000\nsomething else\n\u{1F600}"),
        Ok(PackageMetadata { case_count: 3, time_limit_ms: 1000 })
    );
}

#[test]
fn parse_metadata_rejects_a_bad_case_count() {
    assert_eq!(parse_metadata(""), Err(MetadataError::BadCaseCount));
    assert_eq!(parse_metadata("three\n1000"), Err(MetadataError::BadCaseCount));
    assert_eq!(parse_metadata("\n1000"), Err(MetadataError::BadCaseCount));
    assert_eq!(parse_metadata("3 \n1000"), Err(MetadataError::BadCaseCount));
    assert_eq!(parse_metadata("3\r\n1000"), Err(MetadataError::BadCaseCount));
    assert_eq!(parse_metadata("2147483648\n1000"), Err(MetadataError::BadCaseCount));
    assert_eq!(parse_metadata("3.0\n1000"), Err(MetadataError::BadCaseCount));
}

#[test]
fn parse_metadata_judges_the_first_line_first() {
    assert_eq!(parse_metadata("x"), Err(MetadataError::BadCaseCount));
    assert_eq!(parse_metadata("x\ny"), Err(MetadataError::BadCaseCount));
}

#[test]
fn parse_metadata_rejects_a_missing_time_limit() {
    assert_eq!(parse_metadata("3"), Err(MetadataError::MissingTimeLimit));
    assert_eq!(parse_metadata("-7"), Err(MetadataError::MissingTimeLimit));
}

#[test]
fn parse_metadata_rejects_a_bad_time_limit() {
    assert_eq!(parse_metadata("3\n"), Err(MetadataError::BadTimeLimit));
    assert_eq!(parse_metadata("3\n\n1000"), Err(MetadataError::BadTimeLimit));
    assert_eq!(parse_metadata("3\n-1"), Err(MetadataError::BadTimeLimit));
    assert_eq!(parse_metadata("3\n1s"), Err(MetadataError::BadTimeLimit));
    assert_eq!(parse_metadata("3\n1000\r\n"), Err(MetadataError::BadTimeLimit));
    assert_eq!(parse_metadata("3\n18446744073709551616"), Err(MetadataError::BadTimeLimit));
}

#[test]
fn read_metadata_tells_a_missing_record_from_a_malformed_one() {
    assert_eq!(read_metadata(None), Err(MetadataError::NotFound));
    assert_eq!(read_metadata(Some("")), Err(MetadataError::BadCaseCount));
    assert_eq!(read_metadata(Some("3")), Err(MetadataError::MissingTimeLimit));
    assert_eq!(read_metadata(Some("3\nx")), Err(MetadataError::BadTimeLimit));
    assert_eq!(
        read_metadata(Some("3\n1000")),
        Ok(PackageMetadata { case_count: 3, time_limit_ms: 1000 })
    );
}

#[test]
fn metadata_round_trips_exactly() {
    let counts: [i32; 7] = [i32::MIN, -5, 0, 1, 3, 30, i32::MAX];
    let limits: [u64; 6] = [0, 1, 999, 1000, 4000, u64::MAX];
    for n in counts {
        for t in limits {
            let m = PackageMetadata { case_count: n, time_limit_ms: t };
            let text = render_metadata(m);
            assert_eq!(parse_metadata(text.as_str()), Ok(m));
            assert_eq!(read_metadata(Some(text.as_str())), Ok(m));
        }
    }
}
