use speedtest_rs::samples::SpeedRecords;

#[test]
fn empty_records_read_as_zero() {
    let records = SpeedRecords::new();
    assert_eq!(records.max_download_byte_ps(), 0);
    assert_eq!(records.min_download_byte_ps(), 0);
    assert_eq!(records.latest_download_byte_ps(), 0);
    assert_eq!(records.avg_download_byte_ps(), 0);
    assert_eq!(records.max_upload_byte_ps(), 0);
    assert_eq!(records.min_upload_byte_ps(), 0);
    assert_eq!(records.latest_upload_byte_ps(), 0);
    assert_eq!(records.avg_upload_byte_ps(), 0);
}

#[test]
fn download_summaries_follow_the_samples() {
    let mut records = SpeedRecords::new();
    for rate in [1200, 300, 900] {
        records.push_download_sample(rate);
    }
    assert_eq!(records.max_download_byte_ps(), 1200);
    assert_eq!(records.min_download_byte_ps(), 300);
    assert_eq!(records.latest_download_byte_ps(), 900);
    assert_eq!(records.avg_download_byte_ps(), (1200 + 300 + 900) / 3);
    // The upload side is untouched.
    assert_eq!(records.max_upload_byte_ps(), 0);
}

#[test]
fn upload_summaries_follow_the_samples() {
    let mut records = SpeedRecords::new();
    records.push_upload_sample(64);
    records.push_upload_sample(256);
    assert_eq!(records.max_upload_byte_ps(), 256);
    assert_eq!(records.min_upload_byte_ps(), 64);
    assert_eq!(records.latest_upload_byte_ps(), 256);
    assert_eq!(records.avg_upload_byte_ps(), 160);
}
