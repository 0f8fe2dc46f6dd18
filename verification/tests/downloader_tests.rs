use downloader::digits::decimal_string;
use downloader::error::DownloadError;
use downloader::path_name::file_name_of;
use downloader::progress::ProgressTracker;
use downloader::removal::delete_outcome;
use downloader::transfer::{
    check_status, completion_check, interpret_size_probe, verify_bulk_size, TransferMode,
};

fn ratio_as_f64(r: (u128, u64)) -> f64 {
    r.0 as f64 / r.1 as f64
}

#[test]
fn bulk_success_matches_declared_size() {
    assert_eq!(verify_bulk_size(Some(5), 5), Ok(()));
    assert_eq!(verify_bulk_size(Some(0), 0), Ok(()));
    assert_eq!(verify_bulk_size(Some(u64::MAX), u64::MAX), Ok(()));
}

#[test]
fn bulk_without_declared_size_skips_check() {
    assert_eq!(verify_bulk_size(None, 0), Ok(()));
    assert_eq!(verify_bulk_size(None, 12345), Ok(()));
}

#[test]
fn bulk_mismatch_names_both_counts() {
    let r = verify_bulk_size(Some(2048), 1000);
    assert_eq!(
        r,
        Err(DownloadError::SizeMismatch {
            expected: 2048,
            actual: 1000
        })
    );
    let msg = r.unwrap_err().message();
    assert!(msg.contains("2048"));
    assert!(msg.contains("1000"));
    assert_eq!(
        msg,
        "couldn't complete download: expected 2048 bytes, got 1000 bytes"
    );
}

#[test]
fn status_admission_is_exactly_2xx() {
    assert_eq!(check_status(200), Ok(()));
    assert_eq!(check_status(204), Ok(()));
    assert_eq!(check_status(299), Ok(()));
    assert_eq!(check_status(199), Err(DownloadError::Status { code: 199 }));
    assert_eq!(check_status(300), Err(DownloadError::Status { code: 300 }));
    assert_eq!(check_status(404), Err(DownloadError::Status { code: 404 }));
    assert_eq!(check_status(500), Err(DownloadError::Status { code: 500 }));
}

#[test]
fn status_error_message_names_the_code() {
    let e = DownloadError::Status { code: 404 };
    assert_eq!(e.message(), "failed to download file: status 404");
}

#[test]
fn size_probe_without_content_length_is_zero() {
    assert_eq!(interpret_size_probe(200, None), Ok(0));
}

#[test]
fn size_probe_returns_declared_length() {
    assert_eq!(interpret_size_probe(200, Some(777)), Ok(777));
    assert_eq!(interpret_size_probe(206, Some(1)), Ok(1));
}

#[test]
fn size_probe_fails_on_non_success_status() {
    assert_eq!(
        interpret_size_probe(404, Some(5)),
        Err(DownloadError::Status { code: 404 })
    );
    assert_eq!(
        interpret_size_probe(500, None),
        Err(DownloadError::Status { code: 500 })
    );
}

#[test]
fn delete_missing_file_is_false_not_error() {
    assert_eq!(delete_outcome(false, None), Ok(false));
}

#[test]
fn delete_existing_file_is_true() {
    assert_eq!(delete_outcome(true, None), Ok(true));
}

#[test]
fn delete_failure_carries_the_underlying_message() {
    let r = delete_outcome(true, Some(String::from("permission denied")));
    assert_eq!(
        r,
        Err(DownloadError::Filesystem {
            detail: String::from("permission denied")
        })
    );
    assert_eq!(r.unwrap_err().message(), "permission denied");
}

#[test]
fn network_error_message_passes_through() {
    let e = DownloadError::Network {
        detail: String::from("connection refused"),
    };
    assert_eq!(e.message(), "connection refused");
}

#[test]
fn streaming_progress_is_strictly_increasing() {
    let mut t = ProgressTracker::new(Some(1000), "a/b.bin");
    let downs = [100u64, 200, 50]
        .iter()
        .map(|&n| t.record_chunk(n).downloaded)
        .collect::<Vec<_>>();
    assert_eq!(downs, vec![100, 300, 350]);
    for w in downs.windows(2) {
        assert!(w[0] < w[1]);
    }
    assert_eq!(t.downloaded(), 350);
    assert_eq!(*downs.last().unwrap(), t.downloaded());
}

#[test]
fn streaming_percentage_is_exact() {
    let mut t = ProgressTracker::new(Some(1024), "f");
    let e1 = t.record_chunk(512);
    assert_eq!(e1.percentage_ratio(), (512 * 100, 1024));
    assert_eq!(ratio_as_f64(e1.percentage_ratio()), 50.0);
    let e2 = t.record_chunk(512);
    assert_eq!(ratio_as_f64(e2.percentage_ratio()), 100.0);
}

#[test]
fn streaming_percentage_is_zero_when_total_unknown() {
    let mut t = ProgressTracker::new(None, "f");
    let e = t.record_chunk(999);
    assert_eq!(e.total, 0);
    assert_eq!(e.percentage_ratio(), (0, 1));
    assert_eq!(ratio_as_f64(e.percentage_ratio()), 0.0);
}

#[test]
fn streaming_full_body_final_event() {
    let mut t = ProgressTracker::new(Some(1024), "downloads/app.tar.gz");
    let e = t.record_chunk(1024);
    assert_eq!(e.downloaded, 1024);
    assert_eq!(e.total, 1024);
    assert_eq!(ratio_as_f64(e.percentage_ratio()), 100.0);
    assert_eq!(e.file_name, "app.tar.gz");
    assert_eq!(
        completion_check(TransferMode::Streaming, Some(1024), t.downloaded()),
        Ok(())
    );
}

#[test]
fn short_body_fails_bulk_but_completes_streaming() {
    let bulk = completion_check(TransferMode::Bulk, Some(2048), 1000);
    assert_eq!(
        bulk,
        Err(DownloadError::SizeMismatch {
            expected: 2048,
            actual: 1000
        })
    );
    let msg = bulk.unwrap_err().message();
    assert!(msg.contains("2048"));
    assert!(msg.contains("1000"));
    let mut t = ProgressTracker::new(Some(2048), "f");
    t.record_chunk(1000);
    assert_eq!(
        completion_check(TransferMode::Streaming, Some(2048), t.downloaded()),
        Ok(())
    );
}

#[test]
fn decimal_rendering_is_exact() {
    assert_eq!(decimal_string(0), "0");
    assert_eq!(decimal_string(7), "7");
    assert_eq!(decimal_string(10), "10");
    assert_eq!(decimal_string(1024), "1024");
    assert_eq!(decimal_string(u64::MAX), "18446744073709551615");
}

#[test]
fn file_name_is_the_final_path_segment() {
    assert_eq!(file_name_of("a/b/c.txt"), "c.txt");
    assert_eq!(file_name_of("c.txt"), "c.txt");
    assert_eq!(file_name_of("C:\\tmp\\x.bin"), "x.bin");
    assert_eq!(file_name_of("dir/"), "");
    assert_eq!(file_name_of(""), "");
}
