use llamafile_kit::download::{begin_download, chunk_status, transfer, ProgressTracker};
use llamafile_kit::errors::PipelineError;

#[test]
fn missing_length_is_rejected_before_any_byte() {
    let e = begin_download(true, None, "http://host/file.bin").unwrap_err();
    assert!(matches!(e, PipelineError::MissingLength(u) if u == "http://host/file.bin"));
}

#[test]
fn failed_request_is_a_network_error() {
    let e = begin_download(false, Some(100), "http://host/file.bin").unwrap_err();
    assert!(matches!(e, PipelineError::Network(u) if u == "http://host/file.bin"));
}

#[test]
fn failed_chunk_is_a_transfer_error() {
    assert!(chunk_status(true, "http://host/f").is_ok());
    let e = chunk_status(false, "http://host/f").unwrap_err();
    assert!(matches!(e, PipelineError::Transfer(u) if u == "http://host/f"));
}

#[test]
fn advertised_length_is_returned() {
    assert_eq!(begin_download(true, Some(42), "http://host/f").unwrap(), 42);
}

#[test]
fn transfer_concatenates_chunks_and_reports_progress() {
    let chunks: Vec<Vec<u8>> = vec![vec![1, 2, 3], vec![4, 5, 6, 7], vec![8, 9, 10]];
    let (bytes, reports) = transfer(10, &chunks);
    assert_eq!(bytes, vec![1, 2, 3, 4, 5, 6, 7, 8, 9, 10]);
    assert_eq!(reports, vec![3, 7, 10]);
}

#[test]
fn transfer_progress_is_monotone_and_capped_for_odd_chunkings() {
    let total: u64 = 16;
    let chunkings: Vec<Vec<usize>> = vec![
        vec![16],
        vec![1; 16].into_iter().collect(),
        vec![5, 5, 5, 1],
        vec![0, 16, 0],
        vec![7, 9],
    ];
    for lens in chunkings {
        let mut payload: Vec<Vec<u8>> = Vec::new();
        let mut v: u8 = 0;
        for len in &lens {
            let mut c = Vec::new();
            for _ in 0..*len {
                c.push(v);
                v = v.wrapping_add(1);
            }
            payload.push(c);
        }
        let (bytes, reports) = transfer(total, &payload);
        assert_eq!(bytes.len() as u64, total);
        let mut prev = 0u64;
        for r in &reports {
            assert!(*r >= prev);
            assert!(*r <= total);
            prev = *r;
        }
        assert_eq!(*reports.last().unwrap(), total);
    }
}

#[test]
fn transfer_writes_everything_even_past_the_advertised_total() {
    // The counter is capped at the total, but the bytes are all written.
    let chunks: Vec<Vec<u8>> = vec![vec![1, 2, 3], vec![4, 5, 6, 7]];
    let (bytes, reports) = transfer(5, &chunks);
    assert_eq!(bytes, vec![1, 2, 3, 4, 5, 6, 7]);
    assert_eq!(reports, vec![3, 5]);
}

#[test]
fn transfer_of_no_chunks_reports_nothing() {
    let chunks: Vec<Vec<u8>> = Vec::new();
    let (bytes, reports) = transfer(9, &chunks);
    assert!(bytes.is_empty());
    assert!(reports.is_empty());
}

#[test]
fn tracker_caps_at_total_and_never_shrinks() {
    let mut t = ProgressTracker::new(10);
    t.record(4);
    assert_eq!(t.downloaded, 4);
    t.record(0);
    assert_eq!(t.downloaded, 4);
    t.record(9);
    assert_eq!(t.downloaded, 10);
    t.record(3);
    assert_eq!(t.downloaded, 10);
}

#[test]
fn tracker_of_zero_total_stays_at_zero() {
    let mut t = ProgressTracker::new(0);
    t.record(100);
    assert_eq!(t.downloaded, 0);
}
