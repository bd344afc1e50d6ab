use http2_server::api::GetResponse;
use http2_server::api::PutResponse;
use http2_server::api::handle_get;
use http2_server::api::handle_put;
use http2_server::api::STATUS_BAD_REQUEST;
use http2_server::api::STATUS_NO_CONTENT;
use http2_server::api::STATUS_OK;
use http2_server::chunks::zero_buffer;
use http2_server::download::Download;
use http2_server::upload::Upload;
use http2_server::CHUNK_SIZE;

/// Drives a download to exhaustion, returning every emitted chunk.
fn collect_chunks(d: &mut Download, zeros: &bytes::Bytes) -> Vec<bytes::Bytes> {
    let mut chunks = Vec::new();
    loop {
        match d.next_chunk(zeros) {
            Some(c) => chunks.push(c),
            None => return chunks,
        }
        assert!(chunks.len() <= 1_000, "download did not terminate");
    }
}

fn download_body_for(size: u64) -> Vec<bytes::Bytes> {
    let zeros = zero_buffer();
    match handle_get(size) {
        GetResponse::Stream(mut d) => collect_chunks(&mut d, &zeros),
        GetResponse::BadRequest => panic!("positive size was rejected"),
    }
}

#[test]
fn zero_buffer_is_a_mib_of_zeros() {
    let zeros = zero_buffer();
    assert_eq!(zeros.len(), CHUNK_SIZE);
    assert_eq!(zeros.len(), 1_048_576);
    assert!(zeros.iter().all(|b| *b == 0));
}

#[test]
fn get_declares_exact_content_length() {
    for size in [1u64, 2, 1_000, 1_048_575, 1_048_576, 1_048_577, 5_000_000] {
        let r = handle_get(size);
        assert_eq!(r.status(), STATUS_OK);
        assert_eq!(r.status(), 200);
        assert_eq!(r.content_length(), Some(size));
    }
}

#[test]
fn get_streams_exactly_the_requested_bytes() {
    for size in [1u64, 2, 1_000, 1_048_575, 1_048_576, 1_048_577, 3_145_735] {
        let chunks = download_body_for(size);
        let total: u64 = chunks.iter().map(|c| c.len() as u64).sum();
        assert_eq!(total, size);
        for c in &chunks {
            assert!(!c.is_empty());
            assert!(c.len() <= CHUNK_SIZE);
        }
    }
}

#[test]
fn get_truncates_sub_chunk_requests() {
    let chunks = download_body_for(10);
    assert_eq!(chunks.len(), 1);
    assert_eq!(chunks[0].len(), 10);
    assert_eq!(&chunks[0][..], &[0u8; 10][..]);
}

#[test]
fn get_one_mib_is_a_mib_of_zeros() {
    let chunks = download_body_for(1_048_576);
    let total: usize = chunks.iter().map(|c| c.len()).sum();
    assert_eq!(total, 1_048_576);
    for c in &chunks {
        assert!(c.iter().all(|b| *b == 0));
    }
}

#[test]
fn get_rejects_zero_size() {
    let r = handle_get(0);
    assert!(matches!(r, GetResponse::BadRequest));
    assert_eq!(r.status(), STATUS_BAD_REQUEST);
    assert_eq!(r.status(), 400);
    assert_eq!(r.content_length(), None);
}

#[test]
fn concurrent_downloads_share_the_buffer_without_crosstalk() {
    let zeros = zero_buffer();
    let mut a = Download::new(3);
    let mut b = Download::new(2_097_153);
    let mut b_total: u64 = 0;
    // Interleave pulls from two requests against the one shared buffer.
    let a1 = a.next_chunk(&zeros).expect("first chunk of a");
    let b1 = b.next_chunk(&zeros).expect("first chunk of b");
    b_total += b1.len() as u64;
    assert_eq!(a1.len(), 3);
    assert!(a1.iter().all(|x| *x == 0));
    assert!(a.next_chunk(&zeros).is_none());
    while let Some(c) = b.next_chunk(&zeros) {
        assert!(c.iter().all(|x| *x == 0));
        b_total += c.len() as u64;
    }
    assert!(b1.iter().all(|x| *x == 0));
    assert_eq!(b_total, 2_097_153);
    assert!(zeros.iter().all(|x| *x == 0));
    assert_eq!(zeros.len(), CHUNK_SIZE);
}

#[test]
fn put_rejects_zero_size_before_reading() {
    let r = handle_put(0);
    assert!(matches!(r, PutResponse::BadRequest));
    assert_eq!(r.rejected_status(), STATUS_BAD_REQUEST);
    assert_eq!(r.rejected_status(), 400);
}

#[test]
fn put_succeeds_once_target_is_reached() {
    let mut sink = match handle_put(7) {
        PutResponse::Sink(s) => s,
        PutResponse::BadRequest => panic!("positive size was rejected"),
    };
    assert!(!sink.push_chunk(&bytes::Bytes::from(vec![9u8, 9, 9])));
    assert!(sink.push_chunk(&bytes::Bytes::from(vec![9u8, 9, 9, 9])));
    assert_eq!(sink.received, 7);
    assert_eq!(sink.response_status(), STATUS_NO_CONTENT);
    assert_eq!(sink.response_status(), 204);
}

#[test]
fn put_stops_early_when_target_is_exceeded() {
    let mut sink = Upload::new(5);
    // One chunk larger than the target meets it at once; reading stops
    // even though more data may remain on the wire.
    assert!(sink.push_chunk(&bytes::Bytes::from(vec![1u8; 8])));
    assert_eq!(sink.received, 8);
    assert_eq!(sink.response_status(), 204);
}

#[test]
fn put_short_body_still_succeeds() {
    let mut sink = Upload::new(100);
    assert!(!sink.push_chunk(&bytes::Bytes::from(vec![1u8, 2, 3])));
    assert!(!sink.push_chunk(&bytes::Bytes::from(vec![4u8, 5, 6, 7])));
    // The stream ends here, short of the target: the upload still ends
    // normally and reports success.
    assert_eq!(sink.received, 7);
    assert_eq!(sink.response_status(), 204);
}

#[test]
fn put_five_bytes_yields_no_content() {
    let mut sink = match handle_put(5) {
        PutResponse::Sink(s) => s,
        PutResponse::BadRequest => panic!("positive size was rejected"),
    };
    assert!(sink.push_chunk(&bytes::Bytes::from(vec![10u8, 20, 30, 40, 50])));
    assert_eq!(sink.received, 5);
    assert_eq!(sink.response_status(), 204);
}
