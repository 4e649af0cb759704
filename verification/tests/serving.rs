use video_range::range::{select_delivery, ByteRange, DeliveryOutcome};
use video_range::response::{build_response, Response};
use video_range::video::serve_video;

const CHUNK: u64 = 65536;

fn resource(len: usize) -> Vec<u8> {
    (0..len).map(|i| (i % 251) as u8).collect()
}

fn header<'a>(response: &'a Response, name: &str) -> Option<&'a str> {
    response
        .headers
        .iter()
        .find(|h| h.name == name)
        .map(|h| h.value.as_str())
}

#[test]
fn no_range_header_gives_the_whole_resource() {
    let data = resource(1000);
    let response = serve_video(Some(&data), None, CHUNK);
    assert_eq!(response.status, 200);
    assert_eq!(response.body.len(), 1000);
    assert_eq!(response.body, data);
    assert_eq!(header(&response, "Accept-Ranges"), Some("bytes"));
    assert_eq!(response.headers.len(), 1);
}

#[test]
fn explicit_range_gives_its_bytes() {
    let data = resource(1000);
    let response = serve_video(Some(&data), Some(b"bytes=0-99".as_slice()), CHUNK);
    assert_eq!(response.status, 206);
    assert_eq!(header(&response, "Content-Range"), Some("bytes 0-99/1000"));
    assert_eq!(response.body.len(), 100);
    assert_eq!(response.body, data[0..100].to_vec());
}

#[test]
fn partial_answer_has_three_headers_in_order() {
    let data = resource(1000);
    let response = serve_video(Some(&data), Some(b"bytes=10-19".as_slice()), CHUNK);
    let names: Vec<&str> = response.headers.iter().map(|h| h.name.as_str()).collect();
    let values: Vec<&str> = response.headers.iter().map(|h| h.value.as_str()).collect();
    assert_eq!(names, vec!["Content-Range", "Accept-Ranges", "Content-Type"]);
    assert_eq!(values, vec!["bytes 10-19/1000", "bytes", "video/mp4"]);
    assert_eq!(response.body, data[10..20].to_vec());
}

#[test]
fn suffix_range_gives_the_last_bytes() {
    let data = resource(1000);
    let response = serve_video(Some(&data), Some(b"bytes=-100".as_slice()), CHUNK);
    assert_eq!(response.status, 206);
    assert_eq!(header(&response, "Content-Range"), Some("bytes 900-999/1000"));
    assert_eq!(response.body.len(), 100);
    assert_eq!(response.body, data[900..1000].to_vec());
}

#[test]
fn open_range_runs_to_the_end_of_the_resource() {
    let data = resource(1000);
    let response = serve_video(Some(&data), Some(b"bytes=950-".as_slice()), CHUNK);
    assert_eq!(response.status, 206);
    assert_eq!(header(&response, "Content-Range"), Some("bytes 950-999/1000"));
    assert_eq!(response.body, data[950..1000].to_vec());
}

#[test]
fn open_range_runs_for_one_chunk() {
    let data = resource(1000);
    let response = serve_video(Some(&data), Some(b"bytes=100-".as_slice()), 64);
    assert_eq!(response.status, 206);
    assert_eq!(header(&response, "Content-Range"), Some("bytes 100-163/1000"));
    assert_eq!(response.body.len(), 64);
    assert_eq!(response.body, data[100..164].to_vec());
}

#[test]
fn range_past_the_end_is_refused() {
    let data = resource(1000);
    let response = serve_video(Some(&data), Some(b"bytes=0-1005".as_slice()), CHUNK);
    assert_eq!(response.status, 416);
    assert!(response.headers.is_empty());
    assert_eq!(response.body, b"Range Not Satisfiable".to_vec());
}

#[test]
fn range_ending_at_the_size_is_refused() {
    let data = resource(1000);
    let response = serve_video(Some(&data), Some(b"bytes=0-1000".as_slice()), CHUNK);
    assert_eq!(response.status, 416);
    let response = serve_video(Some(&data), Some(b"bytes=0-999".as_slice()), CHUNK);
    assert_eq!(response.status, 206);
    assert_eq!(response.body, data);
}

#[test]
fn missing_resource_is_not_found() {
    let response = serve_video(None, None, CHUNK);
    assert_eq!(response.status, 404);
    assert!(response.headers.is_empty());
    assert_eq!(response.body, b"Video not found".to_vec());
}

#[test]
fn missing_resource_is_not_found_whatever_the_header() {
    let headers: Vec<&[u8]> = vec![
        b"bytes=0-99",
        b"bytes=-100",
        b"bytes=950-",
        b"bytes=0-1005",
        b"",
        b"items=0-1",
        b"\xff\xfe",
    ];
    let expected = serve_video(None, None, CHUNK);
    for value in headers {
        for chunk in [0, 1, CHUNK, u64::MAX] {
            assert_eq!(serve_video(None, Some(value), chunk), expected);
            assert_eq!(select_delivery(None, Some(value), chunk), DeliveryOutcome::NotFound);
        }
    }
}

#[test]
fn same_request_same_answer() {
    let data = resource(1000);
    let headers: Vec<Option<&[u8]>> = vec![
        None,
        Some(b"bytes=0-99"),
        Some(b"bytes=-100"),
        Some(b"bytes=950-"),
        Some(b"bytes=0-1005"),
        Some(b"nonsense"),
    ];
    for value in headers {
        let first = serve_video(Some(&data), value, CHUNK);
        let second = serve_video(Some(&data), value, CHUNK);
        assert_eq!(first, second);
    }
}

#[test]
fn every_range_of_a_small_resource_is_served() {
    let data = resource(12);
    for start in 0..12u64 {
        for end in start..12u64 {
            let value = format!("bytes={}-{}", start, end);
            let response = serve_video(Some(&data), Some(value.as_bytes()), CHUNK);
            assert_eq!(response.status, 206);
            assert_eq!(
                header(&response, "Content-Range"),
                Some(format!("bytes {}-{}/12", start, end).as_str())
            );
            assert_eq!(response.body.len() as u64, end - start + 1);
            assert_eq!(response.body, data[start as usize..=end as usize].to_vec());
        }
    }
}

#[test]
fn every_suffix_of_a_small_resource_is_served() {
    let data = resource(12);
    for n in 1..=12u64 {
        let value = format!("bytes=-{}", n);
        let outcome = select_delivery(Some(12), Some(value.as_bytes()), CHUNK);
        assert_eq!(
            outcome,
            DeliveryOutcome::PartialBody(ByteRange { start: 12 - n, end: 11 })
        );
        let response = serve_video(Some(&data), Some(value.as_bytes()), CHUNK);
        assert_eq!(response.body, data[(12 - n) as usize..].to_vec());
    }
}

#[test]
fn file_server_steps_give_the_same_answer_as_memory() {
    let data = resource(1000);
    let headers: Vec<Option<&[u8]>> = vec![
        None,
        Some(b"bytes=0-99"),
        Some(b"bytes=-100"),
        Some(b"bytes=950-"),
        Some(b"bytes=0-1005"),
    ];
    for value in headers {
        let outcome = select_delivery(Some(1000), value, CHUNK);
        let read = outcome.read_span(1000).map(|span| {
            data[span.offset as usize..(span.offset + span.length) as usize].to_vec()
        });
        let response = build_response(outcome, 1000, read);
        assert_eq!(response, serve_video(Some(&data), value, CHUNK));
    }
}
