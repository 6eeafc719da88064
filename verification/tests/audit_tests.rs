use app_broker::request_logging::{
    body_read_error, log_write_error, print_request, print_response, HeaderField,
};

fn request_fixture(body: &[u8]) -> (Vec<u8>, Vec<u8>) {
    let headers = vec![
        HeaderField { name: b"host".to_vec(), value: b"example.org".to_vec() },
        HeaderField { name: b"accept".to_vec(), value: b"*/*".to_vec() },
    ];
    print_request(
        &b"GET".to_vec(),
        &b"/list-installations".to_vec(),
        &b"HTTP/1.1".to_vec(),
        &headers,
        body.to_vec(),
    )
}

#[test]
fn request_entry_has_the_documented_shape() {
    let (entry, _) = request_fixture(b"hello");
    let expected = b"> GET /list-installations HTTP/1.1\n\
> host: example.org\n\
> accept: */*\n\
>\n\
>\n\
hello\n\
> --------------------------\n\n";
    assert_eq!(entry, expected.to_vec());
}

#[test]
fn response_entry_has_the_documented_shape() {
    let headers = vec![HeaderField { name: b"content-type".to_vec(), value: b"text/plain".to_vec() }];
    let (entry, _) = print_response(
        &b"HTTP/1.1".to_vec(),
        &b"200 OK".to_vec(),
        &headers,
        b"done".to_vec(),
    );
    let expected = b"< HTTP/1.1 200 OK\n\
< content-type: text/plain\n\
<\n\
<\n\
done\n\
< --------------------------\n\n";
    assert_eq!(entry, expected.to_vec());
}

#[test]
fn empty_body_entry_keeps_the_blank_delimiter_and_separator() {
    let (entry, replay) = print_request(
        &b"GET".to_vec(),
        &b"/".to_vec(),
        &b"HTTP/1.1".to_vec(),
        &Vec::new(),
        Vec::new(),
    );
    let expected = b"> GET / HTTP/1.1\n>\n>\n\n> --------------------------\n\n";
    assert_eq!(entry, expected.to_vec());
    assert!(replay.is_empty());
}

#[test]
fn drained_request_body_is_handed_back_byte_for_byte() {
    let body: Vec<u8> = vec![0, 159, 146, 150, 10, 13, 0, 255];
    let (_, replay) = print_request(
        &b"POST".to_vec(),
        &b"/webhook".to_vec(),
        &b"HTTP/1.1".to_vec(),
        &Vec::new(),
        body.clone(),
    );
    assert_eq!(replay, body);
}

#[test]
fn drained_response_body_is_handed_back_byte_for_byte() {
    let body: Vec<u8> = vec![1, 2, 3, 0, 254, 10];
    let (_, replay) = print_response(
        &b"HTTP/1.1".to_vec(),
        &b"200 OK".to_vec(),
        &Vec::new(),
        body.clone(),
    );
    assert_eq!(replay, body);
}

fn count_occurrences(haystack: &[u8], needle: &[u8]) -> usize {
    if needle.is_empty() || haystack.len() < needle.len() {
        return 0;
    }
    (0..=haystack.len() - needle.len()).filter(|&i| &haystack[i..i + needle.len()] == needle).count()
}

#[test]
fn entries_of_two_exchanges_stay_contiguous_in_the_log() {
    let (e1, _) = request_fixture(b"MARKER-AAAA");
    let (e2, _) = request_fixture(b"MARKER-BBBB");

    // The shared log is appended to under mutual exclusion, one whole entry
    // at a time; reproduce the two appends and check neither entry's bytes
    // were split by the other's.
    let mut log: Vec<u8> = Vec::new();
    log.extend_from_slice(&e1);
    log.extend_from_slice(&e2);

    assert_eq!(&log[..e1.len()], &e1[..]);
    assert_eq!(&log[e1.len()..], &e2[..]);
    assert_eq!(count_occurrences(&log, b"MARKER-AAAA"), 1);
    assert_eq!(count_occurrences(&log, b"MARKER-BBBB"), 1);
    assert_eq!(count_occurrences(&e1, b"MARKER-BBBB"), 0);
    assert_eq!(count_occurrences(&e2, b"MARKER-AAAA"), 0);
}

#[test]
fn body_drain_failure_maps_to_400() {
    let (status, body) = body_read_error("connection reset");
    assert_eq!(status, 400);
    assert_eq!(body, "failed to read request body: connection reset");
}

#[test]
fn log_write_failure_maps_to_500() {
    let (status, body) = log_write_error("disk full");
    assert_eq!(status, 500);
    assert_eq!(body, "failed to unlock file to write: disk full");
}
