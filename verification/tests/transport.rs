use openai_ask::transport::{collect, Header, HttpRequest, Method, ResponseBuffer};

fn header_pairs(request: &HttpRequest) -> Vec<(String, String)> {
    request.headers.iter().map(|h| (h.name.clone(), h.value.clone())).collect()
}

#[test]
fn header_is_a_name_and_a_value() {
    let header = Header::new("Accept", "*/*".to_string());
    assert_eq!(header, Header { name: "Accept".to_string(), value: "*/*".to_string() });
}

#[test]
fn post_json_lays_out_the_four_headers_in_order() {
    let request = HttpRequest::post_json("https://example.test/v1", "secret", "{}", 10);
    assert_eq!(
        header_pairs(&request),
        vec![
            ("Content-Type".to_string(), "application/json".to_string()),
            ("Accept".to_string(), "*/*".to_string()),
            ("Authorization".to_string(), "Bearer secret".to_string()),
            ("Content-Length".to_string(), "2".to_string()),
        ]
    );
    assert_eq!(request.method, Method::Post);
    assert_eq!(request.url, "https://example.test/v1");
    assert_eq!(request.body, b"{}".to_vec());
    assert_eq!(request.connect_timeout_secs, 10);
}

#[test]
fn content_length_counts_bytes_not_characters() {
    let text = "{\"k\":\"\u{e9}\u{4e16}\u{1F600}\"}";
    assert_eq!(text.chars().count(), 11);
    let request = HttpRequest::post_json("u", "k", text, 1);
    assert_eq!(request.body, text.as_bytes().to_vec());
    assert_eq!(request.body.len(), 17);
    assert_eq!(request.headers[3].name, "Content-Length");
    assert_eq!(request.headers[3].value, "17");
}

#[test]
fn content_length_of_an_empty_body_is_zero() {
    let request = HttpRequest::post_json("u", "k", "", 0);
    assert_eq!(request.body, Vec::<u8>::new());
    assert_eq!(request.headers[3].value, "0");
    assert_eq!(request.connect_timeout_secs, 0);
}

#[test]
fn authorization_carries_the_key_as_it_is() {
    let request = HttpRequest::post_json("u", " sk with space ", "{}", 1);
    assert_eq!(request.headers[2].value, "Bearer  sk with space ");
    let request = HttpRequest::post_json("u", "", "{}", 1);
    assert_eq!(request.headers[2].value, "Bearer ");
}

#[test]
fn buffer_starts_empty() {
    assert_eq!(ResponseBuffer::new().into_bytes(), Vec::<u8>::new());
}

#[test]
fn buffer_appends_chunks_and_asks_for_more() {
    let mut buffer = ResponseBuffer::new();
    assert!(buffer.absorb(Some(b"{\"a\"")));
    assert!(buffer.absorb(Some(b":1}")));
    assert_eq!(buffer.into_bytes(), b"{\"a\":1}".to_vec());
}

#[test]
fn buffer_stops_at_an_empty_chunk() {
    let mut buffer = ResponseBuffer::new();
    assert!(buffer.absorb(Some(b"abc")));
    assert!(!buffer.absorb(Some(b"")));
    assert_eq!(buffer.into_bytes(), b"abc".to_vec());
}

#[test]
fn buffer_stops_at_the_end_of_the_stream() {
    let mut buffer = ResponseBuffer::new();
    assert!(buffer.absorb(Some(b"abc")));
    assert!(!buffer.absorb(None));
    assert_eq!(buffer.into_bytes(), b"abc".to_vec());
    let mut buffer = ResponseBuffer::new();
    assert!(!buffer.absorb(None));
    assert_eq!(buffer.into_bytes(), Vec::<u8>::new());
}

#[test]
fn collect_concatenates_until_the_stream_ends() {
    let reads = vec![Some(b"he".to_vec()), Some(b"l".to_vec()), Some(b"lo".to_vec()), None];
    assert_eq!(collect(&reads), b"hello".to_vec());
}

#[test]
fn collect_ignores_what_follows_the_end() {
    let reads = vec![Some(b"a".to_vec()), Some(vec![]), Some(b"b".to_vec())];
    assert_eq!(collect(&reads), b"a".to_vec());
    let reads = vec![None, Some(b"late".to_vec())];
    assert_eq!(collect(&reads), Vec::<u8>::new());
}

#[test]
fn collect_of_no_reads_is_empty() {
    assert_eq!(collect(&vec![]), Vec::<u8>::new());
}

#[test]
fn collect_takes_everything_where_no_read_ends_it() {
    let reads = vec![Some(vec![1u8; 1024]), Some(vec![2u8; 1024]), Some(vec![3u8; 5])];
    let body = collect(&reads);
    assert_eq!(body.len(), 2053);
    assert_eq!(body[0], 1);
    assert_eq!(body[1024], 2);
    assert_eq!(body[2052], 3);
}
