use netsup::hardware::HardwareCell;
use netsup::http::{
    find_terminator, handle_request, parse_request_line, render_minimal_ok, FeedOutcome, Method,
    RecvBuffer,
};

fn feed_all(buf: &mut RecvBuffer, bytes: &[u8]) -> FeedOutcome {
    buf.feed(bytes)
}

#[test]
fn terminator_found_exactly_when_present() {
    let data = b"GET / HTTP/1.0\r\n\r\n".to_vec();
    assert!(find_terminator(&data, data.len()));
    let partial = b"GET / HTTP/1.0\r\n".to_vec();
    assert!(!find_terminator(&partial, partial.len()));
    assert!(!find_terminator(&data, 16));
}

#[test]
fn buffer_accumulates_across_reads_until_terminator() {
    let mut buf = RecvBuffer::new(1024);
    assert_eq!(feed_all(&mut buf, b"GET / HT"), FeedOutcome::NeedMore);
    assert_eq!(feed_all(&mut buf, b"TP/1.0\r\n"), FeedOutcome::NeedMore);
    assert_eq!(feed_all(&mut buf, b"\r\n"), FeedOutcome::Complete);
    assert_eq!(buf.pos, 18);
}

#[test]
fn oversized_request_without_terminator_is_malformed() {
    let mut buf = RecvBuffer::new(8);
    assert_eq!(feed_all(&mut buf, b"GET /abc"), FeedOutcome::NeedMore);
    // The buffer is full and the terminator never arrived: the next
    // chunk cannot fit and the request is abandoned as malformed.
    assert_eq!(feed_all(&mut buf, b"d"), FeedOutcome::Overflow);
    assert_eq!(buf.pos, 8);
}

#[test]
fn reset_forgets_the_previous_connection() {
    let mut buf = RecvBuffer::new(64);
    feed_all(&mut buf, b"GET / HTTP/1.0\r\n\r\n");
    buf.reset();
    assert_eq!(buf.pos, 0);
    assert_eq!(feed_all(&mut buf, b"POST"), FeedOutcome::NeedMore);
}

#[test]
fn request_line_parses_method_and_path() {
    let data = b"GET /off HTTP/1.0\r\n\r\n".to_vec();
    let rl = parse_request_line(&data, data.len()).unwrap();
    assert_eq!(rl.method, Method::Get);
    assert_eq!(rl.path, b"/off".to_vec());

    let data = b"POST / HTTP/1.0\r\n\r\n".to_vec();
    let rl = parse_request_line(&data, data.len()).unwrap();
    assert_eq!(rl.method, Method::Other);
    assert_eq!(rl.path, b"/".to_vec());
}

#[test]
fn request_line_without_two_spaces_is_malformed() {
    let data = b"GARBAGE\r\n\r\n".to_vec();
    assert!(parse_request_line(&data, data.len()).is_none());
    let data = b"GET\r\n\r\n".to_vec();
    assert!(parse_request_line(&data, data.len()).is_none());
}

#[test]
fn minimal_server_emits_the_exact_status_line_and_body() {
    let body = b"<html><body><h1>Hello</h1></body></html>";
    let resp = render_minimal_ok(body);
    let mut expected = b"HTTP/1.0 200 OK\r\n\r\n".to_vec();
    expected.extend_from_slice(body);
    assert_eq!(resp, expected);
}

#[test]
fn get_root_answers_hello_with_content_type() {
    let data = b"GET / HTTP/1.0\r\n\r\n".to_vec();
    let mut cell = HardwareCell::new(false);
    let resp = handle_request(&data, data.len(), &mut cell).unwrap();
    assert_eq!(
        resp,
        b"HTTP/1.0 200 OK\r\nContent-Type: text/plain\r\n\r\nHello world!".to_vec()
    );
    assert!(!cell.on);
}

#[test]
fn get_off_turns_the_flag_off_and_reports_off() {
    let data = b"GET /off HTTP/1.0\r\n\r\n".to_vec();
    let mut cell = HardwareCell::new(true);
    let resp = handle_request(&data, data.len(), &mut cell).unwrap();
    assert!(!cell.on);
    assert_eq!(
        resp,
        b"HTTP/1.0 200 OK\r\nContent-Type: text/plain\r\n\r\nOFF".to_vec()
    );
}

#[test]
fn get_on_turns_the_flag_on_and_reports_on() {
    let data = b"GET /on HTTP/1.0\r\n\r\n".to_vec();
    let mut cell = HardwareCell::new(false);
    let resp = handle_request(&data, data.len(), &mut cell).unwrap();
    assert!(cell.on);
    assert_eq!(
        resp,
        b"HTTP/1.0 200 OK\r\nContent-Type: text/plain\r\n\r\nON".to_vec()
    );
}

#[test]
fn get_toggle_flips_the_flag_and_reports_the_new_state() {
    let data = b"GET /toggle HTTP/1.0\r\n\r\n".to_vec();
    let mut cell = HardwareCell::new(false);
    let resp = handle_request(&data, data.len(), &mut cell).unwrap();
    assert!(cell.on);
    assert!(resp.ends_with(b"ON"));
    let resp = handle_request(&data, data.len(), &mut cell).unwrap();
    assert!(!cell.on);
    assert!(resp.ends_with(b"OFF"));
}

#[test]
fn unknown_path_is_not_found_and_leaves_the_flag_alone() {
    let data = b"GET /nope HTTP/1.0\r\n\r\n".to_vec();
    let mut cell = HardwareCell::new(true);
    let resp = handle_request(&data, data.len(), &mut cell).unwrap();
    assert!(cell.on);
    assert_eq!(resp, b"HTTP/1.0 404 Not Found\r\n\r\n".to_vec());
}

#[test]
fn non_get_is_method_not_allowed() {
    let data = b"POST /off HTTP/1.0\r\n\r\n".to_vec();
    let mut cell = HardwareCell::new(true);
    let resp = handle_request(&data, data.len(), &mut cell).unwrap();
    assert!(cell.on);
    assert_eq!(resp, b"HTTP/1.0 405 Method Not Allowed\r\n\r\n".to_vec());
}

#[test]
fn malformed_request_line_gets_no_response() {
    let data = b"NONSENSE\r\n\r\n".to_vec();
    let mut cell = HardwareCell::new(true);
    assert!(handle_request(&data, data.len(), &mut cell).is_none());
    assert!(cell.on);
}
