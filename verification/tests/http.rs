use vbulletin_bot::http::HttpResponse;
use vbulletin_bot::http::Reply;
use vbulletin_bot::http::STATUS_OK;

fn raw(status: u16, body: &[u8]) -> HttpResponse {
    HttpResponse {
        status,
        reason: "Reason".to_string(),
        headers: "Headers".to_string(),
        body: body.to_vec(),
    }
}

#[test]
fn decoding_keeps_status_reason_and_headers() {
    let reply = raw(418, b"tea").decode();
    assert_eq!(
        reply,
        Reply {
            status: 418,
            reason: "Reason".to_string(),
            headers: "Headers".to_string(),
            text: "tea".to_string(),
        }
    );
}

#[test]
fn decoding_reads_well_formed_utf8_as_it_is() {
    assert_eq!(raw(200, b"").decode().text, "");
    assert_eq!(raw(200, "Gr\u{fc}\u{df}e \u{1F600}".as_bytes()).decode().text, "Gr\u{fc}\u{df}e \u{1F600}");
    assert_eq!(raw(200, b"\xc3\xa9").decode().text, "\u{e9}");
}

#[test]
fn decoding_replaces_what_is_no_utf8() {
    assert_eq!(raw(200, b"\xe9").decode().text, "\u{fffd}");
    assert_eq!(raw(200, b"caf\xe9 au lait").decode().text, "caf\u{fffd} au lait");
    assert_eq!(raw(200, b"\xff\xfe").decode().text, "\u{fffd}\u{fffd}");
    assert_eq!(raw(200, b"a\xc3").decode().text, "a\u{fffd}");
    assert_eq!(raw(200, b"\xed\xa0\x80").decode().text, "\u{fffd}\u{fffd}\u{fffd}");
    assert_eq!(raw(200, b"\xc0\xaf").decode().text, "\u{fffd}\u{fffd}");
}

#[test]
fn status_200_is_the_only_one_expected() {
    assert_eq!(STATUS_OK, 200);
    assert_eq!(raw(200, b"x").decode().unexpected_status(), None);
    for status in [0u16, 199, 201, 204, 206, 304, 400, 65535] {
        assert!(raw(status, b"x").decode().unexpected_status().is_some());
    }
}

#[test]
fn the_status_failure_reports_code_reason_headers_and_body() {
    let reply = Reply {
        status: 502,
        reason: "Bad Gateway".to_string(),
        headers: "{\n    \"server\": \"nginx\",\n}".to_string(),
        text: "<html>502</html>".to_string(),
    };
    assert_eq!(
        reply.unexpected_status(),
        Some("HTTP request failed with unexpected status code: 502 Bad Gateway\nHeaders:\n{\n    \"server\": \"nginx\",\n}\nBody:\n<html>502</html>".to_string())
    );
    let reply = Reply {
        status: 299,
        reason: "<unknown status code>".to_string(),
        headers: String::new(),
        text: String::new(),
    };
    assert_eq!(
        reply.unexpected_status(),
        Some("HTTP request failed with unexpected status code: 299 <unknown status code>\nHeaders:\n\nBody:\n".to_string())
    );
}
