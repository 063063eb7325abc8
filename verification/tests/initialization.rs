use vbulletin_bot::http::Exchange;
use vbulletin_bot::http::HttpResponse;
use vbulletin_bot::VBulletinApi;

const GOOD: &str =
    r#"{"apiversion": 4, "apiclientid": "17", "apiaccesstoken": "abc", "secret": "s3"}"#;

fn init_reply(status: u16, reason: &str, body: &[u8]) -> Exchange {
    Exchange::Completed(HttpResponse {
        status,
        reason: reason.to_string(),
        headers: "{}".to_string(),
        body: body.to_vec(),
    })
}

fn init_with(body: &str) -> Result<VBulletinApi, String> {
    VBulletinApi::new(
        "https://forum.example.com/vb4",
        "",
        "",
        &init_reply(200, "OK", body.as_bytes()),
    )
}

#[test]
fn initialization_reads_the_four_members() {
    let api = init_with(GOOD).unwrap();
    assert_eq!(api.data().version(), 4);
    assert_eq!(api.data().client_id(), "17");
    assert_eq!(api.data().access_token(), "abc");
    assert_eq!(api.data().secret(), "s3");
    assert_eq!(api.base_url(), "https://forum.example.com/vb4");
}

#[test]
fn initialization_ignores_member_order_and_extra_members() {
    let body = r#"{"secret": "d", "extra": [1, 2], "apiaccesstoken": "c", "apiclientid": "b", "apiversion": 1, "apiconfig": {"a": null}}"#;
    let api = init_with(body).unwrap();
    assert_eq!(api.data().version(), 1);
    assert_eq!(api.data().client_id(), "b");
    assert_eq!(api.data().access_token(), "c");
    assert_eq!(api.data().secret(), "d");
}

#[test]
fn initialization_keeps_the_version_as_the_integer_it_is() {
    let body = r#"{"apiversion": 4294967296, "apiclientid": "", "apiaccesstoken": "", "secret": ""}"#;
    assert_eq!(init_with(body).unwrap().data().version(), 4294967296);
    let body = r#"{"apiversion": 18446744073709551615, "apiclientid": "", "apiaccesstoken": "", "secret": ""}"#;
    assert_eq!(init_with(body).unwrap().data().version(), u64::MAX);
    let body = r#"{"apiversion": 0, "apiclientid": "", "apiaccesstoken": "", "secret": ""}"#;
    assert_eq!(init_with(body).unwrap().data().version(), 0);
}

#[test]
fn initialization_keeps_strings_character_for_character() {
    let body = "{\"apiversion\": 2, \"apiclientid\": \"a\\u00e9\\\"b\\\\\", \"apiaccesstoken\": \"t\u{00fc}r \u{1F600}\", \"secret\": \" x\\n\"}";
    let api = init_with(body).unwrap();
    assert_eq!(api.data().client_id(), "a\u{e9}\"b\\");
    assert_eq!(api.data().access_token(), "t\u{fc}r \u{1F600}");
    assert_eq!(api.data().secret(), " x\n");
}

#[test]
fn missing_version_is_reported_with_the_body() {
    let body = r#"{"apiclientid": "17", "apiaccesstoken": "abc", "secret": "s3"}"#;
    assert_eq!(
        init_with(body).unwrap_err(),
        format!("Response contains no 'apiversion'!\nResponse is:\n{}\n", body)
    );
}

#[test]
fn missing_client_id_is_reported() {
    let body = r#"{"apiversion": 4, "apiaccesstoken": "abc", "secret": "s3"}"#;
    assert_eq!(init_with(body).unwrap_err(), "Response contains no 'apiclientid'!");
}

#[test]
fn missing_access_token_is_reported() {
    let body = r#"{"apiversion": 4, "apiclientid": "17", "secret": "s3"}"#;
    assert_eq!(init_with(body).unwrap_err(), "Response contains no 'apiaccesstoken'!");
}

#[test]
fn missing_secret_is_reported() {
    let body = r#"{"apiversion": 4, "apiclientid": "17", "apiaccesstoken": "abc"}"#;
    assert_eq!(init_with(body).unwrap_err(), "Response contains no 'secret'!");
}

#[test]
fn mistyped_version_is_reported() {
    for version in ["\"4\"", "-4", "4.0", "4.5", "18446744073709551616", "null", "true", "[4]", "{}"] {
        let body = format!(
            r#"{{"apiversion": {}, "apiclientid": "17", "apiaccesstoken": "abc", "secret": "s3"}}"#,
            version
        );
        assert_eq!(
            init_with(&body).unwrap_err(),
            "Response contains 'apiversion', but it's not an integer!"
        );
    }
}

#[test]
fn mistyped_client_id_is_reported_with_the_body() {
    let body = r#"{"apiversion": 4, "apiclientid": 17, "apiaccesstoken": "abc", "secret": "s3"}"#;
    assert_eq!(
        init_with(body).unwrap_err(),
        format!(
            "Response contains 'apiclientid', but it's not a string!\nResponse is:\n{}\n",
            body
        )
    );
}

#[test]
fn mistyped_access_token_is_reported() {
    let body = r#"{"apiversion": 4, "apiclientid": "17", "apiaccesstoken": null, "secret": "s3"}"#;
    assert_eq!(
        init_with(body).unwrap_err(),
        "Response contains 'apiaccesstoken', but it's not a string!"
    );
}

#[test]
fn mistyped_secret_is_reported() {
    let body = r#"{"apiversion": 4, "apiclientid": "17", "apiaccesstoken": "abc", "secret": ["s3"]}"#;
    assert_eq!(
        init_with(body).unwrap_err(),
        "Response contains 'secret', but it's not a string!"
    );
}

#[test]
fn the_first_member_at_fault_is_the_one_reported() {
    let body = r#"{"apiversion": "4", "apiaccesstoken": 1}"#;
    assert_eq!(
        init_with(body).unwrap_err(),
        "Response contains 'apiversion', but it's not an integer!"
    );
    let body = r#"{"apiversion": 4, "apiclientid": "17", "apiaccesstoken": 1}"#;
    assert_eq!(
        init_with(body).unwrap_err(),
        "Response contains 'apiaccesstoken', but it's not a string!"
    );
    let body = r#"{"apiversion": 4, "secret": 1}"#;
    assert_eq!(init_with(body).unwrap_err(), "Response contains no 'apiclientid'!");
}

#[test]
fn a_document_that_is_no_object_has_no_members() {
    for body in ["[1, 2]", "null", "\"apiversion\"", "4", "true"] {
        assert_eq!(
            init_with(body).unwrap_err(),
            format!("Response contains no 'apiversion'!\nResponse is:\n{}\n", body)
        );
    }
}

#[test]
fn member_names_are_matched_exactly() {
    let body = r#"{"ApiVersion": 4, "apiversion ": 4, "apiclientid": "17", "apiaccesstoken": "abc", "secret": "s3"}"#;
    assert_eq!(
        init_with(body).unwrap_err(),
        format!("Response contains no 'apiversion'!\nResponse is:\n{}\n", body)
    );
}

#[test]
fn a_body_that_is_no_json_is_reported_with_the_parse_error() {
    assert_eq!(
        init_with("<html>").unwrap_err(),
        "Failed to deserialize JSON from API: expected value at line 1 column 1"
    );
    assert_eq!(
        init_with("").unwrap_err(),
        "Failed to deserialize JSON from API: EOF while parsing a value at line 1 column 0"
    );
    assert_eq!(
        init_with("{\"apiversion\": 4} x").unwrap_err(),
        "Failed to deserialize JSON from API: trailing characters at line 1 column 19"
    );
}

#[test]
fn any_status_but_200_fails_initialization_with_the_code_in_the_text() {
    let failed = VBulletinApi::new("u", "", "", &init_reply(404, "Not Found", GOOD.as_bytes()));
    assert_eq!(
        failed.unwrap_err(),
        format!(
            "HTTP request failed with unexpected status code: 404 Not Found\nHeaders:\n{{}}\nBody:\n{}",
            GOOD
        )
    );
    for status in [0u16, 1, 9, 10, 99, 100, 199, 201, 204, 301, 500, 999, 1000, 9999, 10000, 65535] {
        let failed = VBulletinApi::new("u", "", "", &init_reply(status, "x", GOOD.as_bytes()));
        let text = failed.unwrap_err();
        assert!(text.starts_with(&format!(
            "HTTP request failed with unexpected status code: {} x\n",
            status
        )));
        assert!(text.contains(&status.to_string()));
    }
}

#[test]
fn the_status_failure_quotes_headers_and_body() {
    let exchange = Exchange::Completed(HttpResponse {
        status: 503,
        reason: "Service Unavailable".to_string(),
        headers: "{\n    \"retry-after\": \"120\",\n}".to_string(),
        body: b"down for maintenance".to_vec(),
    });
    assert_eq!(
        VBulletinApi::api_init(&exchange).unwrap_err(),
        "HTTP request failed with unexpected status code: 503 Service Unavailable\nHeaders:\n{\n    \"retry-after\": \"120\",\n}\nBody:\ndown for maintenance"
    );
}

#[test]
fn a_request_that_could_not_be_sent_fails_initialization() {
    let exchange = Exchange::SendFailed("connection refused".to_string());
    assert_eq!(
        VBulletinApi::new("u", "", "", &exchange).unwrap_err(),
        "API request failed: connection refused"
    );
}

#[test]
fn a_body_that_could_not_be_read_fails_initialization() {
    let exchange = Exchange::ReadFailed("unexpected end of file".to_string());
    assert_eq!(
        VBulletinApi::new("u", "", "", &exchange).unwrap_err(),
        "Failed to read API response: unexpected end of file"
    );
}

#[test]
fn bytes_that_are_no_utf8_are_replaced_and_then_parsed() {
    let body = b"{\"apiversion\": 3, \"apiclientid\": \"caf\xe9\", \"apiaccesstoken\": \"\xff\xfe\", \"secret\": \"gr\xfc\xdfe\"}";
    let api = VBulletinApi::new("u", "", "", &init_reply(200, "OK", body)).unwrap();
    assert_eq!(api.data().version(), 3);
    assert_eq!(api.data().client_id(), "caf\u{fffd}");
    assert_eq!(api.data().access_token(), "\u{fffd}\u{fffd}");
    assert_eq!(api.data().secret(), "gr\u{fffd}\u{fffd}e");
}

#[test]
fn bytes_that_are_no_utf8_are_replaced_in_failure_texts() {
    let failed = VBulletinApi::new("u", "", "", &init_reply(500, "Internal Server Error", b"Stra\xdfe"));
    assert_eq!(
        failed.unwrap_err(),
        "HTTP request failed with unexpected status code: 500 Internal Server Error\nHeaders:\n{}\nBody:\nStra\u{fffd}e"
    );
    let failed = VBulletinApi::new("u", "", "", &init_reply(200, "OK", b"{\"x\": \"\xe4\"}"));
    assert_eq!(
        failed.unwrap_err(),
        "Response contains no 'apiversion'!\nResponse is:\n{\"x\": \"\u{fffd}\"}\n"
    );
}

#[test]
fn the_client_keeps_the_configuration_it_was_made_for() {
    let exchange = init_reply(200, "OK", GOOD.as_bytes());
    let api = VBulletinApi::new("https://f.example/", "door", "key", &exchange).unwrap();
    assert_eq!(api.base_url(), "https://f.example/");
    let request = api.login_request("u", "p");
    let credentials = request.basic_auth.unwrap();
    assert_eq!(credentials.user, "door");
    assert_eq!(credentials.password, "key");
}
