use vbulletin_bot::client::CLIENT_NAME;
use vbulletin_bot::client::CLIENT_VERSION;
use vbulletin_bot::client::LOGIN_MARKER;
use vbulletin_bot::client::UNIQUE_ID;
use vbulletin_bot::http::credentials;
use vbulletin_bot::http::Credentials;
use vbulletin_bot::http::Exchange;
use vbulletin_bot::http::FormField;
use vbulletin_bot::http::HttpResponse;
use vbulletin_bot::http::Method;
use vbulletin_bot::VBulletinApi;

fn client_for(base_url: &str, user: &str, pass: &str) -> VBulletinApi {
    let exchange = Exchange::Completed(HttpResponse {
        status: 200,
        reason: "OK".to_string(),
        headers: String::new(),
        body: br#"{"apiversion": 1, "apiclientid": "c", "apiaccesstoken": "t", "secret": "s"}"#.to_vec(),
    });
    VBulletinApi::new(base_url, user, pass, &exchange).unwrap()
}

fn text_field(name: &str, value: &str) -> FormField {
    FormField { name: name.to_string(), value: value.to_string() }
}

#[test]
fn the_constants_are_as_documented() {
    assert_eq!(CLIENT_NAME, "vbulletin-api");
    assert_eq!(CLIENT_VERSION, "1.0");
    assert_eq!(UNIQUE_ID, "555logs");
    assert_eq!(LOGIN_MARKER, "exec_refresh");
}

#[test]
fn the_init_request_is_a_get_of_the_api_url() {
    let request = VBulletinApi::init_request("https://forum.example.com/vb4", "", "");
    assert_eq!(request.method, Method::Get);
    assert_eq!(
        request.url,
        "https://forum.example.com/vb4/api.php?api_m=api_init&clientname=vbulletin-api&clientversion=1.0&platformname=vbulletin-api&platformversion=1.0&uniqueid=555logs"
    );
    assert!(request.form.is_empty());
    assert_eq!(request.basic_auth, None);
}

#[test]
fn the_base_url_is_taken_as_it_is() {
    let request = VBulletinApi::init_request("https://forum.example.com/vb4/", "", "");
    assert!(request.url.starts_with("https://forum.example.com/vb4//api.php?api_m=api_init&"));
    let request = VBulletinApi::init_request("", "", "");
    assert!(request.url.starts_with("/api.php?api_m=api_init&"));
    let api = client_for("http://h/f\u{f6}o", "", "");
    assert_eq!(api.login_request("", "").url, "http://h/f\u{f6}o/login.php?do=login&s=");
}

#[test]
fn no_credentials_are_sent_unless_both_are_given() {
    assert_eq!(credentials("", ""), None);
    assert_eq!(credentials("user", ""), None);
    assert_eq!(credentials("", "pass"), None);
    assert_eq!(VBulletinApi::init_request("u", "", "").basic_auth, None);
    assert_eq!(VBulletinApi::init_request("u", "user", "").basic_auth, None);
    assert_eq!(VBulletinApi::init_request("u", "", "pass").basic_auth, None);
    assert_eq!(client_for("u", "", "").login_request("a", "b").basic_auth, None);
    assert_eq!(client_for("u", "user", "").login_request("a", "b").basic_auth, None);
    assert_eq!(client_for("u", "", "pass").login_request("a", "b").basic_auth, None);
}

#[test]
fn both_credentials_are_sent_where_both_are_given() {
    let expected = Some(Credentials { user: "door".to_string(), password: "k\u{e9}y:1".to_string() });
    assert_eq!(credentials("door", "k\u{e9}y:1"), expected);
    assert_eq!(VBulletinApi::init_request("u", "door", "k\u{e9}y:1").basic_auth, expected);
    assert_eq!(
        client_for("u", "door", "k\u{e9}y:1").login_request("a", "b").basic_auth,
        expected
    );
    let single = Some(Credentials { user: " ".to_string(), password: "x".to_string() });
    assert_eq!(credentials(" ", "x"), single);
}

#[test]
fn the_login_request_posts_the_login_form() {
    let api = client_for("https://forum.example.com/vb4", "", "");
    let request = api.login_request("alice", "s3cr\u{e9}t pass");
    assert_eq!(request.method, Method::Post);
    assert_eq!(request.url, "https://forum.example.com/vb4/login.php?do=login&s=");
    assert_eq!(
        request.form,
        vec![
            text_field("do", "login"),
            text_field("securitytoken", "guest"),
            text_field("s", ""),
            text_field("cookieuser", "1"),
            text_field("vb_login_username", "alice"),
            text_field("vb_login_password", "s3cr\u{e9}t pass"),
        ]
    );
}

#[test]
fn the_login_request_takes_any_user_name_and_password() {
    let api = client_for("b", "", "");
    let request = api.login_request("", "");
    assert_eq!(request.form.len(), 6);
    assert_eq!(request.form[4], text_field("vb_login_username", ""));
    assert_eq!(request.form[5], text_field("vb_login_password", ""));
    let long = "x".repeat(10000);
    let request = api.login_request(&long, "&=?\n");
    assert_eq!(request.form[4].value, long);
    assert_eq!(request.form[5].value, "&=?\n");
}
