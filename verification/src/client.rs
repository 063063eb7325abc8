//! The API client: the two-step handshake of initialization and login.
//!
//! Each step has two halves. The first builds the request that is to be
//! sent; the second reads what came back. Sending is the caller's part.

use vstd::prelude::*;
use vstd::string::*;

use crate::http::basic_auth;
use crate::http::credentials;
use crate::http::decoded;
use crate::http::unexpected_status;
use crate::http::Exchange;
use crate::http::ExchangeView;
use crate::http::FormField;
use crate::http::FormFieldView;
use crate::http::HttpRequest;
use crate::http::HttpRequestView;
use crate::http::Method;
use crate::session::document_outcome;
use crate::session::ApiData;
use crate::session::ApiDataView;
use crate::text::contains;
use crate::text::is_substring;
use crate::text::outcome_view;

verus! {

/// The name under which the client introduces itself, also as its platform.
pub const CLIENT_NAME: &'static str = "vbulletin-api";

/// The version under which the client introduces itself, also as its
/// platform's.
pub const CLIENT_VERSION: &'static str = "1.0";

/// The device identifier that the client sends.
pub const UNIQUE_ID: &'static str = "555logs";

/// The text whose presence in the reply to a login marks success: the
/// server's redirect script holds it, and the server sends that script only
/// after a login that worked.
pub const LOGIN_MARKER: &'static str = "exec_refresh";

/// The URL of the initialization call.
pub open spec fn init_url(base_url: Seq<char>) -> Seq<char> {
    base_url + "/api.php?api_m=api_init&clientname="@ + CLIENT_NAME@ + "&clientversion="@
        + CLIENT_VERSION@ + "&platformname="@ + CLIENT_NAME@ + "&platformversion="@
        + CLIENT_VERSION@ + "&uniqueid="@ + UNIQUE_ID@
}

/// The initialization request: a GET without a body.
pub open spec fn init_request_view(
    base_url: Seq<char>,
    basic_auth_user: Seq<char>,
    basic_auth_pass: Seq<char>,
) -> HttpRequestView {
    HttpRequestView {
        method: Method::Get,
        url: init_url(base_url),
        basic_auth: basic_auth(basic_auth_user, basic_auth_pass),
        form: Seq::empty(),
    }
}

/// The URL of the login call.
pub open spec fn login_url(base_url: Seq<char>) -> Seq<char> {
    base_url + "/login.php?do=login&s="@
}

/// The form that the login call posts: four fixed fields, then the user name
/// and the password.
pub open spec fn login_form(username: Seq<char>, password: Seq<char>) -> Seq<FormFieldView> {
    seq![
        FormFieldView { name: "do"@, value: "login"@ },
        FormFieldView { name: "securitytoken"@, value: "guest"@ },
        FormFieldView { name: "s"@, value: ""@ },
        FormFieldView { name: "cookieuser"@, value: "1"@ },
        FormFieldView { name: "vb_login_username"@, value: username },
        FormFieldView { name: "vb_login_password"@, value: password },
    ]
}

/// The login request of a client: a POST of the login form.
pub open spec fn login_request_view(
    client: VBulletinApiView,
    username: Seq<char>,
    password: Seq<char>,
) -> HttpRequestView {
    HttpRequestView {
        method: Method::Post,
        url: login_url(client.base_url),
        basic_auth: basic_auth(client.basic_auth_user, client.basic_auth_pass),
        form: login_form(username, password),
    }
}

/// What the exchange of the initialization call amounts to: the session
/// identity, or the failure text.
pub open spec fn init_outcome(exchange: ExchangeView) -> Result<ApiDataView, Seq<char>> {
    match exchange {
        ExchangeView::SendFailed(reason) => Err("API request failed: "@ + reason),
        ExchangeView::ReadFailed(reason) => Err("Failed to read API response: "@ + reason),
        ExchangeView::Completed(response) => match unexpected_status(decoded(response)) {
            Some(text) => Err(text),
            None => document_outcome(decoded(response).text),
        },
    }
}

/// What making a client from the exchange of the initialization call
/// amounts to: the client with its session identity and the configuration
/// it was made for, or the failure text.
pub open spec fn client_outcome(
    base_url: Seq<char>,
    basic_auth_user: Seq<char>,
    basic_auth_pass: Seq<char>,
    exchange: ExchangeView,
) -> Result<VBulletinApiView, Seq<char>> {
    match init_outcome(exchange) {
        Ok(data) => Ok(VBulletinApiView { data, base_url, basic_auth_user, basic_auth_pass }),
        Err(text) => Err(text),
    }
}

/// What a reply with status 200 and body `text` means for a login: success
/// if the marker stands anywhere in the text, one fixed failure text if not.
pub open spec fn login_verdict(text: Seq<char>) -> Result<(), Seq<char>> {
    if is_substring(text, LOGIN_MARKER@) {
        Ok(())
    } else {
        Err("Login has failed."@)
    }
}

/// What the exchange of a login call amounts to.
pub open spec fn login_outcome(exchange: ExchangeView) -> Result<(), Seq<char>> {
    match exchange {
        ExchangeView::SendFailed(reason) => Err("Login request failed: "@ + reason),
        ExchangeView::ReadFailed(reason) => Err("Failed to read API response: "@ + reason),
        ExchangeView::Completed(response) => match unexpected_status(decoded(response)) {
            Some(text) => Err(text),
            None => login_verdict(decoded(response).text),
        },
    }
}

fn prefixed(prefix: &str, reason: &str) -> (s: String)
    ensures
        s@ == prefix@ + reason@,
{
    let mut s = String::from_str(prefix);
    s.append(reason);
    s
}

fn form_field(name: &str, value: &str) -> (field: FormField)
    ensures
        field@ == (FormFieldView { name: name@, value: value@ }),
{
    FormField { name: name.to_owned(), value: value.to_owned() }
}

/// A client that has completed initialization.
#[derive(Debug, Clone, PartialEq, Eq)]
pub struct VBulletinApi {
    data: ApiData,
    base_url: String,
    basic_auth_user: String,
    basic_auth_pass: String,
}

/// A [`VBulletinApi`] as seen by contracts.
pub struct VBulletinApiView {
    /// The session identity.
    pub data: ApiDataView,
    /// The root URL of the forum.
    pub base_url: Seq<char>,
    /// The user for HTTP Basic authentication, empty for none.
    pub basic_auth_user: Seq<char>,
    /// The password for HTTP Basic authentication, empty for none.
    pub basic_auth_pass: Seq<char>,
}

impl View for VBulletinApi {
    type V = VBulletinApiView;

    closed spec fn view(&self) -> VBulletinApiView {
        VBulletinApiView {
            data: self.data@,
            base_url: self.base_url@,
            basic_auth_user: self.basic_auth_user@,
            basic_auth_pass: self.basic_auth_pass@,
        }
    }
}

impl VBulletinApi {
    /// The request that opens the handshake.
    pub fn init_request(base_url: &str, basic_auth_user: &str, basic_auth_pass: &str) -> (request:
        HttpRequest)
        ensures
            request@ == init_request_view(base_url@, basic_auth_user@, basic_auth_pass@),
    {
        let mut url = String::from_str(base_url);
        url.append("/api.php?api_m=api_init&clientname=");
        url.append(CLIENT_NAME);
        url.append("&clientversion=");
        url.append(CLIENT_VERSION);
        url.append("&platformname=");
        url.append(CLIENT_NAME);
        url.append("&platformversion=");
        url.append(CLIENT_VERSION);
        url.append("&uniqueid=");
        url.append(UNIQUE_ID);
        let request = HttpRequest {
            method: Method::Get,
            url,
            basic_auth: credentials(basic_auth_user, basic_auth_pass),
            form: Vec::new(),
        };
        assert(request@.form =~= Seq::empty());
        request
    }

    /// Reads the session identity from the exchange of the initialization
    /// call: the body is decoded leniently, the status must be 200, the text
    /// must be a JSON document, and the four required members must be there
    /// with their types.
    pub fn api_init(exchange: &Exchange) -> (r: Result<ApiData, String>)
        ensures
            outcome_view(r) == init_outcome(exchange@),
    {
        match exchange {
            Exchange::SendFailed(reason) => Err(prefixed("API request failed: ", reason.as_str())),
            Exchange::ReadFailed(reason) => Err(
                prefixed("Failed to read API response: ", reason.as_str()),
            ),
            Exchange::Completed(response) => {
                let reply = response.decode();
                match reply.unexpected_status() {
                    Some(text) => Err(text),
                    None => ApiData::from_document(reply.text.as_str()),
                }
            },
        }
    }

    /// Makes the client from the exchange of the initialization call, which
    /// was made with [`VBulletinApi::init_request`] for the same three
    /// arguments. There is no client without a session identity.
    pub fn new(
        base_url: &str,
        basic_auth_user: &str,
        basic_auth_pass: &str,
        exchange: &Exchange,
    ) -> (r: Result<VBulletinApi, String>)
        ensures
            outcome_view(r) == client_outcome(
                base_url@,
                basic_auth_user@,
                basic_auth_pass@,
                exchange@,
            ),
    {
        match VBulletinApi::api_init(exchange) {
            Ok(data) => Ok(
                VBulletinApi {
                    data,
                    base_url: base_url.to_owned(),
                    basic_auth_user: basic_auth_user.to_owned(),
                    basic_auth_pass: basic_auth_pass.to_owned(),
                },
            ),
            Err(text) => Err(text),
        }
    }

    /// The session identity.
    pub fn data(&self) -> (data: &ApiData)
        ensures
            data@ == self@.data,
    {
        &self.data
    }

    /// The root URL of the forum.
    pub fn base_url(&self) -> (s: &str)
        ensures
            s@ == self@.base_url,
    {
        self.base_url.as_str()
    }

    /// The request for a login with the given forum credentials.
    pub fn login_request(&self, username: &str, password: &str) -> (request: HttpRequest)
        ensures
            request@ == login_request_view(self@, username@, password@),
    {
        let mut url = String::from_str(self.base_url.as_str());
        url.append("/login.php?do=login&s=");
        let mut form: Vec<FormField> = Vec::new();
        form.push(form_field("do", "login"));
        form.push(form_field("securitytoken", "guest"));
        form.push(form_field("s", ""));
        form.push(form_field("cookieuser", "1"));
        form.push(form_field("vb_login_username", username));
        form.push(form_field("vb_login_password", password));
        let request = HttpRequest {
            method: Method::Post,
            url,
            basic_auth: credentials(self.basic_auth_user.as_str(), self.basic_auth_pass.as_str()),
            form,
        };
        assert(request@.form =~= login_form(username@, password@));
        request
    }

    /// Judges the text of a reply to a login call that came with status 200.
    pub fn login_verdict(text: &str) -> (r: Result<(), String>)
        ensures
            outcome_view(r) == login_verdict(text@),
    {
        if contains(text, LOGIN_MARKER) {
            Ok(())
        } else {
            Err(String::from_str("Login has failed."))
        }
    }

    /// Reads the exchange of a login call: success if the reply has status
    /// 200 and its leniently decoded body holds the login marker. The client
    /// itself is left as it was.
    pub fn login(&self, exchange: &Exchange) -> (r: Result<(), String>)
        ensures
            outcome_view(r) == login_outcome(exchange@),
    {
        match exchange {
            Exchange::SendFailed(reason) => Err(
                prefixed("Login request failed: ", reason.as_str()),
            ),
            Exchange::ReadFailed(reason) => Err(
                prefixed("Failed to read API response: ", reason.as_str()),
            ),
            Exchange::Completed(response) => {
                let reply = response.decode();
                match reply.unexpected_status() {
                    Some(text) => Err(text),
                    None => VBulletinApi::login_verdict(reply.text.as_str()),
                }
            },
        }
    }
}

} // verus!
