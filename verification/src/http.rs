//! Requests and responses as plain values.
//!
//! The client decides what is sent and what a reply means; carrying a request
//! over the network is left to the caller, who hands back an [`Exchange`].

use vstd::prelude::*;
use vstd::string::*;
use vstd::utf8::*;

use crate::text::decimal;
use crate::text::decimal_text;
use crate::text::decode_lossy;
use crate::text::lossy_text;

verus! {

/// The only status code that counts as success.
pub const STATUS_OK: u16 = 200;

/// The request methods that the client uses.
#[derive(Debug, Clone, Copy, PartialEq, Eq, Structural)]
pub enum Method {
    Get,
    Post,
}

/// A user name and password for HTTP Basic authentication.
#[derive(Debug, Clone, PartialEq, Eq)]
pub struct Credentials {
    pub user: String,
    pub password: String,
}

/// [`Credentials`] as seen by contracts.
pub struct CredentialsView {
    pub user: Seq<char>,
    pub password: Seq<char>,
}

impl View for Credentials {
    type V = CredentialsView;

    open spec fn view(&self) -> CredentialsView {
        CredentialsView { user: self.user@, password: self.password@ }
    }
}

/// One text field of a multipart form.
#[derive(Debug, Clone, PartialEq, Eq)]
pub struct FormField {
    pub name: String,
    pub value: String,
}

/// A [`FormField`] as seen by contracts.
pub struct FormFieldView {
    pub name: Seq<char>,
    pub value: Seq<char>,
}

impl View for FormField {
    type V = FormFieldView;

    open spec fn view(&self) -> FormFieldView {
        FormFieldView { name: self.name@, value: self.value@ }
    }
}

/// A request that the caller is to send.
#[derive(Debug, Clone, PartialEq, Eq)]
pub struct HttpRequest {
    pub method: Method,
    /// The full URL, query string included.
    pub url: String,
    /// Credentials to send as HTTP Basic authentication, if any.
    pub basic_auth: Option<Credentials>,
    /// The text fields of the multipart form body, in order; empty where the
    /// request has no body.
    pub form: Vec<FormField>,
}

/// An [`HttpRequest`] as seen by contracts.
pub struct HttpRequestView {
    pub method: Method,
    pub url: Seq<char>,
    pub basic_auth: Option<CredentialsView>,
    pub form: Seq<FormFieldView>,
}

impl View for HttpRequest {
    type V = HttpRequestView;

    open spec fn view(&self) -> HttpRequestView {
        HttpRequestView {
            method: self.method,
            url: self.url@,
            basic_auth: match self.basic_auth {
                Some(credentials) => Some(credentials@),
                None => None,
            },
            form: self.form@.map_values(|field: FormField| field@),
        }
    }
}

/// A response as it was received.
#[derive(Debug, Clone, PartialEq, Eq)]
pub struct HttpResponse {
    /// The status code.
    pub status: u16,
    /// The reason phrase that goes with the status code.
    pub reason: String,
    /// The response headers, rendered as text for diagnosis.
    pub headers: String,
    /// The body as raw bytes, in whatever encoding the server chose.
    pub body: Vec<u8>,
}

/// An [`HttpResponse`] as seen by contracts.
pub struct HttpResponseView {
    pub status: u16,
    pub reason: Seq<char>,
    pub headers: Seq<char>,
    pub body: Seq<u8>,
}

impl View for HttpResponse {
    type V = HttpResponseView;

    open spec fn view(&self) -> HttpResponseView {
        HttpResponseView {
            status: self.status,
            reason: self.reason@,
            headers: self.headers@,
            body: self.body@,
        }
    }
}

/// A response whose body has been decoded to text.
#[derive(Debug, Clone, PartialEq, Eq)]
pub struct Reply {
    /// The status code.
    pub status: u16,
    /// The reason phrase that goes with the status code.
    pub reason: String,
    /// The response headers, rendered as text for diagnosis.
    pub headers: String,
    /// The body as text.
    pub text: String,
}

/// A [`Reply`] as seen by contracts.
pub struct ReplyView {
    pub status: u16,
    pub reason: Seq<char>,
    pub headers: Seq<char>,
    pub text: Seq<char>,
}

impl View for Reply {
    type V = ReplyView;

    open spec fn view(&self) -> ReplyView {
        ReplyView {
            status: self.status,
            reason: self.reason@,
            headers: self.headers@,
            text: self.text@,
        }
    }
}

/// The response with its body decoded leniently.
pub open spec fn decoded(response: HttpResponseView) -> ReplyView {
    ReplyView {
        status: response.status,
        reason: response.reason,
        headers: response.headers,
        text: lossy_text(response.body),
    }
}

/// The failure text for a reply with an unexpected status: the status code
/// as a decimal numeral with its reason phrase, the headers, and the body.
pub open spec fn status_failure_text(reply: ReplyView) -> Seq<char> {
    "HTTP request failed with unexpected status code: "@ + decimal(reply.status as nat) + " "@
        + reply.reason + "\nHeaders:\n"@ + reply.headers + "\nBody:\n"@ + reply.text
}

/// The failure text that the reply's status calls for: none for 200, else
/// [`status_failure_text`].
pub open spec fn unexpected_status(reply: ReplyView) -> Option<Seq<char>> {
    if reply.status != STATUS_OK {
        Some(status_failure_text(reply))
    } else {
        None
    }
}

impl HttpResponse {
    /// Decodes the body to text. Bytes that are no well-formed UTF-8 do not
    /// make this fail: replacement characters stand for them. A body that is
    /// well-formed UTF-8 decodes to the characters that it encodes.
    pub fn decode(&self) -> (reply: Reply)
        ensures
            reply@ == decoded(self@),
            valid_utf8(self@.body) ==> reply@.text == decode_utf8(self@.body),
    {
        Reply {
            status: self.status,
            reason: self.reason.clone(),
            headers: self.headers.clone(),
            text: decode_lossy(self.body.as_slice()),
        }
    }
}

impl Reply {
    /// Checks the status: any code but 200 is a failure, whose text reports
    /// the code, the headers and the body.
    pub fn unexpected_status(&self) -> (r: Option<String>)
        ensures
            match r {
                Some(text) => unexpected_status(self@) == Some(text@),
                None => unexpected_status(self@) is None,
            },
    {
        if self.status != STATUS_OK {
            let mut s = String::from_str("HTTP request failed with unexpected status code: ");
            s.append(decimal_text(self.status).as_str());
            s.append(" ");
            s.append(self.reason.as_str());
            s.append("\nHeaders:\n");
            s.append(self.headers.as_str());
            s.append("\nBody:\n");
            s.append(self.text.as_str());
            Some(s)
        } else {
            None
        }
    }
}

/// How the attempt to carry out one request ended.
#[derive(Debug, Clone, PartialEq, Eq)]
pub enum Exchange {
    /// No response arrived; the text says why.
    SendFailed(String),
    /// A response arrived, but its body could not be read; the text says why.
    ReadFailed(String),
    /// A response arrived and was read in full.
    Completed(HttpResponse),
}

/// An [`Exchange`] as seen by contracts.
pub enum ExchangeView {
    SendFailed(Seq<char>),
    ReadFailed(Seq<char>),
    Completed(HttpResponseView),
}

impl View for Exchange {
    type V = ExchangeView;

    open spec fn view(&self) -> ExchangeView {
        match self {
            Exchange::SendFailed(reason) => ExchangeView::SendFailed(reason@),
            Exchange::ReadFailed(reason) => ExchangeView::ReadFailed(reason@),
            Exchange::Completed(response) => ExchangeView::Completed(response@),
        }
    }
}

/// The credentials that a request carries for the configured user and
/// password: none unless both are given.
pub open spec fn basic_auth(user: Seq<char>, password: Seq<char>) -> Option<CredentialsView> {
    if user.len() > 0 && password.len() > 0 {
        Some(CredentialsView { user, password })
    } else {
        None
    }
}

/// Picks the credentials for a request, see [`basic_auth`].
pub fn credentials(user: &str, password: &str) -> (r: Option<Credentials>)
    ensures
        match r {
            Some(c) => basic_auth(user@, password@) == Some(c@),
            None => basic_auth(user@, password@) is None,
        },
{
    if !user.is_empty() && !password.is_empty() {
        Some(Credentials { user: user.to_owned(), password: password.to_owned() })
    } else {
        None
    }
}

} // verus!
