//! The session identity that the initialization call yields, and the rules
//! by which it is read from the four required members of the response.

use vstd::prelude::*;
use vstd::string::*;

use crate::json::describe;
use crate::json::find_text;
use crate::json::find_unsigned;
use crate::json::parse;
use crate::json::parsed;
use crate::json::text_member;
use crate::json::unsigned_member;
use crate::json::Json;
use crate::json::Lookup;
use crate::text::outcome_view;

verus! {

/// The members that an initialization response must hold, in the order in
/// which they are examined.
#[derive(Debug, Clone, Copy, PartialEq, Eq, Structural)]
pub enum Field {
    /// `apiversion`, an unsigned integer.
    ApiVersion,
    /// `apiclientid`, a string.
    ClientId,
    /// `apiaccesstoken`, a string.
    AccessToken,
    /// `secret`, a string.
    Secret,
}

impl Field {
    /// The member's name in the response object.
    pub open spec fn name(self) -> Seq<char> {
        match self {
            Field::ApiVersion => "apiversion"@,
            Field::ClientId => "apiclientid"@,
            Field::AccessToken => "apiaccesstoken"@,
            Field::Secret => "secret"@,
        }
    }

    /// The type that the member must have, as the failure text words it.
    pub open spec fn expected(self) -> Seq<char> {
        match self {
            Field::ApiVersion => "an integer"@,
            _ => "a string"@,
        }
    }

    /// The member's place in the order of examination.
    pub open spec fn rank(self) -> int {
        match self {
            Field::ApiVersion => 0,
            Field::ClientId => 1,
            Field::AccessToken => 2,
            Field::Secret => 3,
        }
    }

    /// The member's name in the response object.
    pub fn key(self) -> (k: &'static str)
        ensures
            k@ == self.name(),
    {
        match self {
            Field::ApiVersion => "apiversion",
            Field::ClientId => "apiclientid",
            Field::AccessToken => "apiaccesstoken",
            Field::Secret => "secret",
        }
    }

    fn expected_text(self) -> (k: &'static str)
        ensures
            k@ == self.expected(),
    {
        match self {
            Field::ApiVersion => "an integer",
            _ => "a string",
        }
    }
}

/// What the lookups of the four required members found.
#[derive(Debug, Clone, PartialEq, Eq)]
pub struct Members {
    pub version: Lookup<u64>,
    pub client_id: Lookup<String>,
    pub access_token: Lookup<String>,
    pub secret: Lookup<String>,
}

/// [`Members`] as seen by contracts.
pub struct MembersView {
    pub version: Lookup<u64>,
    pub client_id: Lookup<Seq<char>>,
    pub access_token: Lookup<Seq<char>>,
    pub secret: Lookup<Seq<char>>,
}

impl View for Members {
    type V = MembersView;

    open spec fn view(&self) -> MembersView {
        MembersView {
            version: self.version@,
            client_id: self.client_id@,
            access_token: self.access_token@,
            secret: self.secret@,
        }
    }
}

impl MembersView {
    /// How `field` stands: missing, mistyped or found.
    pub open spec fn standing(self, field: Field) -> Lookup<()> {
        match field {
            Field::ApiVersion => self.version.standing(),
            Field::ClientId => self.client_id.standing(),
            Field::AccessToken => self.access_token.standing(),
            Field::Secret => self.secret.standing(),
        }
    }

    /// The session identity that the members make up where all four were
    /// found.
    pub open spec fn session(self) -> ApiDataView {
        ApiDataView {
            version: self.version->Found_0,
            access_token: self.access_token->Found_0,
            client_id: self.client_id->Found_0,
            secret: self.secret->Found_0,
        }
    }
}

/// The four required members as `doc` holds them.
pub open spec fn members_of(doc: Json) -> MembersView {
    MembersView {
        version: unsigned_member(doc, Field::ApiVersion.name()),
        client_id: text_member(doc, Field::ClientId.name()),
        access_token: text_member(doc, Field::AccessToken.name()),
        secret: text_member(doc, Field::Secret.name()),
    }
}

/// The response body, quoted at the end of a failure text.
pub open spec fn echo(body: Seq<char>) -> Seq<char> {
    "\nResponse is:\n"@ + body + "\n"@
}

/// The failure text for a response that lacks `field`. For the version the
/// body is quoted as well.
pub open spec fn missing_text(field: Field, body: Seq<char>) -> Seq<char> {
    let complaint = "Response contains no '"@ + field.name() + "'!"@;
    if field is ApiVersion {
        complaint + echo(body)
    } else {
        complaint
    }
}

/// The failure text for a response that holds `field` with the wrong type.
/// For the client id the body is quoted as well.
pub open spec fn mistyped_text(field: Field, body: Seq<char>) -> Seq<char> {
    let complaint = "Response contains '"@ + field.name() + "', but it's not "@ + field.expected()
        + "!"@;
    if field is ClientId {
        complaint + echo(body)
    } else {
        complaint
    }
}

/// The failure text that the standing of `field` calls for, if any.
pub open spec fn complaint(field: Field, standing: Lookup<()>, body: Seq<char>) -> Option<
    Seq<char>,
> {
    match standing {
        Lookup::Missing => Some(missing_text(field, body)),
        Lookup::Mistyped => Some(mistyped_text(field, body)),
        Lookup::Found(_) => None,
    }
}

/// The session identity: what the server handed out at initialization.
#[derive(Debug, Clone, PartialEq, Eq)]
pub struct ApiData {
    version: u64,
    access_token: String,
    client_id: String,
    secret: String,
}

/// [`ApiData`] as seen by contracts.
pub struct ApiDataView {
    /// The API version that the server reported.
    pub version: u64,
    /// The token that shows that the client completed initialization.
    pub access_token: Seq<char>,
    /// The id that the server assigned to the client.
    pub client_id: Seq<char>,
    /// The secret for signing requests.
    pub secret: Seq<char>,
}

impl View for ApiData {
    type V = ApiDataView;

    closed spec fn view(&self) -> ApiDataView {
        ApiDataView {
            version: self.version,
            access_token: self.access_token@,
            client_id: self.client_id@,
            secret: self.secret@,
        }
    }
}

/// What the four lookups amount to: the session identity if each member was
/// found with its type, else the failure text for the first member that was
/// not, in the order version, client id, access token, secret.
pub open spec fn session_outcome(members: MembersView, body: Seq<char>) -> Result<
    ApiDataView,
    Seq<char>,
> {
    if let Some(text) = complaint(Field::ApiVersion, members.standing(Field::ApiVersion), body) {
        Err(text)
    } else if let Some(text) = complaint(
        Field::ClientId,
        members.standing(Field::ClientId),
        body,
    ) {
        Err(text)
    } else if let Some(text) = complaint(
        Field::AccessToken,
        members.standing(Field::AccessToken),
        body,
    ) {
        Err(text)
    } else if let Some(text) = complaint(Field::Secret, members.standing(Field::Secret), body) {
        Err(text)
    } else {
        Ok(members.session())
    }
}

/// What a response body that decoded to `text` amounts to: the failure text
/// of the JSON reader if it is no JSON document, else what the lookups of the
/// four required members amount to.
pub open spec fn document_outcome(text: Seq<char>) -> Result<ApiDataView, Seq<char>> {
    match parsed(text) {
        Err(message) => Err("Failed to deserialize JSON from API: "@ + message),
        Ok(doc) => session_outcome(members_of(doc), text),
    }
}

fn with_echo(mut complaint: String, body: &str) -> (s: String)
    ensures
        s@ == complaint@ + echo(body@),
{
    complaint.append("\nResponse is:\n");
    complaint.append(body);
    complaint.append("\n");
    complaint
}

fn missing_message(field: Field, body: &str) -> (s: String)
    ensures
        s@ == missing_text(field, body@),
{
    let mut s = String::from_str("Response contains no '");
    s.append(field.key());
    s.append("'!");
    match field {
        Field::ApiVersion => with_echo(s, body),
        _ => s,
    }
}

fn mistyped_message(field: Field, body: &str) -> (s: String)
    ensures
        s@ == mistyped_text(field, body@),
{
    let mut s = String::from_str("Response contains '");
    s.append(field.key());
    s.append("', but it's not ");
    s.append(field.expected_text());
    s.append("!");
    match field {
        Field::ClientId => with_echo(s, body),
        _ => s,
    }
}

/// Takes the value that a lookup of `field` found, or words the complaint.
fn required<T: View>(field: Field, found: Lookup<T>, body: &str) -> (r: Result<T, String>)
    ensures
        match r {
            Ok(value) => found == Lookup::Found(value),
            Err(text) => complaint(field, found@.standing(), body@) == Some(text@),
        },
{
    match found {
        Lookup::Missing => Err(missing_message(field, body)),
        Lookup::Mistyped => Err(mistyped_message(field, body)),
        Lookup::Found(value) => Ok(value),
    }
}

impl ApiData {
    /// The API version that the server reported.
    pub fn version(&self) -> (v: u64)
        ensures
            v == self@.version,
    {
        self.version
    }

    /// The access token for API requests.
    pub fn access_token(&self) -> (s: &str)
        ensures
            s@ == self@.access_token,
    {
        self.access_token.as_str()
    }

    /// The id that the server assigned to this client.
    pub fn client_id(&self) -> (s: &str)
        ensures
            s@ == self@.client_id,
    {
        self.client_id.as_str()
    }

    /// The secret for signing requests.
    pub fn secret(&self) -> (s: &str)
        ensures
            s@ == self@.secret,
    {
        self.secret.as_str()
    }

    /// Builds the session identity from what the lookups of the four
    /// required members found, or says which member is at fault first.
    /// `body` is the response text, for the failure texts that quote it.
    pub fn from_members(members: Members, body: &str) -> (r: Result<ApiData, String>)
        ensures
            outcome_view(r) == session_outcome(members@, body@),
    {
        let version = match required(Field::ApiVersion, members.version, body) {
            Ok(n) => n,
            Err(text) => { return Err(text); },
        };
        let client_id = match required(Field::ClientId, members.client_id, body) {
            Ok(s) => s,
            Err(text) => { return Err(text); },
        };
        let access_token = match required(Field::AccessToken, members.access_token, body) {
            Ok(s) => s,
            Err(text) => { return Err(text); },
        };
        let secret = match required(Field::Secret, members.secret, body) {
            Ok(s) => s,
            Err(text) => { return Err(text); },
        };
        Ok(ApiData { version, access_token, client_id, secret })
    }

    /// Reads the session identity from the text of an initialization
    /// response: parses it as JSON, looks the four required members up and
    /// hands what was found to [`ApiData::from_members`].
    pub fn from_document(text: &str) -> (r: Result<ApiData, String>)
        ensures
            outcome_view(r) == document_outcome(text@),
    {
        match parse(text) {
            Err(error) => {
                let mut s = String::from_str("Failed to deserialize JSON from API: ");
                s.append(describe(&error).as_str());
                Err(s)
            },
            Ok(doc) => {
                let members = Members {
                    version: find_unsigned(&doc, Field::ApiVersion.key()),
                    client_id: find_text(&doc, Field::ClientId.key()),
                    access_token: find_text(&doc, Field::AccessToken.key()),
                    secret: find_text(&doc, Field::Secret.key()),
                };
                ApiData::from_members(members, text)
            },
        }
    }
}

} // verus!
