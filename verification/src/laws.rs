//! What holds of the handshake in general, proved from the definitions that
//! the contracts of the client use.

use vstd::prelude::*;

use crate::client::client_outcome;
use crate::client::init_outcome;
use crate::client::init_request_view;
use crate::client::login_outcome;
use crate::client::login_request_view;
use crate::client::login_verdict;
use crate::client::VBulletinApiView;
use crate::client::LOGIN_MARKER;
use crate::http::basic_auth;
use crate::http::decoded;
use crate::http::status_failure_text;
use crate::http::CredentialsView;
use crate::http::ExchangeView;
use crate::http::HttpResponseView;
use crate::http::STATUS_OK;
use crate::json::parsed;
use crate::json::text_member;
use crate::json::unsigned_member;
use crate::json::Json;
use crate::json::Lookup;
use crate::session::complaint;
use crate::session::echo;
use crate::session::members_of;
use crate::session::missing_text;
use crate::session::mistyped_text;
use crate::session::session_outcome;
use crate::session::ApiDataView;
use crate::session::Field;
use crate::session::MembersView;
use crate::text::decimal;
use crate::text::is_substring;
use crate::text::lemma_middle_is_substring;
use crate::text::lossy_text;

verus! {

/// A lookup goes by the JSON type of the member. The member counts as
/// missing where the document is no object, or an object without a member of
/// that name. A member that is an integer and fits `u64` is found as an
/// unsigned integer and mistyped as a string; a member that is a string is
/// found as a string and mistyped as an unsigned integer; a member of any
/// other kind is mistyped as either.
pub proof fn lookups_go_by_the_json_type(doc: Json, key: Seq<char>)
    ensures
        doc.member(key) is None <==> !(doc matches Json::Object(members) && members.contains_key(
            key,
        )),
        unsigned_member(doc, key) is Missing <==> doc.member(key) is None,
        text_member(doc, key) is Missing <==> doc.member(key) is None,
        match doc.member(key) {
            None => true,
            Some(Json::Number(Some(n))) => unsigned_member(doc, key) == Lookup::Found(n)
                && text_member(doc, key) is Mistyped,
            Some(Json::Text(text)) => text_member(doc, key) == Lookup::Found(text)
                && unsigned_member(doc, key) is Mistyped,
            Some(_) => unsigned_member(doc, key) is Mistyped && text_member(doc, key) is Mistyped,
        },
{
}

/// The failure text tells which member is at fault and how: the texts for
/// two faults are the same only where the member is the same and the fault
/// is the same, whatever the bodies were.
pub proof fn complaints_tell_the_faults_apart(
    first: Field,
    first_body: Seq<char>,
    second: Field,
    second_body: Seq<char>,
)
    ensures
        missing_text(first, first_body) == missing_text(second, second_body) ==> first == second,
        mistyped_text(first, first_body) == mistyped_text(second, second_body) ==> first
            == second,
        missing_text(first, first_body) != mistyped_text(second, second_body),
{
    reveal_strlit("Response contains no '");
    reveal_strlit("Response contains '");
    reveal_strlit("apiversion");
    reveal_strlit("apiclientid");
    reveal_strlit("apiaccesstoken");
    reveal_strlit("secret");
    let missing_first = missing_text(first, first_body);
    let missing_second = missing_text(second, second_body);
    let mistyped_first = mistyped_text(first, first_body);
    let mistyped_second = mistyped_text(second, second_body);
    // The texts part ways after "Response contains ".
    assert(missing_first[18] == 'n');
    assert(mistyped_second[18] == '\'');
    // The first and the fourth character of the name tell the members apart.
    assert(missing_first[22] == first.name()[0] && missing_first[25] == first.name()[3]);
    assert(missing_second[22] == second.name()[0] && missing_second[25] == second.name()[3]);
    assert(mistyped_first[19] == first.name()[0] && mistyped_first[22] == first.name()[3]);
    assert(mistyped_second[19] == second.name()[0] && mistyped_second[22] == second.name()[3]);
}

/// Where each of the four required members was found with its type, the
/// session identity holds exactly the four values that were found.
pub proof fn found_members_make_the_session(members: MembersView, body: Seq<char>)
    requires
        forall|field: Field| members.standing(field) is Found,
    ensures
        session_outcome(members, body) == Ok::<ApiDataView, Seq<char>>(members.session()),
        members.session().version == members.version->Found_0,
        members.session().client_id == members.client_id->Found_0,
        members.session().access_token == members.access_token->Found_0,
        members.session().secret == members.secret->Found_0,
{
    assert(members.standing(Field::ApiVersion) is Found);
    assert(members.standing(Field::ClientId) is Found);
    assert(members.standing(Field::AccessToken) is Found);
    assert(members.standing(Field::Secret) is Found);
}

/// A response with status 200 whose body decodes to a JSON document that
/// holds the four required members with their types initializes the client:
/// the session identity holds exactly the values of the document, and the
/// client the configuration it was made for.
pub proof fn valid_response_initializes(
    base_url: Seq<char>,
    basic_auth_user: Seq<char>,
    basic_auth_pass: Seq<char>,
    response: HttpResponseView,
    doc: Json,
)
    requires
        response.status == STATUS_OK,
        parsed(lossy_text(response.body)) == Ok::<Json, Seq<char>>(doc),
        forall|field: Field| members_of(doc).standing(field) is Found,
    ensures
        init_outcome(ExchangeView::Completed(response)) == Ok::<ApiDataView, Seq<char>>(
            members_of(doc).session(),
        ),
        client_outcome(
            base_url,
            basic_auth_user,
            basic_auth_pass,
            ExchangeView::Completed(response),
        ) == Ok::<VBulletinApiView, Seq<char>>(
            VBulletinApiView {
                data: members_of(doc).session(),
                base_url,
                basic_auth_user,
                basic_auth_pass,
            },
        ),
{
    found_members_make_the_session(members_of(doc), lossy_text(response.body));
}

/// Spells out, member by member, that those examined before `field` were
/// found.
proof fn lemma_earlier_members_found(members: MembersView, field: Field)
    requires
        forall|earlier: Field|
            earlier.rank() < field.rank() ==> members.standing(earlier) is Found,
    ensures
        Field::ApiVersion.rank() < field.rank() ==> members.version is Found,
        Field::ClientId.rank() < field.rank() ==> members.client_id is Found,
        Field::AccessToken.rank() < field.rank() ==> members.access_token is Found,
{
    let before = |earlier: Field| earlier.rank() < field.rank();
    assert(before(Field::ApiVersion) ==> members.standing(Field::ApiVersion) is Found);
    assert(before(Field::ClientId) ==> members.standing(Field::ClientId) is Found);
    assert(before(Field::AccessToken) ==> members.standing(Field::AccessToken) is Found);
}

/// Where any of the four required members is missing or mistyped, there is
/// no session identity.
pub proof fn faulty_member_fails(members: MembersView, body: Seq<char>, field: Field)
    requires
        !(members.standing(field) is Found),
    ensures
        session_outcome(members, body) is Err,
{
}

/// Where a required member is missing, and the members examined before it
/// were found with their types, the failure text is the one for that missing
/// member, and it holds the member's name.
pub proof fn missing_member_is_reported(members: MembersView, body: Seq<char>, field: Field)
    requires
        members.standing(field) is Missing,
        forall|earlier: Field|
            earlier.rank() < field.rank() ==> members.standing(earlier) is Found,
    ensures
        session_outcome(members, body) == Err::<ApiDataView, Seq<char>>(
            missing_text(field, body),
        ),
        is_substring(missing_text(field, body), field.name()),
{
    lemma_earlier_members_found(members, field);
    let before = "Response contains no '"@;
    let after = "'!"@;
    if field is ApiVersion {
        let rest = after + echo(body);
        assert(missing_text(field, body) =~= before + field.name() + rest);
        lemma_middle_is_substring(before, field.name(), rest);
    } else {
        lemma_middle_is_substring(before, field.name(), after);
    }
}

/// Where a required member is there with the wrong type, and the members
/// examined before it were found with their types, the failure text is the
/// one for that mistyped member; it holds the member's name and the type
/// that the member should have had.
pub proof fn mistyped_member_is_reported(members: MembersView, body: Seq<char>, field: Field)
    requires
        members.standing(field) is Mistyped,
        forall|earlier: Field|
            earlier.rank() < field.rank() ==> members.standing(earlier) is Found,
    ensures
        session_outcome(members, body) == Err::<ApiDataView, Seq<char>>(
            mistyped_text(field, body),
        ),
        is_substring(mistyped_text(field, body), field.name()),
        is_substring(mistyped_text(field, body), "not "@ + field.expected()),
{
    lemma_earlier_members_found(members, field);
    let text = mistyped_text(field, body);
    let opening = "Response contains '"@;
    let link = "', but it's not "@;
    let closing = "!"@;
    let tail = if field is ClientId {
        closing + echo(body)
    } else {
        closing
    };
    assert(text =~= opening + field.name() + (link + field.expected() + tail));
    lemma_middle_is_substring(opening, field.name(), link + field.expected() + tail);
    reveal_strlit("', but it's not ");
    reveal_strlit("not ");
    let head = opening + field.name() + "', but it's "@;
    assert(link =~= "', but it's "@ + "not "@) by {
        reveal_strlit("', but it's ");
    }
    assert(text =~= head + ("not "@ + field.expected()) + tail);
    lemma_middle_is_substring(head, "not "@ + field.expected(), tail);
}

/// A response to the initialization call whose JSON document lacks a
/// required member, or holds it with the wrong type, makes no client.
pub proof fn faulty_response_makes_no_client(
    base_url: Seq<char>,
    basic_auth_user: Seq<char>,
    basic_auth_pass: Seq<char>,
    response: HttpResponseView,
    doc: Json,
    field: Field,
)
    requires
        response.status == STATUS_OK,
        parsed(lossy_text(response.body)) == Ok::<Json, Seq<char>>(doc),
        !(members_of(doc).standing(field) is Found),
    ensures
        init_outcome(ExchangeView::Completed(response)) is Err,
        client_outcome(
            base_url,
            basic_auth_user,
            basic_auth_pass,
            ExchangeView::Completed(response),
        ) is Err,
{
    faulty_member_fails(members_of(doc), lossy_text(response.body), field);
}

/// Where such a response holds the members examined before the faulty one
/// with their types, the failure text is the complaint about that member:
/// [`missing_text`] or [`mistyped_text`], with the decoded body.
pub proof fn first_fault_of_a_response_is_reported(
    response: HttpResponseView,
    doc: Json,
    field: Field,
)
    requires
        response.status == STATUS_OK,
        parsed(lossy_text(response.body)) == Ok::<Json, Seq<char>>(doc),
        !(members_of(doc).standing(field) is Found),
        forall|earlier: Field|
            earlier.rank() < field.rank() ==> members_of(doc).standing(earlier) is Found,
    ensures
        init_outcome(ExchangeView::Completed(response)) is Err,
        complaint(field, members_of(doc).standing(field), lossy_text(response.body)) == Some(
            init_outcome(ExchangeView::Completed(response))->Err_0,
        ),
{
    let members = members_of(doc);
    let body = lossy_text(response.body);
    if members.standing(field) is Missing {
        missing_member_is_reported(members, body, field);
    } else {
        mistyped_member_is_reported(members, body, field);
    }
}

/// A response with any status but 200 fails both calls, with a failure text
/// that holds the status code as a decimal numeral.
pub proof fn unexpected_status_fails(
    base_url: Seq<char>,
    basic_auth_user: Seq<char>,
    basic_auth_pass: Seq<char>,
    response: HttpResponseView,
)
    requires
        response.status != STATUS_OK,
    ensures
        init_outcome(ExchangeView::Completed(response)) == Err::<ApiDataView, Seq<char>>(
            status_failure_text(decoded(response)),
        ),
        client_outcome(
            base_url,
            basic_auth_user,
            basic_auth_pass,
            ExchangeView::Completed(response),
        ) is Err,
        login_outcome(ExchangeView::Completed(response)) == Err::<(), Seq<char>>(
            status_failure_text(decoded(response)),
        ),
        is_substring(status_failure_text(decoded(response)), decimal(response.status as nat)),
{
    let reply = decoded(response);
    let before = "HTTP request failed with unexpected status code: "@;
    let after = " "@ + reply.reason + "\nHeaders:\n"@ + reply.headers + "\nBody:\n"@ + reply.text;
    assert(status_failure_text(reply) =~= before + decimal(reply.status as nat) + after);
    lemma_middle_is_substring(before, decimal(reply.status as nat), after);
}

/// A text that holds the login marker anywhere counts as a login, whatever
/// stands before and after the marker.
pub proof fn marker_anywhere_logs_in(before: Seq<char>, after: Seq<char>)
    ensures
        login_verdict(before + LOGIN_MARKER@ + after) == Ok::<(), Seq<char>>(()),
{
    lemma_middle_is_substring(before, LOGIN_MARKER@, after);
}

/// A reply to a login call with status 200 whose decoded body holds the
/// marker is a success.
pub proof fn reply_with_marker_logs_in(response: HttpResponseView)
    requires
        response.status == STATUS_OK,
        is_substring(lossy_text(response.body), LOGIN_MARKER@),
    ensures
        login_outcome(ExchangeView::Completed(response)) == Ok::<(), Seq<char>>(()),
{
}

/// A reply to a login call with status 200 whose decoded body does not hold
/// the marker is a failure; the failure text is fixed, whatever the body
/// was, and not empty.
pub proof fn reply_without_marker_is_refused(response: HttpResponseView)
    requires
        response.status == STATUS_OK,
        !is_substring(lossy_text(response.body), LOGIN_MARKER@),
    ensures
        login_outcome(ExchangeView::Completed(response)) == Err::<(), Seq<char>>(
            "Login has failed."@,
        ),
        "Login has failed."@.len() == 17,
{
    reveal_strlit("Login has failed.");
}

/// Both calls judge a response by its status, reason, headers and decoded
/// body alone: two responses that agree in these fare alike, whatever bytes
/// the bodies were made of.
pub proof fn outcome_rests_on_the_decoded_text(first: HttpResponseView, second: HttpResponseView)
    requires
        decoded(first) == decoded(second),
    ensures
        init_outcome(ExchangeView::Completed(first)) == init_outcome(
            ExchangeView::Completed(second),
        ),
        login_outcome(ExchangeView::Completed(first)) == login_outcome(
            ExchangeView::Completed(second),
        ),
{
}

/// A request carries credentials for HTTP Basic authentication if and only
/// if both the user and the password are given, and then it carries these
/// two.
pub proof fn basic_auth_needs_both(user: Seq<char>, password: Seq<char>)
    ensures
        user.len() == 0 || password.len() == 0 ==> basic_auth(user, password) is None,
        user.len() > 0 && password.len() > 0 ==> basic_auth(user, password) == Some(
            CredentialsView { user, password },
        ),
{
}

/// The initialization request, and every login request of the client that
/// came of it, carry the credentials that [`basic_auth`] gives for the
/// configured user and password.
pub proof fn requests_carry_the_configured_credentials(
    base_url: Seq<char>,
    basic_auth_user: Seq<char>,
    basic_auth_pass: Seq<char>,
    exchange: ExchangeView,
    client: VBulletinApiView,
    username: Seq<char>,
    password: Seq<char>,
)
    requires
        client_outcome(base_url, basic_auth_user, basic_auth_pass, exchange) == Ok::<
            VBulletinApiView,
            Seq<char>,
        >(client),
    ensures
        init_request_view(base_url, basic_auth_user, basic_auth_pass).basic_auth == basic_auth(
            basic_auth_user,
            basic_auth_pass,
        ),
        login_request_view(client, username, password).basic_auth == basic_auth(
            basic_auth_user,
            basic_auth_pass,
        ),
{
}

} // verus!
