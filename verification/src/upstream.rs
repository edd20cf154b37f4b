use vstd::prelude::*;
use vstd::string::StringExecFns;

use crate::record::{opt_chars, ProfileRecord, RecordModel};

verus! {

/// Declares the parse-error type of the JSON decoder so that trusted
/// wrappers can return it.
#[verifier::external_type_specification]
#[verifier::external_body]
pub struct ExJsonError(serde_json::Error);

/// Whether a payload body is a well-formed JSON document: the parse outcome
/// of `serde_json::from_str`, a function of the body text alone.
pub uninterp spec fn json_document_ok(body: Seq<char>) -> bool;

/// The text found in a JSON document under a fixed path of object keys, if
/// the document holds a string there: what `serde_json::Value::get` chained
/// with `as_str` returns, a function of the body text and the path alone.
pub uninterp spec fn json_text_at(body: Seq<char>, path: Seq<Seq<char>>) -> Option<Seq<char>>;

/// The raw field values of the user-summary payload, before defaulting:
/// a field is absent when its key is missing or does not hold text.
pub struct RawSummary {
    pub global_name: Option<String>,
    pub username: Option<String>,
    pub banner_color: Option<String>,
    pub avatar: Option<String>,
}

/// Relies on serde_json::from_str and serde_json::Value::{get, as_str}:
/// parsing succeeds exactly on well-formed JSON, and the string under the
/// keys `user.bio` depends on the body text alone.
#[verifier::external_body]
fn read_profile_detail(body: &str) -> (r: Result<Option<String>, serde_json::Error>)
    ensures
        r is Ok <==> json_document_ok(body@),
        r matches Ok(bio) ==> opt_chars(bio) == json_text_at(body@, seq!["user"@, "bio"@]),
{
    serde_json::from_str::<serde_json::Value>(body).map(
        |v|
            v.get("user").and_then(|u| u.get("bio")).and_then(|b| b.as_str()).map(
                str::to_string,
            ),
    )
}

/// Relies on serde_json::from_str and serde_json::Value::{get, as_str}:
/// parsing succeeds exactly on well-formed JSON, and the strings under the
/// four top-level keys depend on the body text alone.
#[verifier::external_body]
fn read_user_summary(body: &str) -> (r: Result<RawSummary, serde_json::Error>)
    ensures
        r is Ok <==> json_document_ok(body@),
        r matches Ok(s) ==> opt_chars(s.global_name) == json_text_at(
            body@,
            seq!["global_name"@],
        ) && opt_chars(s.username) == json_text_at(body@, seq!["username"@]) && opt_chars(
            s.banner_color,
        ) == json_text_at(body@, seq!["banner_color"@]) && opt_chars(s.avatar) == json_text_at(
            body@,
            seq!["avatar"@],
        ),
{
    serde_json::from_str::<serde_json::Value>(body).map(
        |v|
            RawSummary {
                global_name: v.get("global_name").and_then(|x| x.as_str()).map(str::to_string),
                username: v.get("username").and_then(|x| x.as_str()).map(str::to_string),
                banner_color: v.get("banner_color").and_then(|x| x.as_str()).map(str::to_string),
                avatar: v.get("avatar").and_then(|x| x.as_str()).map(str::to_string),
            },
    )
}

/// Relies on serde_json::Error's Display impl for a human-readable
/// description of the parse fault.
#[verifier::external_body]
fn describe_json_error(e: &serde_json::Error) -> String {
    e.to_string()
}

/// The provider resource holding the profile detail for an identifier.
pub open spec fn detail_url_of(id: Seq<char>) -> Seq<char> {
    "https://discord.com/api/v10/users/"@ + id + "/profile"@
}

/// Builds the location of the profile-detail resource.
pub fn detail_url(id: &str) -> (r: String)
    ensures
        r@ == detail_url_of(id@),
{
    let mut out = String::from_str("https://discord.com/api/v10/users/");
    out.append(id);
    out.append("/profile");
    out
}

/// The provider resource holding the user summary for an identifier.
pub open spec fn summary_url_of(id: Seq<char>) -> Seq<char> {
    "https://discord.com/api/v10/users/"@ + id
}

/// Builds the location of the user-summary resource.
pub fn summary_url(id: &str) -> (r: String)
    ensures
        r@ == summary_url_of(id@),
{
    let mut out = String::from_str("https://discord.com/api/v10/users/");
    out.append(id);
    out
}

/// A fetch fails either on the transport or on the payload shape.
#[verifier::ext_equal]
pub ghost enum FetchFaultModel {
    Transport(Seq<char>),
    Payload(Seq<char>),
}

/// The two failure classes of an upstream fetch: a transport fault reaching
/// the provider, or a malformed payload.
pub enum FetchError {
    Transport(String),
    Payload(String),
}

impl View for FetchError {
    type V = FetchFaultModel;

    open spec fn view(&self) -> FetchFaultModel {
        match self {
            FetchError::Transport(d) => FetchFaultModel::Transport(d@),
            FetchError::Payload(d) => FetchFaultModel::Payload(d@),
        }
    }
}

/// A missing or non-text field defaults to empty text.
pub open spec fn text_or_empty(o: Option<Seq<char>>) -> Seq<char> {
    match o {
        Some(s) => s,
        None => Seq::empty(),
    }
}

/// The exact record model assembled from the two payload bodies at `now`:
/// absent `global_name` and `banner_color` stay absent, absent `username`,
/// `avatar` and `bio` default to empty text.
pub open spec fn assembled_model(
    id: Seq<char>,
    detail_body: Seq<char>,
    summary_body: Seq<char>,
    now: int,
) -> RecordModel {
    RecordModel {
        id: id,
        display_name: json_text_at(summary_body, seq!["global_name"@]),
        username: text_or_empty(json_text_at(summary_body, seq!["username"@])),
        accent_color: json_text_at(summary_body, seq!["banner_color"@]),
        avatar_ref: text_or_empty(json_text_at(summary_body, seq!["avatar"@])),
        bio: text_or_empty(json_text_at(detail_body, seq!["user"@, "bio"@])),
        captured_at: now,
    }
}

/// Decodes the profile-detail payload: the biography, defaulting to empty
/// text when absent or not text; an unparseable body is a payload fault.
pub fn decode_profile_detail(body: &str) -> (r: Result<String, FetchError>)
    ensures
        r is Ok <==> json_document_ok(body@),
        r matches Ok(bio) ==> bio@ == text_or_empty(json_text_at(body@, seq!["user"@, "bio"@])),
        r matches Err(e) ==> e@ is Payload,
{
    match read_profile_detail(body) {
        Ok(Some(bio)) => Ok(bio),
        Ok(None) => Ok(String::new()),
        Err(e) => Err(FetchError::Payload(describe_json_error(&e))),
    }
}

/// Decodes the user-summary payload with the documented defaults; an
/// unparseable body is a payload fault.
pub fn decode_user_summary(body: &str) -> (r: Result<RawSummary, FetchError>)
    ensures
        r is Ok <==> json_document_ok(body@),
        r matches Ok(s) ==> opt_chars(s.global_name) == json_text_at(
            body@,
            seq!["global_name"@],
        ) && opt_chars(s.username) == json_text_at(body@, seq!["username"@]) && opt_chars(
            s.banner_color,
        ) == json_text_at(body@, seq!["banner_color"@]) && opt_chars(s.avatar) == json_text_at(
            body@,
            seq!["avatar"@],
        ),
        r matches Err(e) ==> e@ is Payload,
{
    match read_user_summary(body) {
        Ok(s) => Ok(s),
        Err(e) => Err(FetchError::Payload(describe_json_error(&e))),
    }
}

/// Assembles one record from the two decoded payload bodies: either fault
/// aborts the whole fetch and no partial record is ever returned; on success
/// every field follows the defaulting rules and `captured_at = now`.
pub fn assemble_record(id: &str, detail_body: &str, summary_body: &str, now: i64) -> (r: Result<
    ProfileRecord,
    FetchError,
>)
    ensures
        r is Ok <==> json_document_ok(detail_body@) && json_document_ok(summary_body@),
        r matches Ok(rec) ==> rec@ == assembled_model(id@, detail_body@, summary_body@, now as int),
        r matches Err(e) ==> e@ is Payload,
{
    let bio = match decode_profile_detail(detail_body) {
        Ok(bio) => bio,
        Err(e) => {
            return Err(e);
        },
    };
    let s = match decode_user_summary(summary_body) {
        Ok(s) => s,
        Err(e) => {
            return Err(e);
        },
    };
    let username = match s.username {
        Some(u) => u,
        None => String::new(),
    };
    let avatar = match s.avatar {
        Some(a) => a,
        None => String::new(),
    };
    let rec = ProfileRecord {
        id: id.to_owned(),
        display_name: s.global_name,
        username,
        accent_color: s.banner_color,
        avatar_ref: avatar,
        bio,
        captured_at: now,
    };
    proof {
        assert(rec@ =~= assembled_model(id@, detail_body@, summary_body@, now as int));
    }
    Ok(rec)
}

} // verus!
