//! The trusted boundary to the JSON codec.
//!
//! Response bodies arrive as bytes and are parsed by `serde_json`; the
//! parsed document is opaque to verification, so its contents are given a
//! name: `content_of` maps an opaque document to `JsonData`, specification
//! data, and `json_of` names what parsing a byte string yields.  Every
//! wrapper below states its outside call's behaviour over those names, and
//! the decoding decisions — which fields, which shapes, which fallbacks —
//! stand in verified code whose contracts say exactly which record a
//! document decodes to.

use vstd::prelude::*;
use vstd::string::StringExecFns;

use crate::error::ApiError;
use crate::error::ApiErrorInner;
use crate::models::OrgMember;
use crate::models::OrgRole;
use crate::models::SiteRole;
use crate::models::User;
use crate::models::orgs::parse_org_role;
use crate::models::users::parse_site_role;

verus! {

#[verifier::external_type_specification]
#[verifier::external_body]
pub struct ExValue(serde_json::Value);

/// The contents of a JSON document, as specification data.  An object is
/// the map of its members (keys are unique on the wire side); a number is
/// carried as the canonical text the codec prints for it.
pub ghost enum JsonData {
    Null,
    Bool(bool),
    Number(Seq<char>),
    Text(Seq<char>),
    Items(Seq<JsonData>),
    Object(Map<Seq<char>, JsonData>),
}

/// What parsing `body` yields: `None` exactly when the bytes are not one
/// well-formed JSON document.  A function of the bytes alone.
pub uninterp spec fn json_of(body: Seq<u8>) -> Option<JsonData>;

/// The contents of an opaque parsed document.
pub uninterp spec fn content_of(v: serde_json::Value) -> JsonData;

/// The text the codec prints a document's contents back to.  A function of
/// the contents alone: object members print in the codec's fixed key
/// order.
pub uninterp spec fn rendered(d: JsonData) -> Seq<char>;

/// Whether `body` is one well-formed JSON document.
pub open spec fn is_json(body: Seq<u8>) -> bool {
    json_of(body) is Some
}

/// The member of an object's contents under `k`.
pub open spec fn member_of(d: JsonData, k: Seq<char>) -> Option<JsonData> {
    match d {
        JsonData::Object(m) => if m.dom().contains(k) {
            Some(m[k])
        } else {
            None
        },
        _ => None,
    }
}

/// The string content of an object's member under `k`, when the member is
/// there and is a string.
pub open spec fn text_member(d: JsonData, k: Seq<char>) -> Option<Seq<char>> {
    match member_of(d, k) {
        Some(JsonData::Text(t)) => Some(t),
        _ => None,
    }
}

/// The boolean content of an object's member under `k`, when the member is
/// there and is a boolean.
pub open spec fn bool_member(d: JsonData, k: Seq<char>) -> Option<bool> {
    match member_of(d, k) {
        Some(JsonData::Bool(b)) => Some(b),
        _ => None,
    }
}

/// The elements of an object's member under `k`, when the member is there
/// and is an array.
pub open spec fn items_member(d: JsonData, k: Seq<char>) -> Option<Seq<JsonData>> {
    match member_of(d, k) {
        Some(JsonData::Items(its)) => Some(its),
        _ => None,
    }
}

/// Relies on serde_json::from_slice at serde_json::Value: parsing succeeds
/// exactly when the bytes are one well-formed JSON document, and yields
/// the document `json_of` names.
#[verifier::external_body]
fn json_parse(body: &[u8]) -> (r: Option<serde_json::Value>)
    ensures
        r is Some <==> json_of(body@) is Some,
        r matches Some(v) ==> content_of(v) == json_of(body@)->Some_0,
{
    serde_json::from_slice(body).ok()
}

/// Relies on serde_json::Value::get with a string index: the member of a
/// JSON object under the given key, `None` on other values or an absent
/// key.
#[verifier::external_body]
fn json_get<'a>(v: &'a serde_json::Value, key: &str) -> (r: Option<&'a serde_json::Value>)
    ensures
        r is Some <==> member_of(content_of(*v), key@) is Some,
        r matches Some(f) ==> member_of(content_of(*v), key@) == Some(content_of(*f)),
{
    v.get(key)
}

/// Relies on serde_json::Value::as_str: the content of a JSON string
/// value, `None` on every other value.
#[verifier::external_body]
fn json_str(v: &serde_json::Value) -> (r: Option<String>)
    ensures
        r is Some <==> content_of(*v) is Text,
        r matches Some(s) ==> s@ == content_of(*v)->Text_0,
{
    v.as_str().map(|s| s.to_owned())
}

/// Relies on serde_json::Value::as_bool: the content of a JSON boolean,
/// `None` on every other value.
#[verifier::external_body]
fn json_bool(v: &serde_json::Value) -> (r: Option<bool>)
    ensures
        r is Some <==> content_of(*v) is Bool,
        r matches Some(b) ==> b == content_of(*v)->Bool_0,
{
    v.as_bool()
}

/// Relies on serde_json::Value::as_array: the elements of a JSON array,
/// `None` on every other value.
#[verifier::external_body]
fn json_array<'a>(v: &'a serde_json::Value) -> (r: Option<&'a Vec<serde_json::Value>>)
    ensures
        r is Some <==> content_of(*v) is Items,
        r matches Some(a) ==> a@.len() == content_of(*v)->Items_0.len() && forall|i: int|
            0 <= i < a@.len() ==> content_of(#[trigger] a@[i]) == content_of(*v)->Items_0[i],
{
    v.as_array()
}

/// Relies on serde_json::to_string: a JSON value rendered back to text.
/// Serializing a `Value` never fails — the error path exists only for
/// non-string map keys, which a `Value` cannot hold.
#[verifier::external_body]
fn json_text(v: &serde_json::Value) -> (r: Option<String>)
    ensures
        r is Some,
        r matches Some(t) ==> t@ == rendered(content_of(*v)),
{
    serde_json::to_string(v).ok()
}

/// The `details` capture when the service sent none: the JSON null
/// literal.
fn empty_details() -> (r: String)
    ensures
        r@ == "null"@,
{
    String::from_str("null")
}

/// Whether a document holds the structured error shape: an `error` member
/// whose `msg` member is a string.
pub open spec fn structured_error(d: JsonData) -> bool {
    member_of(d, "error"@) matches Some(inner) && text_member(inner, "msg"@) is Some
}

/// The message an error document decodes to: the structured `msg`, or the
/// whole document's text.
pub open spec fn error_msg_of(d: JsonData) -> Seq<char> {
    if structured_error(d) {
        text_member(member_of(d, "error"@)->Some_0, "msg"@)->Some_0
    } else {
        rendered(d)
    }
}

/// The code an error document decodes to: the structured `code` when it is
/// a string, else empty.
pub open spec fn error_code_of(d: JsonData) -> Seq<char> {
    if structured_error(d) {
        match text_member(member_of(d, "error"@)->Some_0, "code"@) {
            Some(c) => c,
            None => Seq::<char>::empty(),
        }
    } else {
        Seq::<char>::empty()
    }
}

/// The details an error document decodes to: the structured `details`
/// rendered back to text, `null` when absent, or the whole document's
/// text.
pub open spec fn error_details_of(d: JsonData) -> Seq<char> {
    if structured_error(d) {
        match member_of(member_of(d, "error"@)->Some_0, "details"@) {
            Some(dv) => rendered(dv),
            None => "null"@,
        }
    } else {
        rendered(d)
    }
}

/// Decodes an error body.
///
/// The structured shape is `{"error":{"msg":…,"code":…,"details":…}}` with
/// `msg` a string; `code` defaults to the empty string and `details` to
/// `null` when absent.  Any other well-formed JSON document is captured
/// raw: its text becomes the message and the details.  Returns `None`
/// exactly when the body is not JSON at all, and otherwise exactly the
/// message, code and details the document's contents determine.
pub fn decode_api_error(body: &[u8]) -> (r: Option<ApiError>)
    ensures
        r is Some <==> is_json(body@),
        r matches Some(e) ==> ({
            let d = json_of(body@)->Some_0;
            &&& e.error.msg@ == error_msg_of(d)
            &&& e.error.code@ == error_code_of(d)
            &&& e.error.details@ == error_details_of(d)
        }),
{
    let doc = match json_parse(body) {
        Some(doc) => doc,
        None => {
            return None;
        },
    };
    match json_get(&doc, "error") {
        Some(inner) => match json_str_field(inner, "msg") {
            Some(msg) => {
                let code = match json_str_field(inner, "code") {
                    Some(c) => c,
                    None => String::new(),
                };
                let details = match json_get(inner, "details") {
                    Some(d) => match json_text(d) {
                        Some(t) => t,
                        None => empty_details(),
                    },
                    None => empty_details(),
                };
                Some(ApiError { error: ApiErrorInner { msg, code, details } })
            },
            None => Some(raw_capture(&doc)),
        },
        None => Some(raw_capture(&doc)),
    }
}

/// Whether an array of contents is all known site-role names.
pub open spec fn site_role_item(x: JsonData) -> Option<SiteRole> {
    match x {
        JsonData::Text(t) => parse_site_role(t),
        _ => None,
    }
}

/// Whether an array of contents is all known organization-role names.
pub open spec fn org_role_item(x: JsonData) -> Option<OrgRole> {
    match x {
        JsonData::Text(t) => parse_org_role(t),
        _ => None,
    }
}

pub open spec fn site_roles_ok(rs: Seq<JsonData>) -> bool {
    forall|i: int| 0 <= i < rs.len() ==> site_role_item(#[trigger] rs[i]) is Some
}

pub open spec fn org_roles_ok(rs: Seq<JsonData>) -> bool {
    forall|i: int| 0 <= i < rs.len() ==> org_role_item(#[trigger] rs[i]) is Some
}

/// Whether a document holds a user record's shape: every declared field a
/// string, and `roles` an array of known role names.
pub open spec fn user_shape(d: JsonData) -> bool {
    &&& text_member(d, "id"@) is Some
    &&& text_member(d, "name"@) is Some
    &&& text_member(d, "username"@) is Some
    &&& text_member(d, "email"@) is Some
    &&& text_member(d, "dotfiles_git_uri"@) is Some
    &&& text_member(d, "avatar_hash"@) is Some
    &&& text_member(d, "key_regenerated_at"@) is Some
    &&& text_member(d, "created_at"@) is Some
    &&& text_member(d, "updated_at"@) is Some
    &&& items_member(d, "roles"@) matches Some(rs) && site_roles_ok(rs)
}

/// The user record a document of the right shape decodes to, field by
/// field.
pub open spec fn user_matches(u: User, d: JsonData) -> bool {
    &&& u.id@ == text_member(d, "id"@)->Some_0
    &&& u.name@ == text_member(d, "name"@)->Some_0
    &&& u.username@ == text_member(d, "username"@)->Some_0
    &&& u.email@ == text_member(d, "email"@)->Some_0
    &&& u.dotfiles_git_uri@ == text_member(d, "dotfiles_git_uri"@)->Some_0
    &&& u.avatar_hash@ == text_member(d, "avatar_hash"@)->Some_0
    &&& u.key_regenerated_at@ == text_member(d, "key_regenerated_at"@)->Some_0
    &&& u.created_at@ == text_member(d, "created_at"@)->Some_0
    &&& u.updated_at@ == text_member(d, "updated_at"@)->Some_0
    &&& u.roles@.len() == items_member(d, "roles"@)->Some_0.len()
    &&& forall|i: int|
        0 <= i < u.roles@.len() ==> Some(#[trigger] u.roles@[i]) == site_role_item(
            items_member(d, "roles"@)->Some_0[i],
        )
}

/// Whether a document holds a membership record's shape: a user record's
/// shape, flattened beside the membership fields.
pub open spec fn member_shape(d: JsonData) -> bool {
    &&& user_shape(d)
    &&& text_member(d, "joined_at"@) is Some
    &&& text_member(d, "roles_updated_at"@) is Some
    &&& bool_member(d, "has_active_environments"@) is Some
    &&& items_member(d, "organization_roles"@) matches Some(rs) && org_roles_ok(rs)
}

/// The membership record a document of the right shape decodes to.
pub open spec fn member_matches(m: OrgMember, d: JsonData) -> bool {
    &&& user_matches(m.user, d)
    &&& m.joined_at@ == text_member(d, "joined_at"@)->Some_0
    &&& m.roles_updated_at@ == text_member(d, "roles_updated_at"@)->Some_0
    &&& m.has_active_environments == bool_member(d, "has_active_environments"@)->Some_0
    &&& m.organization_roles@.len() == items_member(d, "organization_roles"@)->Some_0.len()
    &&& forall|i: int|
        0 <= i < m.organization_roles@.len() ==> Some(#[trigger] m.organization_roles@[i])
            == org_role_item(items_member(d, "organization_roles"@)->Some_0[i])
}

/// Decodes a user record: every field must be there with its declared
/// shape, and every role name must be a known role.  Succeeds exactly on
/// documents of the user shape, and then yields exactly the record the
/// contents determine.
pub fn decode_user(v: &serde_json::Value) -> (r: Option<User>)
    ensures
        r is Some <==> user_shape(content_of(*v)),
        r matches Some(u) ==> user_matches(u, content_of(*v)),
{
    let id = match json_str_field(v, "id") {
        Some(x) => x,
        None => {
            return None;
        },
    };
    let name = match json_str_field(v, "name") {
        Some(x) => x,
        None => {
            return None;
        },
    };
    let username = match json_str_field(v, "username") {
        Some(x) => x,
        None => {
            return None;
        },
    };
    let email = match json_str_field(v, "email") {
        Some(x) => x,
        None => {
            return None;
        },
    };
    let dotfiles_git_uri = match json_str_field(v, "dotfiles_git_uri") {
        Some(x) => x,
        None => {
            return None;
        },
    };
    let avatar_hash = match json_str_field(v, "avatar_hash") {
        Some(x) => x,
        None => {
            return None;
        },
    };
    let key_regenerated_at = match json_str_field(v, "key_regenerated_at") {
        Some(x) => x,
        None => {
            return None;
        },
    };
    let created_at = match json_str_field(v, "created_at") {
        Some(x) => x,
        None => {
            return None;
        },
    };
    let updated_at = match json_str_field(v, "updated_at") {
        Some(x) => x,
        None => {
            return None;
        },
    };
    let roles = match json_get(v, "roles") {
        Some(rs) => match decode_site_roles(rs) {
            Some(rs) => rs,
            None => {
                return None;
            },
        },
        None => {
            return None;
        },
    };
    Some(
        User {
            id,
            name,
            username,
            email,
            dotfiles_git_uri,
            roles,
            avatar_hash,
            key_regenerated_at,
            created_at,
            updated_at,
        },
    )
}

/// Decodes an organization membership: the member's user record is
/// flattened into the same object, beside the membership fields.  Succeeds
/// exactly on documents of the membership shape, and then yields exactly
/// the record the contents determine.
pub fn decode_org_member(v: &serde_json::Value) -> (r: Option<OrgMember>)
    ensures
        r is Some <==> member_shape(content_of(*v)),
        r matches Some(m) ==> member_matches(m, content_of(*v)),
{
    let user = match decode_user(v) {
        Some(u) => u,
        None => {
            return None;
        },
    };
    let joined_at = match json_str_field(v, "joined_at") {
        Some(x) => x,
        None => {
            return None;
        },
    };
    let roles_updated_at = match json_str_field(v, "roles_updated_at") {
        Some(x) => x,
        None => {
            return None;
        },
    };
    let has_active_environments = match json_get(v, "has_active_environments") {
        Some(b) => match json_bool(b) {
            Some(b) => b,
            None => {
                return None;
            },
        },
        None => {
            return None;
        },
    };
    let organization_roles = match json_get(v, "organization_roles") {
        Some(rs) => match decode_org_roles(rs) {
            Some(rs) => rs,
            None => {
                return None;
            },
        },
        None => {
            return None;
        },
    };
    Some(
        OrgMember {
            user,
            organization_roles,
            has_active_environments,
            joined_at,
            roles_updated_at,
        },
    )
}

/// Decodes an array of site-role names, strictly: an unknown name, or an
/// element that is no string, fails the decode.
fn decode_site_roles(v: &serde_json::Value) -> (r: Option<Vec<SiteRole>>)
    ensures
        r is Some <==> (content_of(*v) matches JsonData::Items(its) && site_roles_ok(its)),
        r matches Some(out) ==> content_of(*v) is Items && ({
            let its = content_of(*v)->Items_0;
            &&& out@.len() == its.len()
            &&& forall|i: int|
                0 <= i < its.len() ==> Some(#[trigger] out@[i]) == site_role_item(its[i])
        }),
{
    let arr = match json_array(v) {
        Some(a) => a,
        None => {
            return None;
        },
    };
    let ghost its = content_of(*v)->Items_0;
    let mut out: Vec<SiteRole> = Vec::new();
    let n = arr.len();
    for i in 0..n
        invariant
            n == arr.len(),
            its == content_of(*v)->Items_0,
            content_of(*v) is Items,
            arr@.len() == its.len(),
            forall|j: int| 0 <= j < arr@.len() ==> content_of(#[trigger] arr@[j]) == its[j],
            out@.len() == i,
            forall|j: int| 0 <= j < i ==> Some(#[trigger] out@[j]) == site_role_item(its[j]),
    {
        let name = match json_str(&arr[i]) {
            Some(s) => s,
            None => {
                return None;
            },
        };
        match SiteRole::from_name(name.as_str()) {
            Some(role) => out.push(role),
            None => {
                return None;
            },
        }
    }
    proof {
        assert forall|j: int| 0 <= j < its.len() implies site_role_item(
            #[trigger] its[j],
        ) is Some by {
            assert(Some(out@[j]) == site_role_item(its[j]));
        }
    }
    Some(out)
}

/// Decodes an array of organization-role names, strictly.
fn decode_org_roles(v: &serde_json::Value) -> (r: Option<Vec<OrgRole>>)
    ensures
        r is Some <==> (content_of(*v) matches JsonData::Items(its) && org_roles_ok(its)),
        r matches Some(out) ==> content_of(*v) is Items && ({
            let its = content_of(*v)->Items_0;
            &&& out@.len() == its.len()
            &&& forall|i: int|
                0 <= i < its.len() ==> Some(#[trigger] out@[i]) == org_role_item(its[i])
        }),
{
    let arr = match json_array(v) {
        Some(a) => a,
        None => {
            return None;
        },
    };
    let ghost its = content_of(*v)->Items_0;
    let mut out: Vec<OrgRole> = Vec::new();
    let n = arr.len();
    for i in 0..n
        invariant
            n == arr.len(),
            its == content_of(*v)->Items_0,
            content_of(*v) is Items,
            arr@.len() == its.len(),
            forall|j: int| 0 <= j < arr@.len() ==> content_of(#[trigger] arr@[j]) == its[j],
            out@.len() == i,
            forall|j: int| 0 <= j < i ==> Some(#[trigger] out@[j]) == org_role_item(its[j]),
    {
        let name = match json_str(&arr[i]) {
            Some(s) => s,
            None => {
                return None;
            },
        };
        match OrgRole::from_name(name.as_str()) {
            Some(role) => out.push(role),
            None => {
                return None;
            },
        }
    }
    proof {
        assert forall|j: int| 0 <= j < its.len() implies org_role_item(
            #[trigger] its[j],
        ) is Some by {
            assert(Some(out@[j]) == org_role_item(its[j]));
        }
    }
    Some(out)
}

/// Decodes a whole 2xx body as one user record: exactly the JSON bodies of
/// the user shape decode, to exactly the record their contents determine.
pub fn decode_user_body(body: &[u8]) -> (r: Option<User>)
    ensures
        r is Some <==> (json_of(body@) matches Some(d) && user_shape(d)),
        r matches Some(u) ==> user_matches(u, json_of(body@)->Some_0),
{
    match json_parse(body) {
        Some(doc) => decode_user(&doc),
        None => None,
    }
}

/// Decodes a whole 2xx body as one membership record: exactly the JSON
/// bodies of the membership shape decode, to exactly the record their
/// contents determine.
pub fn decode_org_member_body(body: &[u8]) -> (r: Option<OrgMember>)
    ensures
        r is Some <==> (json_of(body@) matches Some(d) && member_shape(d)),
        r matches Some(m) ==> member_matches(m, json_of(body@)->Some_0),
{
    match json_parse(body) {
        Some(doc) => decode_org_member(&doc),
        None => None,
    }
}

/// The string content of an object's member, when the member is there and
/// is a string.
fn json_str_field(v: &serde_json::Value, key: &str) -> (r: Option<String>)
    ensures
        r is Some <==> text_member(content_of(*v), key@) is Some,
        r matches Some(s) ==> s@ == text_member(content_of(*v), key@)->Some_0,
{
    match json_get(v, key) {
        Some(f) => json_str(f),
        None => None,
    }
}

/// The loose capture of an error document without the structured shape:
/// its own text as both message and details.
fn raw_capture(doc: &serde_json::Value) -> (r: ApiError)
    ensures
        r.error.msg@ == rendered(content_of(*doc)),
        r.error.code@ == Seq::<char>::empty(),
        r.error.details@ == rendered(content_of(*doc)),
{
    let text = match json_text(doc) {
        Some(t) => t,
        None => empty_details(),
    };
    let details = match json_text(doc) {
        Some(t) => t,
        None => empty_details(),
    };
    ApiError { error: ApiErrorInner { msg: text, code: String::new(), details } }
}

} // verus!
