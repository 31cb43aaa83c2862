//! The route handlers' decisions. Each handler is split around its one call to
//! the document store: a function here says what to ask the store for (or
//! refuses the request), and another turns the store's answer into the reply.
use vstd::prelude::*;
use crate::codec::{
    body_document, body_document_of, document_json, document_text, json_array, json_array_text, texts,
};
use crate::config::Config;
use mongodb::bson::Document;

verus! {

#[verifier::external_type_specification]
#[verifier::external_body]
pub struct ExDbError(mongodb::error::Error);

pub const OK: u16 = 200;
pub const BAD_REQUEST: u16 = 400;
pub const UNAUTHORIZED: u16 = 401;
pub const INTERNAL_ERROR: u16 = 500;

/// An HTTP reply: a status code and a body.
#[derive(Debug)]
pub struct Reply {
    pub status: u16,
    pub body: String,
}

impl Reply {
    pub open spec fn is_reply(&self, status: u16, body: Seq<char>) -> bool {
        self.status == status && self.body@ == body
    }

    /// A reply with no body.
    pub open spec fn bare(&self, status: u16) -> bool {
        self.is_reply(status, Seq::empty())
    }
}

fn reply(status: u16, body: &str) -> (r: Reply)
    ensures
        r.is_reply(status, body@),
{
    Reply { status, body: String::from_str(body) }
}

fn bare_reply(status: u16) -> (r: Reply)
    ensures
        r.bare(status),
{
    Reply { status, body: String::new() }
}

/// The value that a query filter matches a field against.
#[derive(Debug)]
pub enum FilterValue {
    Text(String),
    Flag(bool),
}

/// A query filter of one field: the documents whose `field` equals `value`.
#[derive(Debug)]
pub struct Filter {
    pub field: String,
    pub value: FilterValue,
}

impl Filter {
    pub open spec fn matches_text(&self, field: Seq<char>, value: Seq<char>) -> bool {
        self.field@ == field && self.value is Text && self.value->Text_0@ == value
    }

    pub open spec fn matches_flag(&self, field: Seq<char>, value: bool) -> bool {
        self.field@ == field && self.value == FilterValue::Flag(value)
    }
}

/// The filter of the listing: the records not marked deleted.
pub fn users_filter() -> (r: Filter)
    ensures
        r.matches_flag("deleted"@, false),
{
    Filter { field: String::from_str("deleted"), value: FilterValue::Flag(false) }
}

/// The filter that picks the records with the given `uid`.
pub fn uid_filter(uid: &String) -> (r: Filter)
    ensures
        r.matches_text("uid"@, uid@),
{
    Filter { field: String::from_str("uid"), value: FilterValue::Text(uid.clone()) }
}

/// Whether every document of `docs` has a JSON text.
pub open spec fn all_have_text(docs: Seq<Document>) -> bool {
    forall|i: int| 0 <= i < docs.len() ==> (#[trigger] document_text(docs[i])) is Some
}

/// The JSON texts of `docs`, in order.
pub open spec fn texts_of(docs: Seq<Document>) -> Seq<Seq<char>> {
    docs.map_values(|d: Document| document_text(d)->Some_0)
}

/// The listing's reply, from the records the store found: a JSON array of
/// their texts, in the store's order, or a server error.
pub fn users(found: Result<Vec<Document>, mongodb::error::Error>) -> (r: Reply)
    ensures
        found is Err ==> r.bare(INTERNAL_ERROR),
        found is Ok && all_have_text(found->Ok_0@) ==> r.is_reply(
            OK,
            json_array(texts_of(found->Ok_0@)),
        ),
        found is Ok && !all_have_text(found->Ok_0@) ==> r.bare(INTERNAL_ERROR),
{
    let docs = match found {
        Ok(docs) => docs,
        Err(_) => return bare_reply(INTERNAL_ERROR),
    };
    let mut items: Vec<String> = Vec::new();
    let mut i: usize = 0;
    while i < docs.len()
        invariant
            i <= docs.len(),
            items@.len() == i,
            found is Ok && found->Ok_0 == docs,
            forall|j: int| 0 <= j < i ==> document_text(#[trigger] docs@[j]) == Some(items@[j]@),
        decreases docs.len() - i,
    {
        match document_json(&docs[i]) {
            Some(t) => items.push(t),
            None => return bare_reply(INTERNAL_ERROR),
        }
        i = i + 1;
    }
    let body = json_array_text(&items);
    proof {
        assert(texts(items@) =~= texts_of(docs@));
    }
    Reply { status: OK, body }
}

/// The reply to a fetch by `uid`, from what the store found: the record's
/// JSON text, `null` when there is none, or a server error.
pub fn user(found: Result<Option<Document>, mongodb::error::Error>) -> (r: Reply)
    ensures
        found is Err ==> r.bare(INTERNAL_ERROR),
        found matches Ok(None) ==> r.is_reply(OK, "null"@),
        found matches Ok(Some(d)) ==> match document_text(d) {
            Some(t) => r.is_reply(OK, t),
            None => r.bare(INTERNAL_ERROR),
        },
        found matches Ok(Some(_)) && r.status == OK ==> r.body@.len() >= 2 && r.body@[0] == '{'
            && r.body@.last() == '}',
{
    match found {
        Ok(Some(d)) => match document_json(&d) {
            Some(t) => Reply { status: OK, body: t },
            None => bare_reply(INTERNAL_ERROR),
        },
        Ok(None) => reply(OK, "null"),
        Err(_) => bare_reply(INTERNAL_ERROR),
    }
}

/// The reply to an existence check, from what the store found for the `uid`:
/// `true` when a record was found, `false` when none was.
pub fn userexists(found: Result<Option<Document>, mongodb::error::Error>) -> (r: Reply)
    ensures
        found is Err ==> r.bare(INTERNAL_ERROR),
        found matches Ok(Some(_)) ==> r.is_reply(OK, "true"@),
        found matches Ok(None) ==> r.is_reply(OK, "false"@),
{
    match found {
        Ok(Some(_)) => reply(OK, "true"),
        Ok(None) => reply(OK, "false"),
        Err(_) => bare_reply(INTERNAL_ERROR),
    }
}

/// Decides a create request: the document to insert, or the reply that
/// refuses it. A wrong secret is refused with 401 before the body is looked
/// at; a body that is not a JSON object convertible to a document is refused
/// with 400. Any such object is accepted, and the same `uid` may be stored
/// more than once.
pub fn create_user(config: &Config, pword: &String, body: &str) -> (r: Result<Document, Reply>)
    ensures
        pword@ != config.api_password@ ==> (r is Err && r->Err_0.bare(UNAUTHORIZED)),
        pword@ == config.api_password@ ==> match body_document_of(body@) {
            Some(d) => r == Ok::<Document, Reply>(d),
            None => r is Err && r->Err_0.bare(BAD_REQUEST),
        },
{
    if !config.authorized(pword) {
        return Err(bare_reply(UNAUTHORIZED));
    }
    match body_document(body) {
        Some(d) => Ok(d),
        None => Err(bare_reply(BAD_REQUEST)),
    }
}

/// The reply to a create request once the store has answered the insert.
pub fn create_user_reply(inserted: Result<(), mongodb::error::Error>) -> (r: Reply)
    ensures
        inserted is Ok ==> r.bare(OK),
        inserted is Err ==> r.bare(INTERNAL_ERROR),
{
    match inserted {
        Ok(()) => bare_reply(OK),
        Err(_) => bare_reply(INTERNAL_ERROR),
    }
}

/// Decides a delete request: the filter of the record to delete, or 401 when
/// the secret is wrong.
pub fn deleteuser(config: &Config, uid: &String, pword: &String) -> (r: Result<Filter, Reply>)
    ensures
        pword@ != config.api_password@ ==> (r is Err && r->Err_0.bare(UNAUTHORIZED)),
        pword@ == config.api_password@ ==> (r is Ok && r->Ok_0.matches_text("uid"@, uid@)),
{
    if !config.authorized(pword) {
        return Err(bare_reply(UNAUTHORIZED));
    }
    Ok(uid_filter(uid))
}

/// The reply to a delete request once the store has answered: success whether
/// or not a record matched.
pub fn deleteuser_reply(deleted: Result<Option<Document>, mongodb::error::Error>) -> (r: Reply)
    ensures
        deleted is Ok ==> r.bare(OK),
        deleted is Err ==> r.bare(INTERNAL_ERROR),
{
    match deleted {
        Ok(_) => bare_reply(OK),
        Err(_) => bare_reply(INTERNAL_ERROR),
    }
}

/// Where the service is mounted: the static frontend bundle at one base path,
/// served from a directory, and the API routes under another base path.
#[derive(Debug)]
pub struct Mounts {
    pub static_base: String,
    pub static_dir: String,
    pub api_base: String,
}

/// The service's mount points: the frontend bundle from `src/site/dist` at `/`,
/// the API under `/api/v1`.
pub fn rocket() -> (r: Mounts)
    ensures
        r.static_base@ == "/"@,
        r.static_dir@ == "src/site/dist"@,
        r.api_base@ == "/api/v1"@,
{
    Mounts {
        static_base: String::from_str("/"),
        static_dir: String::from_str("src/site/dist"),
        api_base: String::from_str("/api/v1"),
    }
}

} // verus!
