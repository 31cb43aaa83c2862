//! The user record codec: request bodies become stored documents, stored
//! documents become JSON text, and a listing becomes one JSON array.
use vstd::prelude::*;

verus! {

#[verifier::external_type_specification]
#[verifier::external_body]
pub struct ExDocument(mongodb::bson::Document);

#[verifier::external_type_specification]
#[verifier::external_body]
pub struct ExValue(serde_json::Value);

#[verifier::external_type_specification]
#[verifier::external_body]
pub struct ExJsonError(serde_json::Error);

/// The JSON value that `serde_json` reads from `text`, if the text is
/// well-formed JSON.
pub uninterp spec fn json_value(text: Seq<char>) -> Option<serde_json::Value>;

/// Whether a JSON value is an object.
pub uninterp spec fn json_is_object(v: serde_json::Value) -> bool;

/// The BSON document that `bson` makes of a JSON value, if it makes one.
pub uninterp spec fn bson_document(v: serde_json::Value) -> Option<mongodb::bson::Document>;

/// The JSON text that `serde_json` writes for a document, if it can.
pub uninterp spec fn document_text(d: mongodb::bson::Document) -> Option<Seq<char>>;

/// Relies on `serde_json::from_str` into a `serde_json::Value`: the value read
/// from well-formed JSON text, an error otherwise; it depends on the text alone.
#[verifier::external_body]
fn parse_json(text: &str) -> (r: Result<serde_json::Value, serde_json::Error>)
    ensures
        match r {
            Ok(v) => json_value(text@) == Some(v),
            Err(_) => json_value(text@) is None,
        },
{
    serde_json::from_str(text)
}

/// Relies on `serde_json::Value::is_object`: whether the value is a JSON object.
pub assume_specification[ serde_json::Value::is_object ](v: &serde_json::Value) -> (r: bool)
    ensures
        r == json_is_object(*v),
;

/// Relies on `bson::to_bson`: the BSON form of a JSON value, kept only when it
/// is a document (for an object whose numbers BSON can hold).
#[verifier::external_body]
fn value_to_document(v: &serde_json::Value) -> (r: Option<mongodb::bson::Document>)
    ensures
        r == bson_document(*v),
{
    match mongodb::bson::to_bson(v) {
        Ok(mongodb::bson::Bson::Document(d)) => Some(d),
        _ => None,
    }
}

/// Relies on `serde_json::to_string` on a `bson::Document`: the document as
/// JSON text, field names and values as stored. A document is written as a
/// JSON map, so the text opens with `{` and closes with `}`.
#[verifier::external_body]
pub(crate) fn document_json(d: &mongodb::bson::Document) -> (r: Option<String>)
    ensures
        match r {
            Some(s) => document_text(*d) == Some(s@),
            None => document_text(*d) is None,
        },
        r is Some ==> r->Some_0@.len() >= 2 && r->Some_0@[0] == '{' && r->Some_0@.last() == '}',
{
    serde_json::to_string(d).ok()
}

/// The document stored for a request body: the body read as JSON, when it is
/// an object that converts to a document.
pub open spec fn body_document_of(body: Seq<char>) -> Option<mongodb::bson::Document> {
    match json_value(body) {
        Some(v) => if json_is_object(v) {
            bson_document(v)
        } else {
            None
        },
        None => None,
    }
}

/// Turns a request body into a document to store: `None` when the body is not
/// well-formed JSON, is JSON but not an object, or does not convert to a
/// document. Any JSON object is accepted as it is, with no check against the
/// user record's shape.
pub fn body_document(body: &str) -> (r: Option<mongodb::bson::Document>)
    ensures
        r == body_document_of(body@),
        json_value(body@) is None ==> r is None,
        json_value(body@) matches Some(v) && !json_is_object(v) ==> r is None,
{
    match parse_json(body) {
        Ok(v) => if v.is_object() {
            value_to_document(&v)
        } else {
            None
        },
        Err(_) => None,
    }
}

/// The texts `items`, in order, separated by single commas.
pub open spec fn join_commas(items: Seq<Seq<char>>) -> Seq<char>
    decreases items.len(),
{
    if items.len() == 0 {
        Seq::empty()
    } else if items.len() == 1 {
        items[0]
    } else {
        join_commas(items.drop_last()) + seq![','] + items.last()
    }
}

/// The JSON array whose elements are the texts `items`, in order.
pub open spec fn json_array(items: Seq<Seq<char>>) -> Seq<char> {
    seq!['['] + join_commas(items) + seq![']']
}

/// The views of a sequence of strings.
pub open spec fn texts(v: Seq<String>) -> Seq<Seq<char>> {
    v.map_values(|s: String| s@)
}

/// Writes the texts `items` as one JSON array: `[]` when there are none, and
/// no comma after the last element.
pub fn json_array_text(items: &Vec<String>) -> (r: String)
    ensures
        r@ == json_array(texts(items@)),
{
    proof {
        reveal_strlit("[");
        assert("["@ =~= seq!['[']);
    }
    let mut out = String::from_str("[");
    let mut i: usize = 0;
    while i < items.len()
        invariant
            i <= items.len(),
            out@ == seq!['['] + join_commas(texts(items@).take(i as int)),
        decreases items.len() - i,
    {
        proof {
            let t = texts(items@);
            assert(t.take(i as int + 1).drop_last() =~= t.take(i as int));
        }
        if i > 0 {
            proof {
                reveal_strlit(",");
                assert(","@ =~= seq![',']);
            }
            out.append(",");
        }
        out.append(items[i].as_str());
        proof {
            let t = texts(items@);
            assert(t.take(i as int + 1).last() == items@[i as int]@);
            if i == 0 {
                assert(t.take(1) =~= seq![items@[0]@]);
            } else {
                assert(join_commas(t.take(i as int + 1)) == join_commas(t.take(i as int))
                    + seq![','] + items@[i as int]@);
            }
            assert(out@ =~= seq!['['] + join_commas(t.take(i as int + 1)));
        }
        i = i + 1;
    }
    out.append("]");
    proof {
        reveal_strlit("]");
        assert("]"@ =~= seq![']']);
        assert(texts(items@).take(items@.len() as int) =~= texts(items@));
        assert(out@ =~= json_array(texts(items@)));
    }
    out
}

/// A listing of no records is exactly the text `[]`.
pub proof fn lemma_empty_listing()
    ensures
        json_array(Seq::empty()) == "[]"@,
{
    reveal_strlit("[]");
    assert(json_array(Seq::empty()) =~= "[]"@);
}

/// The total length of the texts `items`.
pub open spec fn total_len(items: Seq<Seq<char>>) -> nat
    decreases items.len(),
{
    if items.len() == 0 {
        0
    } else {
        total_len(items.drop_last()) + items.last().len()
    }
}

/// The separators between `n >= 1` texts are exactly `n - 1` commas.
proof fn lemma_join_len(items: Seq<Seq<char>>)
    requires
        items.len() >= 1,
    ensures
        join_commas(items).len() == total_len(items) + items.len() - 1,
    decreases items.len(),
{
    if items.len() > 1 {
        lemma_join_len(items.drop_last());
    } else {
        assert(total_len(items.drop_last()) == 0);
    }
}

/// The joined texts begin with the first text.
proof fn lemma_join_starts_with_first(items: Seq<Seq<char>>)
    requires
        items.len() >= 1,
    ensures
        join_commas(items).len() >= items[0].len(),
        join_commas(items).subrange(0, items[0].len() as int) == items[0],
    decreases items.len(),
{
    if items.len() > 1 {
        let front = items.drop_last();
        lemma_join_starts_with_first(front);
        assert(front[0] == items[0]);
        assert(join_commas(items) == join_commas(front) + seq![','] + items.last());
        assert(join_commas(items).subrange(0, items[0].len() as int) =~= join_commas(
            items.drop_last(),
        ).subrange(0, items[0].len() as int));
    } else {
        assert(join_commas(items).subrange(0, items[0].len() as int) =~= items[0]);
    }
}

/// A record's JSON text, which opens with `{`, is never the text `null`: a
/// fetch answers `null` exactly when no record was found.
pub proof fn lemma_record_text_is_not_null(t: Seq<char>)
    requires
        t.len() >= 2,
        t[0] == '{',
    ensures
        t != "null"@,
{
    reveal_strlit("null");
    assert("null"@[0] == 'n');
}

/// A listing of `n >= 1` records opens with `[`, closes with `]`, holds the
/// records' texts and exactly `n - 1` separating commas, and the last record's
/// text runs up to the closing bracket: there is no trailing comma.
pub proof fn lemma_listing_layout(items: Seq<Seq<char>>)
    requires
        items.len() >= 1,
    ensures
        json_array(items)[0] == '[',
        json_array(items).last() == ']',
        json_array(items).len() == total_len(items) + items.len() + 1,
        json_array(items).subrange(
            json_array(items).len() - 1 - items.last().len(),
            json_array(items).len() - 1,
        ) == items.last(),
        items.len() >= 2 ==> json_array(items)[json_array(items).len() - 2 - items.last().len()]
            == ',',
        items[0].len() > 0 ==> json_array(items)[1] == items[0][0],
{
    lemma_join_len(items);
    let a = json_array(items);
    let j = join_commas(items);
    let last = items.last();
    lemma_join_starts_with_first(items);
    if items[0].len() > 0 {
        assert(j.subrange(0, items[0].len() as int)[0] == items[0][0]);
        assert(a[1] == j[0]);
    }
    if items.len() == 1 {
        assert(a.subrange(a.len() - 1 - last.len(), a.len() - 1) =~= last);
    } else {
        let front = join_commas(items.drop_last());
        assert(a =~= seq!['['] + front + seq![','] + last + seq![']']);
        assert(a.subrange(a.len() - 1 - last.len(), a.len() - 1) =~= last);
    }
}

} // verus!
