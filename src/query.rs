use std::collections::BTreeMap;

use serde_qs::{ArrayFormat, Config};
use vstd::prelude::*;

use crate::date::Date;
use crate::error::{optional_text_view, YandexWebmasterError};
use crate::json::texts_view;
use crate::text::{int_text, signed_text};

verus! {

/// What the query-string encoder makes of one field with its values: each
/// value as a `key=value` pair, percent-encoded, all under the same bare key
/// and joined with `&`; `None` where it fails.
pub uninterp spec fn qs_field(key: Seq<char>, values: Seq<Seq<char>>) -> Option<Seq<char>>;

/// Whether a character is an ASCII letter or digit.
pub open spec fn is_alphanumeric(c: char) -> bool {
    ('a' <= c && c <= 'z') || ('A' <= c && c <= 'Z') || ('0' <= c && c <= '9')
}

/// Whether a character passes the encoder unchanged, in a key or a value.
pub open spec fn is_plain_char(c: char) -> bool {
    is_alphanumeric(c) || c == '-' || c == '_' || c == '.'
}

/// Whether a text passes the encoder unchanged.
pub open spec fn is_plain_text(s: Seq<char>) -> bool {
    forall|i: int| 0 <= i < s.len() ==> is_plain_char(#[trigger] s[i])
}

/// Whether every text of a list passes the encoder unchanged.
pub open spec fn all_plain(vs: Seq<Seq<char>>) -> bool {
    forall|i: int| 0 <= i < vs.len() ==> is_plain_text(#[trigger] vs[i])
}

/// The `key=value` pairs of a field, one for each value, joined with `&`.
pub open spec fn repeated_pairs(key: Seq<char>, values: Seq<Seq<char>>) -> Seq<char>
    decreases values.len(),
{
    if values.len() == 0 {
        Seq::empty()
    } else if values.len() == 1 {
        key + "="@ + values[0]
    } else {
        repeated_pairs(key, values.drop_last()) + "&"@ + key + "="@ + values.last()
    }
}

/// What the encoder makes of a field: for a plain key and plain values, the
/// `key=value` pairs as they are; otherwise as `qs_field` says.
pub open spec fn field_text(key: Seq<char>, values: Seq<Seq<char>>) -> Option<Seq<char>> {
    if values.len() > 0 && key.len() > 0 && is_plain_text(key) && all_plain(values) {
        Some(repeated_pairs(key, values))
    } else {
        qs_field(key, values)
    }
}

/// Relies on `serde_qs` with unindexed arrays, applied to a map with the
/// one entry `key` to `values`: a key of ASCII letters, digits, `-`, `_` and
/// `.` is written as it is, each value follows as `key=value` with the
/// characters of the query percent-encode set escaped, and the pairs are
/// joined with `&`.
#[verifier::external_body]
fn encode_field(key: &str, values: &Vec<String>) -> (r: Result<String, serde_qs::Error>)
    ensures
        values@.len() > 0 && key@.len() > 0 && is_plain_text(key@) && all_plain(
            texts_view(values@),
        ) ==> r is Ok && r->Ok_0@ == repeated_pairs(key@, texts_view(values@)),
        !(values@.len() > 0 && key@.len() > 0 && is_plain_text(key@) && all_plain(
            texts_view(values@),
        )) ==> match qs_field(key@, texts_view(values@)) {
            None => r is Err,
            Some(t) => r is Ok && r->Ok_0@ == t,
        },
{
    let config = Config::new().array_format(ArrayFormat::Unindexed);
    config.serialize_string(&BTreeMap::from([(key, values)]))
}

/// The view of a query field: its key and the texts of its values.
pub open spec fn field_view(f: (String, Vec<String>)) -> (Seq<char>, Seq<Seq<char>>) {
    (f.0@, texts_view(f.1@))
}

/// The views of a list of query fields.
pub open spec fn fields_view(v: Seq<(String, Vec<String>)>) -> Seq<(Seq<char>, Seq<Seq<char>>)> {
    v.map_values(|f: (String, Vec<String>)| field_view(f))
}

/// The query string of a list of fields: each field encoded, in order,
/// joined with `&`; `None` where the encoder fails on one.
pub open spec fn query_text(fields: Seq<(Seq<char>, Seq<Seq<char>>)>) -> Option<Seq<char>>
    decreases fields.len(),
{
    if fields.len() == 0 {
        Some(Seq::empty())
    } else {
        match (query_text(fields.drop_last()), field_text(fields.last().0, fields.last().1)) {
            (Some(p), Some(s)) => if fields.len() == 1 {
                Some(s)
            } else {
                Some(p + "&"@ + s)
            },
            _ => None,
        }
    }
}

/// Whether `r` is the outcome of encoding these fields: their query string,
/// or a query encoding error where the encoder fails.
pub open spec fn encodes(
    fields: Seq<(Seq<char>, Seq<Seq<char>>)>,
    r: Result<String, YandexWebmasterError>,
) -> bool {
    match query_text(fields) {
        Some(t) => r is Ok && r->Ok_0@ == t,
        None => r is Err && r->Err_0 is SerdeQsError,
    }
}

/// Encoding the same fields twice gives the same query string: the outcome
/// depends on the fields alone.
pub proof fn lemma_encoding_repeatable(
    fields: Seq<(Seq<char>, Seq<Seq<char>>)>,
    r1: Result<String, YandexWebmasterError>,
    r2: Result<String, YandexWebmasterError>,
)
    requires
        encodes(fields, r1),
        encodes(fields, r2),
    ensures
        r1 is Ok <==> r2 is Ok,
        r1 is Ok ==> r1->Ok_0@ == r2->Ok_0@,
{
}

/// Whether every character of the concatenation of two plain texts is plain.
pub proof fn lemma_plain_concat(a: Seq<char>, b: Seq<char>)
    requires
        is_plain_text(a),
        is_plain_text(b),
    ensures
        is_plain_text(a + b),
{
    assert forall|i: int| 0 <= i < (a + b).len() implies is_plain_char(#[trigger] (a + b)[i]) by {
        if i >= a.len() {
            assert((a + b)[i] == b[i - a.len()]);
        }
    }
}

/// Encodes a list of query fields into a query string.
pub fn encode_query(fields: &Vec<(String, Vec<String>)>) -> (r: Result<
    String,
    YandexWebmasterError,
>)
    ensures
        encodes(fields_view(fields@), r),
{
    let ghost all = fields_view(fields@);
    let mut out = String::new();
    let mut i: usize = 0;
    while i < fields.len()
        invariant
            i <= fields@.len(),
            all == fields_view(fields@),
            query_text(all.subrange(0, i as int)) == Some(out@),
        decreases fields.len() - i,
    {
        let ghost prefix = all.subrange(0, i as int);
        let ghost next = all.subrange(0, i + 1);
        assert(next.drop_last() == prefix);
        assert(next.last() == field_view(fields@[i as int]));
        match encode_field(fields[i].0.as_str(), &fields[i].1) {
            Ok(segment) => {
                if i > 0 {
                    out.append("&");
                }
                out.append(segment.as_str());
            },
            Err(e) => {
                proof {
                    lemma_query_text_fails_on(all, i as int + 1);
                }
                return Err(YandexWebmasterError::SerdeQsError(e));
            },
        }
        i = i + 1;
    }
    assert(all.subrange(0, i as int) == all);
    Ok(out)
}

/// Once the query text of a prefix fails, that of every longer prefix fails.
proof fn lemma_query_text_fails_on(fields: Seq<(Seq<char>, Seq<Seq<char>>)>, n: int)
    requires
        0 < n <= fields.len(),
        query_text(fields.subrange(0, n)) is None,
    ensures
        query_text(fields) is None,
    decreases fields.len() - n,
{
    if n < fields.len() {
        let next = fields.subrange(0, n + 1);
        assert(next.drop_last() == fields.subrange(0, n));
        lemma_query_text_fails_on(fields, n + 1);
    } else {
        assert(fields.subrange(0, n) == fields);
    }
}

/// The field of an optional value: none where it is absent, else the key
/// with the one value.
pub open spec fn optional_field(key: Seq<char>, value: Option<Seq<char>>) -> Seq<
    (Seq<char>, Seq<Seq<char>>),
> {
    match value {
        Some(v) => seq![(key, seq![v])],
        None => Seq::empty(),
    }
}

/// The field of a list of values: none where the list is empty, else the
/// key with every value, in order.
pub open spec fn list_field(key: Seq<char>, values: Seq<Seq<char>>) -> Seq<
    (Seq<char>, Seq<Seq<char>>),
> {
    if values.len() == 0 {
        Seq::empty()
    } else {
        seq![(key, values)]
    }
}

/// The text of an optional number.
pub open spec fn optional_int_text(v: Option<i32>) -> Option<Seq<char>> {
    match v {
        Some(n) => Some(int_text(n as int)),
        None => None,
    }
}

/// The text of an optional date.
pub open spec fn optional_date_text(v: Option<Date>) -> Option<Seq<char>> {
    match v {
        Some(d) => Some(d.text()),
        None => None,
    }
}

/// Appends the field of an optional value.
pub(crate) fn push_optional(
    fields: &mut Vec<(String, Vec<String>)>,
    key: &str,
    value: Option<String>,
)
    ensures
        fields_view(final(fields)@) == fields_view(old(fields)@) + optional_field(
            key@,
            optional_text_view(value),
        ),
{
    match value {
        Some(v) => {
            let mut values: Vec<String> = Vec::new();
            values.push(v);
            let entry = (String::from_str(key), values);
            let ghost before = fields@;
            fields.push(entry);
            assert(texts_view(entry.1@) =~= seq![optional_text_view(value)->Some_0]);
            assert(fields_view(fields@) =~= fields_view(before) + optional_field(
                key@,
                optional_text_view(value),
            ));
        },
        None => {
            assert(fields_view(fields@) =~= fields_view(fields@) + optional_field(
                key@,
                optional_text_view(value),
            ));
        },
    }
}

/// Appends the field of a list of values.
pub(crate) fn push_list(fields: &mut Vec<(String, Vec<String>)>, key: &str, values: Vec<String>)
    ensures
        fields_view(final(fields)@) == fields_view(old(fields)@) + list_field(
            key@,
            texts_view(values@),
        ),
{
    if values.len() == 0 {
        assert(fields_view(fields@) =~= fields_view(fields@) + list_field(
            key@,
            texts_view(values@),
        ));
    } else {
        let ghost before = fields@;
        let ghost vs = texts_view(values@);
        let entry = (String::from_str(key), values);
        fields.push(entry);
        assert(fields_view(fields@) =~= fields_view(before) + list_field(key@, vs));
    }
}

/// The text of an optional number.
pub(crate) fn int_value(v: Option<i32>) -> (r: Option<String>)
    ensures
        optional_text_view(r) == optional_int_text(v),
{
    match v {
        Some(n) => Some(signed_text(n as i64)),
        None => None,
    }
}

/// The text of an optional date.
pub(crate) fn date_value(v: Option<Date>) -> (r: Option<String>)
    ensures
        optional_text_view(r) == optional_date_text(v),
{
    match v {
        Some(d) => Some(d.to_text()),
        None => None,
    }
}

} // verus!
