use vstd::prelude::*;

use crate::error::YandexWebmasterError;
use crate::json::pairs_view;

verus! {

/// The JSON string literal that the serializer writes for a text, escapes
/// and quotes included; `None` where it fails.
pub uninterp spec fn json_quoted(s: Seq<char>) -> Option<Seq<char>>;

/// Whether a character stands in a JSON string as it is: from the space on,
/// other than `"` and `\`.
pub open spec fn is_json_safe_char(c: char) -> bool {
    ' ' <= c && c != '"' && c != '\\'
}

/// Whether every character of a text stands in a JSON string as it is.
pub open spec fn is_json_safe_text(s: Seq<char>) -> bool {
    forall|i: int| 0 <= i < s.len() ==> is_json_safe_char(#[trigger] s[i])
}

/// The JSON string literal of a text: the text between quotes where no
/// character needs an escape, and otherwise as `json_quoted` says.
pub open spec fn quoted_text(s: Seq<char>) -> Option<Seq<char>> {
    if is_json_safe_text(s) {
        Some("\""@ + s + "\""@)
    } else {
        json_quoted(s)
    }
}

/// Relies on `serde_json::to_string` of a string slice: it writes the text
/// between quotes, escaping only `"`, `\` and the characters below the
/// space.
#[verifier::external_body]
fn quote(s: &str) -> (r: Result<String, serde_json::Error>)
    ensures
        is_json_safe_text(s@) ==> r is Ok && r->Ok_0@ == "\""@ + s@ + "\""@,
        !is_json_safe_text(s@) ==> match json_quoted(s@) {
            None => r is Err,
            Some(t) => r is Ok && r->Ok_0@ == t,
        },
{
    serde_json::to_string(s)
}

/// The JSON string literal of a text.
pub(crate) fn quoted(s: &str) -> (r: Result<String, YandexWebmasterError>)
    ensures
        match quoted_text(s@) {
            None => r is Err && r->Err_0 is ParseError,
            Some(t) => r is Ok && r->Ok_0@ == t,
        },
{
    match quote(s) {
        Ok(t) => Ok(t),
        Err(e) => Err(YandexWebmasterError::ParseError(e)),
    }
}

/// The members of a JSON object, `"key":value` each, joined with commas.
pub open spec fn members_text(members: Seq<(Seq<char>, Seq<char>)>) -> Seq<char>
    decreases members.len(),
{
    if members.len() == 0 {
        Seq::empty()
    } else {
        let last = "\""@ + members.last().0 + "\":"@ + members.last().1;
        if members.len() == 1 {
            last
        } else {
            members_text(members.drop_last()) + ","@ + last
        }
    }
}

/// A JSON object of members whose values are JSON texts, written compactly.
pub open spec fn object_text(members: Seq<(Seq<char>, Seq<char>)>) -> Seq<char> {
    "{"@ + members_text(members) + "}"@
}

/// Writes a JSON object of members whose keys need no escape and whose
/// values are JSON texts.
pub(crate) fn object_json(members: &Vec<(String, String)>) -> (r: String)
    ensures
        r@ == object_text(pairs_view(members@)),
{
    let ghost all = pairs_view(members@);
    let mut inner = String::new();
    let mut i: usize = 0;
    while i < members.len()
        invariant
            i <= members@.len(),
            all == pairs_view(members@),
            inner@ == members_text(all.subrange(0, i as int)),
        decreases members.len() - i,
    {
        let ghost next = all.subrange(0, i + 1);
        assert(next.drop_last() == all.subrange(0, i as int));
        if i > 0 {
            inner.append(",");
        }
        inner.append("\"");
        inner.append(members[i].0.as_str());
        inner.append("\":");
        inner.append(members[i].1.as_str());
        assert(inner@ =~= members_text(next));
        i = i + 1;
    }
    assert(all.subrange(0, i as int) == all);
    let mut r = String::from_str("{");
    r.append(inner.as_str());
    r.append("}");
    r
}

} // verus!
