use vstd::prelude::*;

use crate::error::YandexWebmasterError;

verus! {

/// Whether a character may stand in an HTTP header value: a tab, or a
/// character from the space on other than DEL (the bytes of a character
/// beyond ASCII are all at least 128).
pub open spec fn header_char_ok(c: char) -> bool {
    (' ' <= c && c != '\x7f') || c == '\t'
}

/// Whether every character of `s` may stand in an HTTP header value.
pub open spec fn header_text_ok(s: Seq<char>) -> bool {
    forall|i: int| 0 <= i < s.len() ==> header_char_ok(#[trigger] s[i])
}

/// Relies on `http::HeaderValue::from_str`: it refuses a text exactly when
/// one of its bytes is below 32 and not a tab, or is 127.
#[verifier::external_body]
fn header_value_accepts(s: &str) -> (r: bool)
    ensures
        r == header_text_ok(s@),
{
    http::HeaderValue::from_str(s).is_ok()
}

/// The scheme word that opens the authorization header's value.
pub open spec fn auth_scheme() -> Seq<char> {
    "OAuth "@
}

/// The message of the error for a token that cannot stand in a header.
pub open spec fn bad_token_message() -> Seq<char> {
    "Failed to create authorization header: the token holds a character that a header value cannot hold"@
}

/// The step that stamps every outgoing request with the credential.
#[derive(Debug, Clone)]
pub struct AuthMiddleware {
    oauth_token: String,
}

impl View for AuthMiddleware {
    type V = Seq<char>;

    /// The token held.
    closed spec fn view(&self) -> Seq<char> {
        self.oauth_token@
    }
}

impl AuthMiddleware {
    /// Creates the step for an OAuth token.
    pub fn new(oauth_token: String) -> (r: Self)
        ensures
            r@ == oauth_token@,
    {
        AuthMiddleware { oauth_token }
    }

    /// The value of the `Authorization` header: `OAuth ` and the token. It
    /// fails, before anything is sent, where the token holds a character
    /// that a header value cannot hold.
    pub fn authorization_value(&self) -> (r: Result<String, YandexWebmasterError>)
        ensures
            header_text_ok(self@) ==> r is Ok && r->Ok_0@ == auth_scheme() + self@,
            !header_text_ok(self@) ==> (r matches Err(YandexWebmasterError::MiddlewareError(m))
                && m@ == bad_token_message()),
    {
        let mut value = String::from_str("OAuth ");
        value.append(self.oauth_token.as_str());
        proof {
            reveal_strlit("OAuth ");
            let v = auth_scheme() + self@;
            assert(v.subrange(6, v.len() as int) =~= self@);
            if header_text_ok(v) {
                assert forall|i: int| 0 <= i < self@.len() implies header_char_ok(
                    #[trigger] self@[i],
                ) by {
                    assert(self@[i] == v[i + 6]);
                }
            }
            if header_text_ok(self@) {
                assert forall|i: int| 0 <= i < v.len() implies header_char_ok(#[trigger] v[i]) by {
                    if i >= 6 {
                        assert(v[i] == self@[i - 6]);
                    }
                }
            }
        }
        if header_value_accepts(value.as_str()) {
            Ok(value)
        } else {
            Err(
                YandexWebmasterError::MiddlewareError(
                    String::from_str(
                        "Failed to create authorization header: the token holds a character that a header value cannot hold",
                    ),
                ),
            )
        }
    }
}

} // verus!
