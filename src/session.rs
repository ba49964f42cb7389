use vstd::prelude::*;

use crate::dto::ExplicitVerificationType;
use crate::error::{failure_of, YandexWebmasterError};
use crate::middleware::AuthMiddleware;
use crate::query::is_alphanumeric;
use crate::response::{handle_response, is_success};
use crate::text::{int_text, signed_text};

verus! {

/// The versioned root of the service's addresses.
pub open spec fn api_base() -> Seq<char> {
    "https://api.webmaster.yandex.net/v4"@
}

/// A text percent-encoded for a URL, every byte but ASCII letters, digits,
/// `-`, `_`, `.` and `~` escaped.
pub uninterp spec fn url_encoded(s: Seq<char>) -> Seq<char>;

/// Whether a character is left as it is by URL percent-encoding.
pub open spec fn is_unreserved(c: char) -> bool {
    is_alphanumeric(c) || c == '-' || c == '_' || c == '.' || c == '~'
}

/// Relies on `urlencoding::encode`, which escapes every byte but ASCII
/// letters, digits, `-`, `_`, `.` and `~`.
#[verifier::external_body]
fn percent_encode(s: &str) -> (r: String)
    ensures
        r@ == url_encoded(s@),
        (forall|i: int| 0 <= i < s@.len() ==> is_unreserved(#[trigger] s@[i])) ==> r@ == s@,
{
    urlencoding::encode(s).into_owned()
}

/// The address of the identity call, the one call made before the account
/// is known.
pub fn user_url() -> (r: String)
    ensures
        r@ == api_base() + "/user"@,
{
    let mut r = String::from_str("https://api.webmaster.yandex.net/v4");
    r.append("/user");
    r
}

/// The body of the identity call.
#[derive(Debug, Clone, PartialEq, Eq)]
pub struct UserResponse {
    /// The account that every other address is scoped under.
    pub user_id: i64,
}

/// A ready client's state: the credential's step and the account identity,
/// resolved once when the client was made.
#[derive(Debug, Clone)]
pub struct Session {
    auth: AuthMiddleware,
    user_id: i64,
}

impl Session {
    /// The account identity.
    pub closed spec fn account(self) -> i64 {
        self.user_id
    }

    /// The credential's token.
    pub closed spec fn token(self) -> Seq<char> {
        self.auth@
    }

    /// Completes the making of a client from the response of the identity
    /// call. Only a success status whose body the decoder reads gives a
    /// session, with the identity read; a failure status gives the
    /// classified error, a body that could not be read the transport error,
    /// and a body that the decoder refuses a parse error.
    pub fn establish<F: FnOnce(String) -> Result<UserResponse, serde_json::Error>>(
        auth: AuthMiddleware,
        status: u16,
        body: Result<String, reqwest::Error>,
        decode: F,
    ) -> (r: Result<Session, YandexWebmasterError>)
        requires
            forall|t: String| decode.requires((t,)),
        ensures
            !is_success(status) ==> r is Err && failure_of(status, body, r->Err_0),
            is_success(status) && body is Err ==> r is Err && r->Err_0 is HttpError,
            is_success(status) && body is Ok ==> exists|d: Result<UserResponse, serde_json::Error>|
                {
                    &&& #[trigger] decode.ensures((body->Ok_0,), d)
                    &&& match d {
                        Ok(u) => r is Ok && r->Ok_0.account() == u.user_id && r->Ok_0.token()
                            == auth@,
                        Err(e) => r == Err::<Session, YandexWebmasterError>(
                            YandexWebmasterError::ParseError(e),
                        ),
                    }
                },
    {
        let text = match handle_response(status, body) {
            Ok(text) => text,
            Err(e) => return Err(e),
        };
        let ghost t = text;
        let d = decode(text);
        assert(decode.ensures((t,), d));
        match d {
            Ok(u) => Ok(Session { auth, user_id: u.user_id }),
            Err(e) => Err(YandexWebmasterError::ParseError(e)),
        }
    }

    /// The account identity.
    pub fn user_id(&self) -> (r: i64)
        ensures
            r == self.account(),
    {
        self.user_id
    }

    /// The credential's step.
    pub fn auth(&self) -> (r: &AuthMiddleware)
        ensures
            r@ == self.token(),
    {
        &self.auth
    }

    /// The address of a resource of the account: the root, `/user/`, the
    /// account, then `tail`.
    pub fn user_path(&self, tail: &str) -> (r: String)
        ensures
            r@ == api_base() + "/user/"@ + int_text(self.account() as int) + tail@,
    {
        let mut r = String::from_str("https://api.webmaster.yandex.net/v4");
        r.append("/user/");
        let id = signed_text(self.user_id);
        r.append(id.as_str());
        r.append(tail);
        r
    }

    /// The address of a resource of one of the account's sites.
    pub fn host_path(&self, host_id: &str, tail: &str) -> (r: String)
        ensures
            r@ == api_base() + "/user/"@ + int_text(self.account() as int) + "/hosts/"@ + host_id@
                + tail@,
    {
        let mut r = self.user_path("/hosts/");
        r.append(host_id);
        r.append(tail);
        r
    }

    /// The address of the request that starts the verification of a site in
    /// a given way.
    pub fn verification_path(&self, host_id: &str, kind: ExplicitVerificationType) -> (r: String)
        ensures
            r@ == api_base() + "/user/"@ + int_text(self.account() as int) + "/hosts/"@ + host_id@
                + "/verification?verification_type="@ + kind.spec_name(),
    {
        let mut r = self.host_path(host_id, "/verification?verification_type=");
        let name = kind.name();
        r.append(name.as_str());
        r
    }

    /// The address of the history of one important page of a site; the
    /// page's address is percent-encoded.
    pub fn important_url_history_path(&self, host_id: &str, url: &str) -> (r: String)
        ensures
            r@ == api_base() + "/user/"@ + int_text(self.account() as int) + "/hosts/"@ + host_id@
                + "/important-urls/history?url="@ + url_encoded(url@),
    {
        let mut r = self.host_path(host_id, "/important-urls/history?url=");
        let encoded = percent_encode(url);
        r.append(encoded.as_str());
        r
    }
}

/// An address with a query string after `?`.
pub fn with_query(path: String, query: &str) -> (r: String)
    ensures
        r@ == path@ + "?"@ + query@,
{
    let mut r = path;
    r.append("?");
    r.append(query);
    r
}

} // verus!
