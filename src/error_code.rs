use vstd::prelude::*;

use crate::text::text_eq;

verus! {

/// An error code reported by the service.
///
/// The known codes form a closed set; any other code is kept verbatim in
/// `Unknown`, so that a code introduced by the service later never makes the
/// decoding of an error fail.
#[derive(Debug, Clone, PartialEq, Eq)]
pub enum YandexErrorCode {
    AccessForbidden,
    BadHttpCode,
    BadMimeType,
    BatchLimitExceeded,
    ContentEncodingUnsupported,
    ContentTypeUnsupported,
    EmptyDates,
    EmptyPaths,
    EntityValidationError,
    FeedAlreadyAdded,
    FeedsCategoryBan,
    FeedsLimitExceeded,
    FieldValidationError,
    HostAlreadyAdded,
    HostNotFound,
    HostNotIndexed,
    HostNotLoaded,
    HostNotVerified,
    HostsLimitExceeded,
    IncorrectUrl,
    InvalidOauthToken,
    InvalidUrl,
    InvalidUserId,
    LimitsExceeded,
    ManyUrlsForRemove,
    MethodNotAllowed,
    NoChanges,
    NoVerificationRecord,
    NotExist,
    OnlyHttps,
    PayloadTooLarge,
    QueryIdNotFound,
    QuotaExceeded,
    RequestEntityTooLarge,
    RequestNotFound,
    ResourceNotFound,
    SitemapAlreadyAdded,
    SitemapNotAdded,
    SitemapNotFound,
    SomeDatesAreUnavailable,
    TaskNotFound,
    TextAlreadyAdded,
    TextLengthConstraintsViolation,
    TimedOut,
    TooManyRequestsError,
    UploadAddressExpired,
    UrlAlreadyAdded,
    UrlsAreCorrupted,
    VerificationAlreadyInProgress,
    WrongRegion,
    /// A code outside the documented set, as the service sent it.
    Unknown(String),
}

/// The upper snake case name under which the service sends a code; for an
/// unknown code, the text it carries.
pub open spec fn code_name(c: YandexErrorCode) -> Seq<char> {
    match c {
        YandexErrorCode::AccessForbidden => "ACCESS_FORBIDDEN"@,
        YandexErrorCode::BadHttpCode => "BAD_HTTP_CODE"@,
        YandexErrorCode::BadMimeType => "BAD_MIME_TYPE"@,
        YandexErrorCode::BatchLimitExceeded => "BATCH_LIMIT_EXCEEDED"@,
        YandexErrorCode::ContentEncodingUnsupported => "CONTENT_ENCODING_UNSUPPORTED"@,
        YandexErrorCode::ContentTypeUnsupported => "CONTENT_TYPE_UNSUPPORTED"@,
        YandexErrorCode::EmptyDates => "EMPTY_DATES"@,
        YandexErrorCode::EmptyPaths => "EMPTY_PATHS"@,
        YandexErrorCode::EntityValidationError => "ENTITY_VALIDATION_ERROR"@,
        YandexErrorCode::FeedAlreadyAdded => "FEED_ALREADY_ADDED"@,
        YandexErrorCode::FeedsCategoryBan => "FEEDS_CATEGORY_BAN"@,
        YandexErrorCode::FeedsLimitExceeded => "FEEDS_LIMIT_EXCEEDED"@,
        YandexErrorCode::FieldValidationError => "FIELD_VALIDATION_ERROR"@,
        YandexErrorCode::HostAlreadyAdded => "HOST_ALREADY_ADDED"@,
        YandexErrorCode::HostNotFound => "HOST_NOT_FOUND"@,
        YandexErrorCode::HostNotIndexed => "HOST_NOT_INDEXED"@,
        YandexErrorCode::HostNotLoaded => "HOST_NOT_LOADED"@,
        YandexErrorCode::HostNotVerified => "HOST_NOT_VERIFIED"@,
        YandexErrorCode::HostsLimitExceeded => "HOSTS_LIMIT_EXCEEDED"@,
        YandexErrorCode::IncorrectUrl => "INCORRECT_URL"@,
        YandexErrorCode::InvalidOauthToken => "INVALID_OAUTH_TOKEN"@,
        YandexErrorCode::InvalidUrl => "INVALID_URL"@,
        YandexErrorCode::InvalidUserId => "INVALID_USER_ID"@,
        YandexErrorCode::LimitsExceeded => "LIMITS_EXCEEDED"@,
        YandexErrorCode::ManyUrlsForRemove => "MANY_URLS_FOR_REMOVE"@,
        YandexErrorCode::MethodNotAllowed => "METHOD_NOT_ALLOWED"@,
        YandexErrorCode::NoChanges => "NO_CHANGES"@,
        YandexErrorCode::NoVerificationRecord => "NO_VERIFICATION_RECORD"@,
        YandexErrorCode::NotExist => "NOT_EXIST"@,
        YandexErrorCode::OnlyHttps => "ONLY_HTTPS"@,
        YandexErrorCode::PayloadTooLarge => "PAYLOAD_TOO_LARGE"@,
        YandexErrorCode::QueryIdNotFound => "QUERY_ID_NOT_FOUND"@,
        YandexErrorCode::QuotaExceeded => "QUOTA_EXCEEDED"@,
        YandexErrorCode::RequestEntityTooLarge => "REQUEST_ENTITY_TOO_LARGE"@,
        YandexErrorCode::RequestNotFound => "REQUEST_NOT_FOUND"@,
        YandexErrorCode::ResourceNotFound => "RESOURCE_NOT_FOUND"@,
        YandexErrorCode::SitemapAlreadyAdded => "SITEMAP_ALREADY_ADDED"@,
        YandexErrorCode::SitemapNotAdded => "SITEMAP_NOT_ADDED"@,
        YandexErrorCode::SitemapNotFound => "SITEMAP_NOT_FOUND"@,
        YandexErrorCode::SomeDatesAreUnavailable => "SOME_DATES_ARE_UNAVAILABLE"@,
        YandexErrorCode::TaskNotFound => "TASK_NOT_FOUND"@,
        YandexErrorCode::TextAlreadyAdded => "TEXT_ALREADY_ADDED"@,
        YandexErrorCode::TextLengthConstraintsViolation => "TEXT_LENGTH_CONSTRAINTS_VIOLATION"@,
        YandexErrorCode::TimedOut => "TIMED_OUT"@,
        YandexErrorCode::TooManyRequestsError => "TOO_MANY_REQUESTS_ERROR"@,
        YandexErrorCode::UploadAddressExpired => "UPLOAD_ADDRESS_EXPIRED"@,
        YandexErrorCode::UrlAlreadyAdded => "URL_ALREADY_ADDED"@,
        YandexErrorCode::UrlsAreCorrupted => "URLS_ARE_CORRUPTED"@,
        YandexErrorCode::VerificationAlreadyInProgress => "VERIFICATION_ALREADY_IN_PROGRESS"@,
        YandexErrorCode::WrongRegion => "WRONG_REGION"@,
        YandexErrorCode::Unknown(s) => s@,
    }
}

/// The known code whose name is `s`, if there is one.
pub open spec fn known_code_of(s: Seq<char>) -> Option<YandexErrorCode> {
    if s == "ACCESS_FORBIDDEN"@ {
        Some(YandexErrorCode::AccessForbidden)
    } else if s == "BAD_HTTP_CODE"@ {
        Some(YandexErrorCode::BadHttpCode)
    } else if s == "BAD_MIME_TYPE"@ {
        Some(YandexErrorCode::BadMimeType)
    } else if s == "BATCH_LIMIT_EXCEEDED"@ {
        Some(YandexErrorCode::BatchLimitExceeded)
    } else if s == "CONTENT_ENCODING_UNSUPPORTED"@ {
        Some(YandexErrorCode::ContentEncodingUnsupported)
    } else if s == "CONTENT_TYPE_UNSUPPORTED"@ {
        Some(YandexErrorCode::ContentTypeUnsupported)
    } else if s == "EMPTY_DATES"@ {
        Some(YandexErrorCode::EmptyDates)
    } else if s == "EMPTY_PATHS"@ {
        Some(YandexErrorCode::EmptyPaths)
    } else if s == "ENTITY_VALIDATION_ERROR"@ {
        Some(YandexErrorCode::EntityValidationError)
    } else if s == "FEED_ALREADY_ADDED"@ {
        Some(YandexErrorCode::FeedAlreadyAdded)
    } else if s == "FEEDS_CATEGORY_BAN"@ {
        Some(YandexErrorCode::FeedsCategoryBan)
    } else if s == "FEEDS_LIMIT_EXCEEDED"@ {
        Some(YandexErrorCode::FeedsLimitExceeded)
    } else if s == "FIELD_VALIDATION_ERROR"@ {
        Some(YandexErrorCode::FieldValidationError)
    } else if s == "HOST_ALREADY_ADDED"@ {
        Some(YandexErrorCode::HostAlreadyAdded)
    } else if s == "HOST_NOT_FOUND"@ {
        Some(YandexErrorCode::HostNotFound)
    } else if s == "HOST_NOT_INDEXED"@ {
        Some(YandexErrorCode::HostNotIndexed)
    } else if s == "HOST_NOT_LOADED"@ {
        Some(YandexErrorCode::HostNotLoaded)
    } else if s == "HOST_NOT_VERIFIED"@ {
        Some(YandexErrorCode::HostNotVerified)
    } else if s == "HOSTS_LIMIT_EXCEEDED"@ {
        Some(YandexErrorCode::HostsLimitExceeded)
    } else if s == "INCORRECT_URL"@ {
        Some(YandexErrorCode::IncorrectUrl)
    } else if s == "INVALID_OAUTH_TOKEN"@ {
        Some(YandexErrorCode::InvalidOauthToken)
    } else if s == "INVALID_URL"@ {
        Some(YandexErrorCode::InvalidUrl)
    } else if s == "INVALID_USER_ID"@ {
        Some(YandexErrorCode::InvalidUserId)
    } else if s == "LIMITS_EXCEEDED"@ {
        Some(YandexErrorCode::LimitsExceeded)
    } else if s == "MANY_URLS_FOR_REMOVE"@ {
        Some(YandexErrorCode::ManyUrlsForRemove)
    } else if s == "METHOD_NOT_ALLOWED"@ {
        Some(YandexErrorCode::MethodNotAllowed)
    } else if s == "NO_CHANGES"@ {
        Some(YandexErrorCode::NoChanges)
    } else if s == "NO_VERIFICATION_RECORD"@ {
        Some(YandexErrorCode::NoVerificationRecord)
    } else if s == "NOT_EXIST"@ {
        Some(YandexErrorCode::NotExist)
    } else if s == "ONLY_HTTPS"@ {
        Some(YandexErrorCode::OnlyHttps)
    } else if s == "PAYLOAD_TOO_LARGE"@ {
        Some(YandexErrorCode::PayloadTooLarge)
    } else if s == "QUERY_ID_NOT_FOUND"@ {
        Some(YandexErrorCode::QueryIdNotFound)
    } else if s == "QUOTA_EXCEEDED"@ {
        Some(YandexErrorCode::QuotaExceeded)
    } else if s == "REQUEST_ENTITY_TOO_LARGE"@ {
        Some(YandexErrorCode::RequestEntityTooLarge)
    } else if s == "REQUEST_NOT_FOUND"@ {
        Some(YandexErrorCode::RequestNotFound)
    } else if s == "RESOURCE_NOT_FOUND"@ {
        Some(YandexErrorCode::ResourceNotFound)
    } else if s == "SITEMAP_ALREADY_ADDED"@ {
        Some(YandexErrorCode::SitemapAlreadyAdded)
    } else if s == "SITEMAP_NOT_ADDED"@ {
        Some(YandexErrorCode::SitemapNotAdded)
    } else if s == "SITEMAP_NOT_FOUND"@ {
        Some(YandexErrorCode::SitemapNotFound)
    } else if s == "SOME_DATES_ARE_UNAVAILABLE"@ {
        Some(YandexErrorCode::SomeDatesAreUnavailable)
    } else if s == "TASK_NOT_FOUND"@ {
        Some(YandexErrorCode::TaskNotFound)
    } else if s == "TEXT_ALREADY_ADDED"@ {
        Some(YandexErrorCode::TextAlreadyAdded)
    } else if s == "TEXT_LENGTH_CONSTRAINTS_VIOLATION"@ {
        Some(YandexErrorCode::TextLengthConstraintsViolation)
    } else if s == "TIMED_OUT"@ {
        Some(YandexErrorCode::TimedOut)
    } else if s == "TOO_MANY_REQUESTS_ERROR"@ {
        Some(YandexErrorCode::TooManyRequestsError)
    } else if s == "UPLOAD_ADDRESS_EXPIRED"@ {
        Some(YandexErrorCode::UploadAddressExpired)
    } else if s == "URL_ALREADY_ADDED"@ {
        Some(YandexErrorCode::UrlAlreadyAdded)
    } else if s == "URLS_ARE_CORRUPTED"@ {
        Some(YandexErrorCode::UrlsAreCorrupted)
    } else if s == "VERIFICATION_ALREADY_IN_PROGRESS"@ {
        Some(YandexErrorCode::VerificationAlreadyInProgress)
    } else if s == "WRONG_REGION"@ {
        Some(YandexErrorCode::WrongRegion)
    } else {
        None
    }
}

/// Whether `s` names one of the known codes.
pub open spec fn is_known_code(s: Seq<char>) -> bool {
    known_code_of(s) is Some
}

/// Whether `c` is what the text `s` decodes to: the known code of that name,
/// or else an unknown code holding `s`.
pub open spec fn decodes_to(s: Seq<char>, c: YandexErrorCode) -> bool {
    match known_code_of(s) {
        Some(k) => c == k,
        None => c is Unknown && code_name(c) == s,
    }
}

/// Each known code is decoded from its own name: the names of the known
/// codes are pairwise distinct.
pub proof fn lemma_known_code_name_decodes(c: YandexErrorCode)
    requires
        !(c is Unknown),
    ensures
        known_code_of(code_name(c)) == Some(c),
        is_known_code(code_name(c)),
{

    reveal_strlit("ACCESS_FORBIDDEN");
    reveal_strlit("BAD_HTTP_CODE");
    reveal_strlit("BAD_MIME_TYPE");
    reveal_strlit("BATCH_LIMIT_EXCEEDED");
    reveal_strlit("CONTENT_ENCODING_UNSUPPORTED");
    reveal_strlit("CONTENT_TYPE_UNSUPPORTED");
    reveal_strlit("EMPTY_DATES");
    reveal_strlit("EMPTY_PATHS");
    reveal_strlit("ENTITY_VALIDATION_ERROR");
    reveal_strlit("FEED_ALREADY_ADDED");
    reveal_strlit("FEEDS_CATEGORY_BAN");
    reveal_strlit("FEEDS_LIMIT_EXCEEDED");
    reveal_strlit("FIELD_VALIDATION_ERROR");
    reveal_strlit("HOST_ALREADY_ADDED");
    reveal_strlit("HOST_NOT_FOUND");
    reveal_strlit("HOST_NOT_INDEXED");
    reveal_strlit("HOST_NOT_LOADED");
    reveal_strlit("HOST_NOT_VERIFIED");
    reveal_strlit("HOSTS_LIMIT_EXCEEDED");
    reveal_strlit("INCORRECT_URL");
    reveal_strlit("INVALID_OAUTH_TOKEN");
    reveal_strlit("INVALID_URL");
    reveal_strlit("INVALID_USER_ID");
    reveal_strlit("LIMITS_EXCEEDED");
    reveal_strlit("MANY_URLS_FOR_REMOVE");
    reveal_strlit("METHOD_NOT_ALLOWED");
    reveal_strlit("NO_CHANGES");
    reveal_strlit("NO_VERIFICATION_RECORD");
    reveal_strlit("NOT_EXIST");
    reveal_strlit("ONLY_HTTPS");
    reveal_strlit("PAYLOAD_TOO_LARGE");
    reveal_strlit("QUERY_ID_NOT_FOUND");
    reveal_strlit("QUOTA_EXCEEDED");
    reveal_strlit("REQUEST_ENTITY_TOO_LARGE");
    reveal_strlit("REQUEST_NOT_FOUND");
    reveal_strlit("RESOURCE_NOT_FOUND");
    reveal_strlit("SITEMAP_ALREADY_ADDED");
    reveal_strlit("SITEMAP_NOT_ADDED");
    reveal_strlit("SITEMAP_NOT_FOUND");
    reveal_strlit("SOME_DATES_ARE_UNAVAILABLE");
    reveal_strlit("TASK_NOT_FOUND");
    reveal_strlit("TEXT_ALREADY_ADDED");
    reveal_strlit("TEXT_LENGTH_CONSTRAINTS_VIOLATION");
    reveal_strlit("TIMED_OUT");
    reveal_strlit("TOO_MANY_REQUESTS_ERROR");
    reveal_strlit("UPLOAD_ADDRESS_EXPIRED");
    reveal_strlit("URL_ALREADY_ADDED");
    reveal_strlit("URLS_ARE_CORRUPTED");
    reveal_strlit("VERIFICATION_ALREADY_IN_PROGRESS");
    reveal_strlit("WRONG_REGION");
    match c {
        YandexErrorCode::AccessForbidden => {
        },
        YandexErrorCode::BadHttpCode => {
            assert(code_name(YandexErrorCode::AccessForbidden).len() != code_name(c).len());
        },
        YandexErrorCode::BadMimeType => {
            assert(code_name(YandexErrorCode::AccessForbidden).len() != code_name(c).len());
            assert(code_name(YandexErrorCode::BadHttpCode)[4] != code_name(c)[4]);
        },
        YandexErrorCode::BatchLimitExceeded => {
            assert(code_name(YandexErrorCode::AccessForbidden).len() != code_name(c).len());
            assert(code_name(YandexErrorCode::BadHttpCode).len() != code_name(c).len());
            assert(code_name(YandexErrorCode::BadMimeType).len() != code_name(c).len());
        },
        YandexErrorCode::ContentEncodingUnsupported => {
            assert(code_name(YandexErrorCode::AccessForbidden).len() != code_name(c).len());
            assert(code_name(YandexErrorCode::BadHttpCode).len() != code_name(c).len());
            assert(code_name(YandexErrorCode::BadMimeType).len() != code_name(c).len());
            assert(code_name(YandexErrorCode::BatchLimitExceeded).len() != code_name(c).len());
        },
        YandexErrorCode::ContentTypeUnsupported => {
            assert(code_name(YandexErrorCode::AccessForbidden).len() != code_name(c).len());
            assert(code_name(YandexErrorCode::BadHttpCode).len() != code_name(c).len());
            assert(code_name(YandexErrorCode::BadMimeType).len() != code_name(c).len());
            assert(code_name(YandexErrorCode::BatchLimitExceeded).len() != code_name(c).len());
            assert(code_name(YandexErrorCode::ContentEncodingUnsupported).len() != code_name(c).len());
        },
        YandexErrorCode::EmptyDates => {
            assert(code_name(YandexErrorCode::AccessForbidden).len() != code_name(c).len());
            assert(code_name(YandexErrorCode::BadHttpCode).len() != code_name(c).len());
            assert(code_name(YandexErrorCode::BadMimeType).len() != code_name(c).len());
            assert(code_name(YandexErrorCode::BatchLimitExceeded).len() != code_name(c).len());
            assert(code_name(YandexErrorCode::ContentEncodingUnsupported).len() != code_name(c).len());
            assert(code_name(YandexErrorCode::ContentTypeUnsupported).len() != code_name(c).len());
        },
        YandexErrorCode::EmptyPaths => {
            assert(code_name(YandexErrorCode::AccessForbidden).len() != code_name(c).len());
            assert(code_name(YandexErrorCode::BadHttpCode).len() != code_name(c).len());
            assert(code_name(YandexErrorCode::BadMimeType).len() != code_name(c).len());
            assert(code_name(YandexErrorCode::BatchLimitExceeded).len() != code_name(c).len());
            assert(code_name(YandexErrorCode::ContentEncodingUnsupported).len() != code_name(c).len());
            assert(code_name(YandexErrorCode::ContentTypeUnsupported).len() != code_name(c).len());
            assert(code_name(YandexErrorCode::EmptyDates)[6] != code_name(c)[6]);
        },
        YandexErrorCode::EntityValidationError => {
            assert(code_name(YandexErrorCode::AccessForbidden).len() != code_name(c).len());
            assert(code_name(YandexErrorCode::BadHttpCode).len() != code_name(c).len());
            assert(code_name(YandexErrorCode::BadMimeType).len() != code_name(c).len());
            assert(code_name(YandexErrorCode::BatchLimitExceeded).len() != code_name(c).len());
            assert(code_name(YandexErrorCode::ContentEncodingUnsupported).len() != code_name(c).len());
            assert(code_name(YandexErrorCode::ContentTypeUnsupported).len() != code_name(c).len());
            assert(code_name(YandexErrorCode::EmptyDates).len() != code_name(c).len());
            assert(code_name(YandexErrorCode::EmptyPaths).len() != code_name(c).len());
        },
        YandexErrorCode::FeedAlreadyAdded => {
            assert(code_name(YandexErrorCode::AccessForbidden).len() != code_name(c).len());
            assert(code_name(YandexErrorCode::BadHttpCode).len() != code_name(c).len());
            assert(code_name(YandexErrorCode::BadMimeType).len() != code_name(c).len());
            assert(code_name(YandexErrorCode::BatchLimitExceeded).len() != code_name(c).len());
            assert(code_name(YandexErrorCode::ContentEncodingUnsupported).len() != code_name(c).len());
            assert(code_name(YandexErrorCode::ContentTypeUnsupported).len() != code_name(c).len());
            assert(code_name(YandexErrorCode::EmptyDates).len() != code_name(c).len());
            assert(code_name(YandexErrorCode::EmptyPaths).len() != code_name(c).len());
            assert(code_name(YandexErrorCode::EntityValidationError).len() != code_name(c).len());
        },
        YandexErrorCode::FeedsCategoryBan => {
            assert(code_name(YandexErrorCode::AccessForbidden).len() != code_name(c).len());
            assert(code_name(YandexErrorCode::BadHttpCode).len() != code_name(c).len());
            assert(code_name(YandexErrorCode::BadMimeType).len() != code_name(c).len());
            assert(code_name(YandexErrorCode::BatchLimitExceeded).len() != code_name(c).len());
            assert(code_name(YandexErrorCode::ContentEncodingUnsupported).len() != code_name(c).len());
            assert(code_name(YandexErrorCode::ContentTypeUnsupported).len() != code_name(c).len());
            assert(code_name(YandexErrorCode::EmptyDates).len() != code_name(c).len());
            assert(code_name(YandexErrorCode::EmptyPaths).len() != code_name(c).len());
            assert(code_name(YandexErrorCode::EntityValidationError).len() != code_name(c).len());
            assert(code_name(YandexErrorCode::FeedAlreadyAdded)[4] != code_name(c)[4]);
        },
        YandexErrorCode::FeedsLimitExceeded => {
            assert(code_name(YandexErrorCode::AccessForbidden).len() != code_name(c).len());
            assert(code_name(YandexErrorCode::BadHttpCode).len() != code_name(c).len());
            assert(code_name(YandexErrorCode::BadMimeType).len() != code_name(c).len());
            assert(code_name(YandexErrorCode::BatchLimitExceeded)[0] != code_name(c)[0]);
            assert(code_name(YandexErrorCode::ContentEncodingUnsupported).len() != code_name(c).len());
            assert(code_name(YandexErrorCode::ContentTypeUnsupported).len() != code_name(c).len());
            assert(code_name(YandexErrorCode::EmptyDates).len() != code_name(c).len());
            assert(code_name(YandexErrorCode::EmptyPaths).len() != code_name(c).len());
            assert(code_name(YandexErrorCode::EntityValidationError).len() != code_name(c).len());
            assert(code_name(YandexErrorCode::FeedAlreadyAdded).len() != code_name(c).len());
            assert(code_name(YandexErrorCode::FeedsCategoryBan).len() != code_name(c).len());
        },
        YandexErrorCode::FieldValidationError => {
            assert(code_name(YandexErrorCode::AccessForbidden).len() != code_name(c).len());
            assert(code_name(YandexErrorCode::BadHttpCode).len() != code_name(c).len());
            assert(code_name(YandexErrorCode::BadMimeType).len() != code_name(c).len());
            assert(code_name(YandexErrorCode::BatchLimitExceeded).len() != code_name(c).len());
            assert(code_name(YandexErrorCode::ContentEncodingUnsupported).len() != code_name(c).len());
            assert(code_name(YandexErrorCode::ContentTypeUnsupported).len() != code_name(c).len());
            assert(code_name(YandexErrorCode::EmptyDates).len() != code_name(c).len());
            assert(code_name(YandexErrorCode::EmptyPaths).len() != code_name(c).len());
            assert(code_name(YandexErrorCode::EntityValidationError).len() != code_name(c).len());
            assert(code_name(YandexErrorCode::FeedAlreadyAdded).len() != code_name(c).len());
            assert(code_name(YandexErrorCode::FeedsCategoryBan).len() != code_name(c).len());
            assert(code_name(YandexErrorCode::FeedsLimitExceeded).len() != code_name(c).len());
        },
        YandexErrorCode::HostAlreadyAdded => {
            assert(code_name(YandexErrorCode::AccessForbidden).len() != code_name(c).len());
            assert(code_name(YandexErrorCode::BadHttpCode).len() != code_name(c).len());
            assert(code_name(YandexErrorCode::BadMimeType).len() != code_name(c).len());
            assert(code_name(YandexErrorCode::BatchLimitExceeded).len() != code_name(c).len());
            assert(code_name(YandexErrorCode::ContentEncodingUnsupported).len() != code_name(c).len());
            assert(code_name(YandexErrorCode::ContentTypeUnsupported).len() != code_name(c).len());
            assert(code_name(YandexErrorCode::EmptyDates).len() != code_name(c).len());
            assert(code_name(YandexErrorCode::EmptyPaths).len() != code_name(c).len());
            assert(code_name(YandexErrorCode::EntityValidationError).len() != code_name(c).len());
            assert(code_name(YandexErrorCode::FeedAlreadyAdded)[0] != code_name(c)[0]);
            assert(code_name(YandexErrorCode::FeedsCategoryBan)[0] != code_name(c)[0]);
            assert(code_name(YandexErrorCode::FeedsLimitExceeded).len() != code_name(c).len());
            assert(code_name(YandexErrorCode::FieldValidationError).len() != code_name(c).len());
        },
        YandexErrorCode::HostNotFound => {
            assert(code_name(YandexErrorCode::AccessForbidden).len() != code_name(c).len());
            assert(code_name(YandexErrorCode::BadHttpCode).len() != code_name(c).len());
            assert(code_name(YandexErrorCode::BadMimeType).len() != code_name(c).len());
            assert(code_name(YandexErrorCode::BatchLimitExceeded).len() != code_name(c).len());
            assert(code_name(YandexErrorCode::ContentEncodingUnsupported).len() != code_name(c).len());
            assert(code_name(YandexErrorCode::ContentTypeUnsupported).len() != code_name(c).len());
            assert(code_name(YandexErrorCode::EmptyDates).len() != code_name(c).len());
            assert(code_name(YandexErrorCode::EmptyPaths).len() != code_name(c).len());
            assert(code_name(YandexErrorCode::EntityValidationError).len() != code_name(c).len());
            assert(code_name(YandexErrorCode::FeedAlreadyAdded).len() != code_name(c).len());
            assert(code_name(YandexErrorCode::FeedsCategoryBan).len() != code_name(c).len());
            assert(code_name(YandexErrorCode::FeedsLimitExceeded).len() != code_name(c).len());
            assert(code_name(YandexErrorCode::FieldValidationError).len() != code_name(c).len());
            assert(code_name(YandexErrorCode::HostAlreadyAdded).len() != code_name(c).len());
        },
        YandexErrorCode::HostNotIndexed => {
            assert(code_name(YandexErrorCode::AccessForbidden)[0] != code_name(c)[0]);
            assert(code_name(YandexErrorCode::BadHttpCode).len() != code_name(c).len());
            assert(code_name(YandexErrorCode::BadMimeType).len() != code_name(c).len());
            assert(code_name(YandexErrorCode::BatchLimitExceeded).len() != code_name(c).len());
            assert(code_name(YandexErrorCode::ContentEncodingUnsupported).len() != code_name(c).len());
            assert(code_name(YandexErrorCode::ContentTypeUnsupported).len() != code_name(c).len());
            assert(code_name(YandexErrorCode::EmptyDates).len() != code_name(c).len());
            assert(code_name(YandexErrorCode::EmptyPaths).len() != code_name(c).len());
            assert(code_name(YandexErrorCode::EntityValidationError).len() != code_name(c).len());
            assert(code_name(YandexErrorCode::FeedAlreadyAdded).len() != code_name(c).len());
            assert(code_name(YandexErrorCode::FeedsCategoryBan).len() != code_name(c).len());
            assert(code_name(YandexErrorCode::FeedsLimitExceeded).len() != code_name(c).len());
            assert(code_name(YandexErrorCode::FieldValidationError).len() != code_name(c).len());
            assert(code_name(YandexErrorCode::HostAlreadyAdded).len() != code_name(c).len());
            assert(code_name(YandexErrorCode::HostNotFound).len() != code_name(c).len());
        },
        YandexErrorCode::HostNotLoaded => {
            assert(code_name(YandexErrorCode::AccessForbidden).len() != code_name(c).len());
            assert(code_name(YandexErrorCode::BadHttpCode).len() != code_name(c).len());
            assert(code_name(YandexErrorCode::BadMimeType).len() != code_name(c).len());
            assert(code_name(YandexErrorCode::BatchLimitExceeded).len() != code_name(c).len());
            assert(code_name(YandexErrorCode::ContentEncodingUnsupported).len() != code_name(c).len());
            assert(code_name(YandexErrorCode::ContentTypeUnsupported).len() != code_name(c).len());
            assert(code_name(YandexErrorCode::EmptyDates).len() != code_name(c).len());
            assert(code_name(YandexErrorCode::EmptyPaths).len() != code_name(c).len());
            assert(code_name(YandexErrorCode::EntityValidationError).len() != code_name(c).len());
            assert(code_name(YandexErrorCode::FeedAlreadyAdded).len() != code_name(c).len());
            assert(code_name(YandexErrorCode::FeedsCategoryBan).len() != code_name(c).len());
            assert(code_name(YandexErrorCode::FeedsLimitExceeded).len() != code_name(c).len());
            assert(code_name(YandexErrorCode::FieldValidationError).len() != code_name(c).len());
            assert(code_name(YandexErrorCode::HostAlreadyAdded).len() != code_name(c).len());
            assert(code_name(YandexErrorCode::HostNotFound).len() != code_name(c).len());
            assert(code_name(YandexErrorCode::HostNotIndexed).len() != code_name(c).len());
        },
        YandexErrorCode::HostNotVerified => {
            assert(code_name(YandexErrorCode::AccessForbidden).len() != code_name(c).len());
            assert(code_name(YandexErrorCode::BadHttpCode).len() != code_name(c).len());
            assert(code_name(YandexErrorCode::BadMimeType).len() != code_name(c).len());
            assert(code_name(YandexErrorCode::BatchLimitExceeded).len() != code_name(c).len());
            assert(code_name(YandexErrorCode::ContentEncodingUnsupported).len() != code_name(c).len());
            assert(code_name(YandexErrorCode::ContentTypeUnsupported).len() != code_name(c).len());
            assert(code_name(YandexErrorCode::EmptyDates).len() != code_name(c).len());
            assert(code_name(YandexErrorCode::EmptyPaths).len() != code_name(c).len());
            assert(code_name(YandexErrorCode::EntityValidationError).len() != code_name(c).len());
            assert(code_name(YandexErrorCode::FeedAlreadyAdded).len() != code_name(c).len());
            assert(code_name(YandexErrorCode::FeedsCategoryBan).len() != code_name(c).len());
            assert(code_name(YandexErrorCode::FeedsLimitExceeded).len() != code_name(c).len());
            assert(code_name(YandexErrorCode::FieldValidationError).len() != code_name(c).len());
            assert(code_name(YandexErrorCode::HostAlreadyAdded).len() != code_name(c).len());
            assert(code_name(YandexErrorCode::HostNotFound).len() != code_name(c).len());
            assert(code_name(YandexErrorCode::HostNotIndexed).len() != code_name(c).len());
            assert(code_name(YandexErrorCode::HostNotLoaded).len() != code_name(c).len());
        },
        YandexErrorCode::HostsLimitExceeded => {
            assert(code_name(YandexErrorCode::AccessForbidden).len() != code_name(c).len());
            assert(code_name(YandexErrorCode::BadHttpCode).len() != code_name(c).len());
            assert(code_name(YandexErrorCode::BadMimeType).len() != code_name(c).len());
            assert(code_name(YandexErrorCode::BatchLimitExceeded)[0] != code_name(c)[0]);
            assert(code_name(YandexErrorCode::ContentEncodingUnsupported).len() != code_name(c).len());
            assert(code_name(YandexErrorCode::ContentTypeUnsupported).len() != code_name(c).len());
            assert(code_name(YandexErrorCode::EmptyDates).len() != code_name(c).len());
            assert(code_name(YandexErrorCode::EmptyPaths).len() != code_name(c).len());
            assert(code_name(YandexErrorCode::EntityValidationError).len() != code_name(c).len());
            assert(code_name(YandexErrorCode::FeedAlreadyAdded).len() != code_name(c).len());
            assert(code_name(YandexErrorCode::FeedsCategoryBan).len() != code_name(c).len());
            assert(code_name(YandexErrorCode::FeedsLimitExceeded)[0] != code_name(c)[0]);
            assert(code_name(YandexErrorCode::FieldValidationError).len() != code_name(c).len());
            assert(code_name(YandexErrorCode::HostAlreadyAdded).len() != code_name(c).len());
            assert(code_name(YandexErrorCode::HostNotFound).len() != code_name(c).len());
            assert(code_name(YandexErrorCode::HostNotIndexed).len() != code_name(c).len());
            assert(code_name(YandexErrorCode::HostNotLoaded).len() != code_name(c).len());
            assert(code_name(YandexErrorCode::HostNotVerified).len() != code_name(c).len());
        },
        YandexErrorCode::IncorrectUrl => {
            assert(code_name(YandexErrorCode::AccessForbidden).len() != code_name(c).len());
            assert(code_name(YandexErrorCode::BadHttpCode)[0] != code_name(c)[0]);
            assert(code_name(YandexErrorCode::BadMimeType)[0] != code_name(c)[0]);
            assert(code_name(YandexErrorCode::BatchLimitExceeded).len() != code_name(c).len());
            assert(code_name(YandexErrorCode::ContentEncodingUnsupported).len() != code_name(c).len());
            assert(code_name(YandexErrorCode::ContentTypeUnsupported).len() != code_name(c).len());
            assert(code_name(YandexErrorCode::EmptyDates).len() != code_name(c).len());
            assert(code_name(YandexErrorCode::EmptyPaths).len() != code_name(c).len());
            assert(code_name(YandexErrorCode::EntityValidationError).len() != code_name(c).len());
            assert(code_name(YandexErrorCode::FeedAlreadyAdded).len() != code_name(c).len());
            assert(code_name(YandexErrorCode::FeedsCategoryBan).len() != code_name(c).len());
            assert(code_name(YandexErrorCode::FeedsLimitExceeded).len() != code_name(c).len());
            assert(code_name(YandexErrorCode::FieldValidationError).len() != code_name(c).len());
            assert(code_name(YandexErrorCode::HostAlreadyAdded).len() != code_name(c).len());
            assert(code_name(YandexErrorCode::HostNotFound).len() != code_name(c).len());
            assert(code_name(YandexErrorCode::HostNotIndexed).len() != code_name(c).len());
            assert(code_name(YandexErrorCode::HostNotLoaded).len() != code_name(c).len());
            assert(code_name(YandexErrorCode::HostNotVerified).len() != code_name(c).len());
            assert(code_name(YandexErrorCode::HostsLimitExceeded).len() != code_name(c).len());
        },
        YandexErrorCode::InvalidOauthToken => {
            assert(code_name(YandexErrorCode::AccessForbidden).len() != code_name(c).len());
            assert(code_name(YandexErrorCode::BadHttpCode).len() != code_name(c).len());
            assert(code_name(YandexErrorCode::BadMimeType).len() != code_name(c).len());
            assert(code_name(YandexErrorCode::BatchLimitExceeded).len() != code_name(c).len());
            assert(code_name(YandexErrorCode::ContentEncodingUnsupported).len() != code_name(c).len());
            assert(code_name(YandexErrorCode::ContentTypeUnsupported).len() != code_name(c).len());
            assert(code_name(YandexErrorCode::EmptyDates).len() != code_name(c).len());
            assert(code_name(YandexErrorCode::EmptyPaths).len() != code_name(c).len());
            assert(code_name(YandexErrorCode::EntityValidationError).len() != code_name(c).len());
            assert(code_name(YandexErrorCode::FeedAlreadyAdded).len() != code_name(c).len());
            assert(code_name(YandexErrorCode::FeedsCategoryBan).len() != code_name(c).len());
            assert(code_name(YandexErrorCode::FeedsLimitExceeded).len() != code_name(c).len());
            assert(code_name(YandexErrorCode::FieldValidationError).len() != code_name(c).len());
            assert(code_name(YandexErrorCode::HostAlreadyAdded).len() != code_name(c).len());
            assert(code_name(YandexErrorCode::HostNotFound).len() != code_name(c).len());
            assert(code_name(YandexErrorCode::HostNotIndexed).len() != code_name(c).len());
            assert(code_name(YandexErrorCode::HostNotLoaded).len() != code_name(c).len());
            assert(code_name(YandexErrorCode::HostNotVerified).len() != code_name(c).len());
            assert(code_name(YandexErrorCode::HostsLimitExceeded).len() != code_name(c).len());
            assert(code_name(YandexErrorCode::IncorrectUrl).len() != code_name(c).len());
        },
        YandexErrorCode::InvalidUrl => {
            assert(code_name(YandexErrorCode::AccessForbidden).len() != code_name(c).len());
            assert(code_name(YandexErrorCode::BadHttpCode).len() != code_name(c).len());
            assert(code_name(YandexErrorCode::BadMimeType).len() != code_name(c).len());
            assert(code_name(YandexErrorCode::BatchLimitExceeded).len() != code_name(c).len());
            assert(code_name(YandexErrorCode::ContentEncodingUnsupported).len() != code_name(c).len());
            assert(code_name(YandexErrorCode::ContentTypeUnsupported).len() != code_name(c).len());
            assert(code_name(YandexErrorCode::EmptyDates)[0] != code_name(c)[0]);
            assert(code_name(YandexErrorCode::EmptyPaths)[0] != code_name(c)[0]);
            assert(code_name(YandexErrorCode::EntityValidationError).len() != code_name(c).len());
            assert(code_name(YandexErrorCode::FeedAlreadyAdded).len() != code_name(c).len());
            assert(code_name(YandexErrorCode::FeedsCategoryBan).len() != code_name(c).len());
            assert(code_name(YandexErrorCode::FeedsLimitExceeded).len() != code_name(c).len());
            assert(code_name(YandexErrorCode::FieldValidationError).len() != code_name(c).len());
            assert(code_name(YandexErrorCode::HostAlreadyAdded).len() != code_name(c).len());
            assert(code_name(YandexErrorCode::HostNotFound).len() != code_name(c).len());
            assert(code_name(YandexErrorCode::HostNotIndexed).len() != code_name(c).len());
            assert(code_name(YandexErrorCode::HostNotLoaded).len() != code_name(c).len());
            assert(code_name(YandexErrorCode::HostNotVerified).len() != code_name(c).len());
            assert(code_name(YandexErrorCode::HostsLimitExceeded).len() != code_name(c).len());
            assert(code_name(YandexErrorCode::IncorrectUrl).len() != code_name(c).len());
            assert(code_name(YandexErrorCode::InvalidOauthToken).len() != code_name(c).len());
        },
        YandexErrorCode::InvalidUserId => {
            assert(code_name(YandexErrorCode::AccessForbidden).len() != code_name(c).len());
            assert(code_name(YandexErrorCode::BadHttpCode).len() != code_name(c).len());
            assert(code_name(YandexErrorCode::BadMimeType).len() != code_name(c).len());
            assert(code_name(YandexErrorCode::BatchLimitExceeded).len() != code_name(c).len());
            assert(code_name(YandexErrorCode::ContentEncodingUnsupported).len() != code_name(c).len());
            assert(code_name(YandexErrorCode::ContentTypeUnsupported).len() != code_name(c).len());
            assert(code_name(YandexErrorCode::EmptyDates).len() != code_name(c).len());
            assert(code_name(YandexErrorCode::EmptyPaths).len() != code_name(c).len());
            assert(code_name(YandexErrorCode::EntityValidationError).len() != code_name(c).len());
            assert(code_name(YandexErrorCode::FeedAlreadyAdded).len() != code_name(c).len());
            assert(code_name(YandexErrorCode::FeedsCategoryBan).len() != code_name(c).len());
            assert(code_name(YandexErrorCode::FeedsLimitExceeded).len() != code_name(c).len());
            assert(code_name(YandexErrorCode::FieldValidationError).len() != code_name(c).len());
            assert(code_name(YandexErrorCode::HostAlreadyAdded).len() != code_name(c).len());
            assert(code_name(YandexErrorCode::HostNotFound).len() != code_name(c).len());
            assert(code_name(YandexErrorCode::HostNotIndexed).len() != code_name(c).len());
            assert(code_name(YandexErrorCode::HostNotLoaded)[0] != code_name(c)[0]);
            assert(code_name(YandexErrorCode::HostNotVerified).len() != code_name(c).len());
            assert(code_name(YandexErrorCode::HostsLimitExceeded).len() != code_name(c).len());
            assert(code_name(YandexErrorCode::IncorrectUrl).len() != code_name(c).len());
            assert(code_name(YandexErrorCode::InvalidOauthToken).len() != code_name(c).len());
            assert(code_name(YandexErrorCode::InvalidUrl).len() != code_name(c).len());
        },
        YandexErrorCode::LimitsExceeded => {
            assert(code_name(YandexErrorCode::AccessForbidden).len() != code_name(c).len());
            assert(code_name(YandexErrorCode::BadHttpCode).len() != code_name(c).len());
            assert(code_name(YandexErrorCode::BadMimeType).len() != code_name(c).len());
            assert(code_name(YandexErrorCode::BatchLimitExceeded).len() != code_name(c).len());
            assert(code_name(YandexErrorCode::ContentEncodingUnsupported).len() != code_name(c).len());
            assert(code_name(YandexErrorCode::ContentTypeUnsupported).len() != code_name(c).len());
            assert(code_name(YandexErrorCode::EmptyDates).len() != code_name(c).len());
            assert(code_name(YandexErrorCode::EmptyPaths).len() != code_name(c).len());
            assert(code_name(YandexErrorCode::EntityValidationError).len() != code_name(c).len());
            assert(code_name(YandexErrorCode::FeedAlreadyAdded).len() != code_name(c).len());
            assert(code_name(YandexErrorCode::FeedsCategoryBan).len() != code_name(c).len());
            assert(code_name(YandexErrorCode::FeedsLimitExceeded).len() != code_name(c).len());
            assert(code_name(YandexErrorCode::FieldValidationError).len() != code_name(c).len());
            assert(code_name(YandexErrorCode::HostAlreadyAdded).len() != code_name(c).len());
            assert(code_name(YandexErrorCode::HostNotFound).len() != code_name(c).len());
            assert(code_name(YandexErrorCode::HostNotIndexed).len() != code_name(c).len());
            assert(code_name(YandexErrorCode::HostNotLoaded)[0] != code_name(c)[0]);
            assert(code_name(YandexErrorCode::HostNotVerified).len() != code_name(c).len());
            assert(code_name(YandexErrorCode::HostsLimitExceeded).len() != code_name(c).len());
            assert(code_name(YandexErrorCode::IncorrectUrl).len() != code_name(c).len());
            assert(code_name(YandexErrorCode::InvalidOauthToken).len() != code_name(c).len());
            assert(code_name(YandexErrorCode::InvalidUrl).len() != code_name(c).len());
            assert(code_name(YandexErrorCode::InvalidUserId)[0] != code_name(c)[0]);
        },
        YandexErrorCode::ManyUrlsForRemove => {
            assert(code_name(YandexErrorCode::AccessForbidden).len() != code_name(c).len());
            assert(code_name(YandexErrorCode::BadHttpCode).len() != code_name(c).len());
            assert(code_name(YandexErrorCode::BadMimeType).len() != code_name(c).len());
            assert(code_name(YandexErrorCode::BatchLimitExceeded)[0] != code_name(c)[0]);
            assert(code_name(YandexErrorCode::ContentEncodingUnsupported).len() != code_name(c).len());
            assert(code_name(YandexErrorCode::ContentTypeUnsupported).len() != code_name(c).len());
            assert(code_name(YandexErrorCode::EmptyDates).len() != code_name(c).len());
            assert(code_name(YandexErrorCode::EmptyPaths).len() != code_name(c).len());
            assert(code_name(YandexErrorCode::EntityValidationError).len() != code_name(c).len());
            assert(code_name(YandexErrorCode::FeedAlreadyAdded).len() != code_name(c).len());
            assert(code_name(YandexErrorCode::FeedsCategoryBan).len() != code_name(c).len());
            assert(code_name(YandexErrorCode::FeedsLimitExceeded)[0] != code_name(c)[0]);
            assert(code_name(YandexErrorCode::FieldValidationError).len() != code_name(c).len());
            assert(code_name(YandexErrorCode::HostAlreadyAdded).len() != code_name(c).len());
            assert(code_name(YandexErrorCode::HostNotFound).len() != code_name(c).len());
            assert(code_name(YandexErrorCode::HostNotIndexed).len() != code_name(c).len());
            assert(code_name(YandexErrorCode::HostNotLoaded).len() != code_name(c).len());
            assert(code_name(YandexErrorCode::HostNotVerified).len() != code_name(c).len());
            assert(code_name(YandexErrorCode::HostsLimitExceeded)[0] != code_name(c)[0]);
            assert(code_name(YandexErrorCode::IncorrectUrl).len() != code_name(c).len());
            assert(code_name(YandexErrorCode::InvalidOauthToken).len() != code_name(c).len());
            assert(code_name(YandexErrorCode::InvalidUrl).len() != code_name(c).len());
            assert(code_name(YandexErrorCode::InvalidUserId).len() != code_name(c).len());
            assert(code_name(YandexErrorCode::LimitsExceeded).len() != code_name(c).len());
        },
        YandexErrorCode::MethodNotAllowed => {
            assert(code_name(YandexErrorCode::AccessForbidden).len() != code_name(c).len());
            assert(code_name(YandexErrorCode::BadHttpCode).len() != code_name(c).len());
            assert(code_name(YandexErrorCode::BadMimeType).len() != code_name(c).len());
            assert(code_name(YandexErrorCode::BatchLimitExceeded).len() != code_name(c).len());
            assert(code_name(YandexErrorCode::ContentEncodingUnsupported).len() != code_name(c).len());
            assert(code_name(YandexErrorCode::ContentTypeUnsupported).len() != code_name(c).len());
            assert(code_name(YandexErrorCode::EmptyDates).len() != code_name(c).len());
            assert(code_name(YandexErrorCode::EmptyPaths).len() != code_name(c).len());
            assert(code_name(YandexErrorCode::EntityValidationError).len() != code_name(c).len());
            assert(code_name(YandexErrorCode::FeedAlreadyAdded)[0] != code_name(c)[0]);
            assert(code_name(YandexErrorCode::FeedsCategoryBan)[0] != code_name(c)[0]);
            assert(code_name(YandexErrorCode::FeedsLimitExceeded).len() != code_name(c).len());
            assert(code_name(YandexErrorCode::FieldValidationError).len() != code_name(c).len());
            assert(code_name(YandexErrorCode::HostAlreadyAdded)[0] != code_name(c)[0]);
            assert(code_name(YandexErrorCode::HostNotFound).len() != code_name(c).len());
            assert(code_name(YandexErrorCode::HostNotIndexed).len() != code_name(c).len());
            assert(code_name(YandexErrorCode::HostNotLoaded).len() != code_name(c).len());
            assert(code_name(YandexErrorCode::HostNotVerified).len() != code_name(c).len());
            assert(code_name(YandexErrorCode::HostsLimitExceeded).len() != code_name(c).len());
            assert(code_name(YandexErrorCode::IncorrectUrl).len() != code_name(c).len());
            assert(code_name(YandexErrorCode::InvalidOauthToken).len() != code_name(c).len());
            assert(code_name(YandexErrorCode::InvalidUrl).len() != code_name(c).len());
            assert(code_name(YandexErrorCode::InvalidUserId).len() != code_name(c).len());
            assert(code_name(YandexErrorCode::LimitsExceeded).len() != code_name(c).len());
            assert(code_name(YandexErrorCode::ManyUrlsForRemove).len() != code_name(c).len());
        },
        YandexErrorCode::NoChanges => {
            assert(code_name(YandexErrorCode::AccessForbidden).len() != code_name(c).len());
            assert(code_name(YandexErrorCode::BadHttpCode).len() != code_name(c).len());
            assert(code_name(YandexErrorCode::BadMimeType).len() != code_name(c).len());
            assert(code_name(YandexErrorCode::BatchLimitExceeded).len() != code_name(c).len());
            assert(code_name(YandexErrorCode::ContentEncodingUnsupported).len() != code_name(c).len());
            assert(code_name(YandexErrorCode::ContentTypeUnsupported).len() != code_name(c).len());
            assert(code_name(YandexErrorCode::EmptyDates).len() != code_name(c).len());
            assert(code_name(YandexErrorCode::EmptyPaths).len() != code_name(c).len());
            assert(code_name(YandexErrorCode::EntityValidationError).len() != code_name(c).len());
            assert(code_name(YandexErrorCode::FeedAlreadyAdded).len() != code_name(c).len());
            assert(code_name(YandexErrorCode::FeedsCategoryBan).len() != code_name(c).len());
            assert(code_name(YandexErrorCode::FeedsLimitExceeded).len() != code_name(c).len());
            assert(code_name(YandexErrorCode::FieldValidationError).len() != code_name(c).len());
            assert(code_name(YandexErrorCode::HostAlreadyAdded).len() != code_name(c).len());
            assert(code_name(YandexErrorCode::HostNotFound).len() != code_name(c).len());
            assert(code_name(YandexErrorCode::HostNotIndexed).len() != code_name(c).len());
            assert(code_name(YandexErrorCode::HostNotLoaded).len() != code_name(c).len());
            assert(code_name(YandexErrorCode::HostNotVerified).len() != code_name(c).len());
            assert(code_name(YandexErrorCode::HostsLimitExceeded).len() != code_name(c).len());
            assert(code_name(YandexErrorCode::IncorrectUrl).len() != code_name(c).len());
            assert(code_name(YandexErrorCode::InvalidOauthToken).len() != code_name(c).len());
            assert(code_name(YandexErrorCode::InvalidUrl).len() != code_name(c).len());
            assert(code_name(YandexErrorCode::InvalidUserId).len() != code_name(c).len());
            assert(code_name(YandexErrorCode::LimitsExceeded).len() != code_name(c).len());
            assert(code_name(YandexErrorCode::ManyUrlsForRemove).len() != code_name(c).len());
            assert(code_name(YandexErrorCode::MethodNotAllowed).len() != code_name(c).len());
        },
        YandexErrorCode::NoVerificationRecord => {
            assert(code_name(YandexErrorCode::AccessForbidden).len() != code_name(c).len());
            assert(code_name(YandexErrorCode::BadHttpCode).len() != code_name(c).len());
            assert(code_name(YandexErrorCode::BadMimeType).len() != code_name(c).len());
            assert(code_name(YandexErrorCode::BatchLimitExceeded).len() != code_name(c).len());
            assert(code_name(YandexErrorCode::ContentEncodingUnsupported).len() != code_name(c).len());
            assert(code_name(YandexErrorCode::ContentTypeUnsupported).len() != code_name(c).len());
            assert(code_name(YandexErrorCode::EmptyDates).len() != code_name(c).len());
            assert(code_name(YandexErrorCode::EmptyPaths).len() != code_name(c).len());
            assert(code_name(YandexErrorCode::EntityValidationError).len() != code_name(c).len());
            assert(code_name(YandexErrorCode::FeedAlreadyAdded).len() != code_name(c).len());
            assert(code_name(YandexErrorCode::FeedsCategoryBan).len() != code_name(c).len());
            assert(code_name(YandexErrorCode::FeedsLimitExceeded).len() != code_name(c).len());
            assert(code_name(YandexErrorCode::FieldValidationError)[0] != code_name(c)[0]);
            assert(code_name(YandexErrorCode::HostAlreadyAdded).len() != code_name(c).len());
            assert(code_name(YandexErrorCode::HostNotFound).len() != code_name(c).len());
            assert(code_name(YandexErrorCode::HostNotIndexed).len() != code_name(c).len());
            assert(code_name(YandexErrorCode::HostNotLoaded).len() != code_name(c).len());
            assert(code_name(YandexErrorCode::HostNotVerified).len() != code_name(c).len());
            assert(code_name(YandexErrorCode::HostsLimitExceeded).len() != code_name(c).len());
            assert(code_name(YandexErrorCode::IncorrectUrl).len() != code_name(c).len());
            assert(code_name(YandexErrorCode::InvalidOauthToken).len() != code_name(c).len());
            assert(code_name(YandexErrorCode::InvalidUrl).len() != code_name(c).len());
            assert(code_name(YandexErrorCode::InvalidUserId).len() != code_name(c).len());
            assert(code_name(YandexErrorCode::LimitsExceeded).len() != code_name(c).len());
            assert(code_name(YandexErrorCode::ManyUrlsForRemove).len() != code_name(c).len());
            assert(code_name(YandexErrorCode::MethodNotAllowed).len() != code_name(c).len());
            assert(code_name(YandexErrorCode::NoChanges).len() != code_name(c).len());
        },
        YandexErrorCode::NotExist => {
            assert(code_name(YandexErrorCode::AccessForbidden).len() != code_name(c).len());
            assert(code_name(YandexErrorCode::BadHttpCode).len() != code_name(c).len());
            assert(code_name(YandexErrorCode::BadMimeType).len() != code_name(c).len());
            assert(code_name(YandexErrorCode::BatchLimitExceeded).len() != code_name(c).len());
            assert(code_name(YandexErrorCode::ContentEncodingUnsupported).len() != code_name(c).len());
            assert(code_name(YandexErrorCode::ContentTypeUnsupported).len() != code_name(c).len());
            assert(code_name(YandexErrorCode::EmptyDates).len() != code_name(c).len());
            assert(code_name(YandexErrorCode::EmptyPaths).len() != code_name(c).len());
            assert(code_name(YandexErrorCode::EntityValidationError).len() != code_name(c).len());
            assert(code_name(YandexErrorCode::FeedAlreadyAdded).len() != code_name(c).len());
            assert(code_name(YandexErrorCode::FeedsCategoryBan).len() != code_name(c).len());
            assert(code_name(YandexErrorCode::FeedsLimitExceeded).len() != code_name(c).len());
            assert(code_name(YandexErrorCode::FieldValidationError).len() != code_name(c).len());
            assert(code_name(YandexErrorCode::HostAlreadyAdded).len() != code_name(c).len());
            assert(code_name(YandexErrorCode::HostNotFound).len() != code_name(c).len());
            assert(code_name(YandexErrorCode::HostNotIndexed).len() != code_name(c).len());
            assert(code_name(YandexErrorCode::HostNotLoaded).len() != code_name(c).len());
            assert(code_name(YandexErrorCode::HostNotVerified).len() != code_name(c).len());
            assert(code_name(YandexErrorCode::HostsLimitExceeded).len() != code_name(c).len());
            assert(code_name(YandexErrorCode::IncorrectUrl).len() != code_name(c).len());
            assert(code_name(YandexErrorCode::InvalidOauthToken).len() != code_name(c).len());
            assert(code_name(YandexErrorCode::InvalidUrl).len() != code_name(c).len());
            assert(code_name(YandexErrorCode::InvalidUserId).len() != code_name(c).len());
            assert(code_name(YandexErrorCode::LimitsExceeded).len() != code_name(c).len());
            assert(code_name(YandexErrorCode::ManyUrlsForRemove).len() != code_name(c).len());
            assert(code_name(YandexErrorCode::MethodNotAllowed).len() != code_name(c).len());
            assert(code_name(YandexErrorCode::NoChanges).len() != code_name(c).len());
            assert(code_name(YandexErrorCode::NoVerificationRecord).len() != code_name(c).len());
        },
        YandexErrorCode::OnlyHttps => {
            assert(code_name(YandexErrorCode::AccessForbidden).len() != code_name(c).len());
            assert(code_name(YandexErrorCode::BadHttpCode).len() != code_name(c).len());
            assert(code_name(YandexErrorCode::BadMimeType).len() != code_name(c).len());
            assert(code_name(YandexErrorCode::BatchLimitExceeded).len() != code_name(c).len());
            assert(code_name(YandexErrorCode::ContentEncodingUnsupported).len() != code_name(c).len());
            assert(code_name(YandexErrorCode::ContentTypeUnsupported).len() != code_name(c).len());
            assert(code_name(YandexErrorCode::EmptyDates).len() != code_name(c).len());
            assert(code_name(YandexErrorCode::EmptyPaths).len() != code_name(c).len());
            assert(code_name(YandexErrorCode::EntityValidationError).len() != code_name(c).len());
            assert(code_name(YandexErrorCode::FeedAlreadyAdded).len() != code_name(c).len());
            assert(code_name(YandexErrorCode::FeedsCategoryBan).len() != code_name(c).len());
            assert(code_name(YandexErrorCode::FeedsLimitExceeded).len() != code_name(c).len());
            assert(code_name(YandexErrorCode::FieldValidationError).len() != code_name(c).len());
            assert(code_name(YandexErrorCode::HostAlreadyAdded).len() != code_name(c).len());
            assert(code_name(YandexErrorCode::HostNotFound).len() != code_name(c).len());
            assert(code_name(YandexErrorCode::HostNotIndexed).len() != code_name(c).len());
            assert(code_name(YandexErrorCode::HostNotLoaded).len() != code_name(c).len());
            assert(code_name(YandexErrorCode::HostNotVerified).len() != code_name(c).len());
            assert(code_name(YandexErrorCode::HostsLimitExceeded).len() != code_name(c).len());
            assert(code_name(YandexErrorCode::IncorrectUrl).len() != code_name(c).len());
            assert(code_name(YandexErrorCode::InvalidOauthToken).len() != code_name(c).len());
            assert(code_name(YandexErrorCode::InvalidUrl).len() != code_name(c).len());
            assert(code_name(YandexErrorCode::InvalidUserId).len() != code_name(c).len());
            assert(code_name(YandexErrorCode::LimitsExceeded).len() != code_name(c).len());
            assert(code_name(YandexErrorCode::ManyUrlsForRemove).len() != code_name(c).len());
            assert(code_name(YandexErrorCode::MethodNotAllowed).len() != code_name(c).len());
            assert(code_name(YandexErrorCode::NoChanges)[0] != code_name(c)[0]);
            assert(code_name(YandexErrorCode::NoVerificationRecord).len() != code_name(c).len());
            assert(code_name(YandexErrorCode::NotExist).len() != code_name(c).len());
        },
        YandexErrorCode::PayloadTooLarge => {
            assert(code_name(YandexErrorCode::AccessForbidden).len() != code_name(c).len());
            assert(code_name(YandexErrorCode::BadHttpCode).len() != code_name(c).len());
            assert(code_name(YandexErrorCode::BadMimeType).len() != code_name(c).len());
            assert(code_name(YandexErrorCode::BatchLimitExceeded).len() != code_name(c).len());
            assert(code_name(YandexErrorCode::ContentEncodingUnsupported).len() != code_name(c).len());
            assert(code_name(YandexErrorCode::ContentTypeUnsupported).len() != code_name(c).len());
            assert(code_name(YandexErrorCode::EmptyDates).len() != code_name(c).len());
            assert(code_name(YandexErrorCode::EmptyPaths).len() != code_name(c).len());
            assert(code_name(YandexErrorCode::EntityValidationError).len() != code_name(c).len());
            assert(code_name(YandexErrorCode::FeedAlreadyAdded).len() != code_name(c).len());
            assert(code_name(YandexErrorCode::FeedsCategoryBan).len() != code_name(c).len());
            assert(code_name(YandexErrorCode::FeedsLimitExceeded).len() != code_name(c).len());
            assert(code_name(YandexErrorCode::FieldValidationError).len() != code_name(c).len());
            assert(code_name(YandexErrorCode::HostAlreadyAdded).len() != code_name(c).len());
            assert(code_name(YandexErrorCode::HostNotFound).len() != code_name(c).len());
            assert(code_name(YandexErrorCode::HostNotIndexed).len() != code_name(c).len());
            assert(code_name(YandexErrorCode::HostNotLoaded).len() != code_name(c).len());
            assert(code_name(YandexErrorCode::HostNotVerified)[0] != code_name(c)[0]);
            assert(code_name(YandexErrorCode::HostsLimitExceeded).len() != code_name(c).len());
            assert(code_name(YandexErrorCode::IncorrectUrl).len() != code_name(c).len());
            assert(code_name(YandexErrorCode::InvalidOauthToken).len() != code_name(c).len());
            assert(code_name(YandexErrorCode::InvalidUrl).len() != code_name(c).len());
            assert(code_name(YandexErrorCode::InvalidUserId).len() != code_name(c).len());
            assert(code_name(YandexErrorCode::LimitsExceeded).len() != code_name(c).len());
            assert(code_name(YandexErrorCode::ManyUrlsForRemove).len() != code_name(c).len());
            assert(code_name(YandexErrorCode::MethodNotAllowed).len() != code_name(c).len());
            assert(code_name(YandexErrorCode::NoChanges).len() != code_name(c).len());
            assert(code_name(YandexErrorCode::NoVerificationRecord).len() != code_name(c).len());
            assert(code_name(YandexErrorCode::NotExist).len() != code_name(c).len());
            assert(code_name(YandexErrorCode::OnlyHttps).len() != code_name(c).len());
        },
        YandexErrorCode::QueryIdNotFound => {
            assert(code_name(YandexErrorCode::AccessForbidden).len() != code_name(c).len());
            assert(code_name(YandexErrorCode::BadHttpCode).len() != code_name(c).len());
            assert(code_name(YandexErrorCode::BadMimeType).len() != code_name(c).len());
            assert(code_name(YandexErrorCode::BatchLimitExceeded).len() != code_name(c).len());
            assert(code_name(YandexErrorCode::ContentEncodingUnsupported).len() != code_name(c).len());
            assert(code_name(YandexErrorCode::ContentTypeUnsupported).len() != code_name(c).len());
            assert(code_name(YandexErrorCode::EmptyDates).len() != code_name(c).len());
            assert(code_name(YandexErrorCode::EmptyPaths).len() != code_name(c).len());
            assert(code_name(YandexErrorCode::EntityValidationError).len() != code_name(c).len());
            assert(code_name(YandexErrorCode::FeedAlreadyAdded)[0] != code_name(c)[0]);
            assert(code_name(YandexErrorCode::FeedsCategoryBan)[0] != code_name(c)[0]);
            assert(code_name(YandexErrorCode::FeedsLimitExceeded).len() != code_name(c).len());
            assert(code_name(YandexErrorCode::FieldValidationError).len() != code_name(c).len());
            assert(code_name(YandexErrorCode::HostAlreadyAdded)[0] != code_name(c)[0]);
            assert(code_name(YandexErrorCode::HostNotFound).len() != code_name(c).len());
            assert(code_name(YandexErrorCode::HostNotIndexed).len() != code_name(c).len());
            assert(code_name(YandexErrorCode::HostNotLoaded).len() != code_name(c).len());
            assert(code_name(YandexErrorCode::HostNotVerified).len() != code_name(c).len());
            assert(code_name(YandexErrorCode::HostsLimitExceeded).len() != code_name(c).len());
            assert(code_name(YandexErrorCode::IncorrectUrl).len() != code_name(c).len());
            assert(code_name(YandexErrorCode::InvalidOauthToken).len() != code_name(c).len());
            assert(code_name(YandexErrorCode::InvalidUrl).len() != code_name(c).len());
            assert(code_name(YandexErrorCode::InvalidUserId).len() != code_name(c).len());
            assert(code_name(YandexErrorCode::LimitsExceeded).len() != code_name(c).len());
            assert(code_name(YandexErrorCode::ManyUrlsForRemove).len() != code_name(c).len());
            assert(code_name(YandexErrorCode::MethodNotAllowed)[0] != code_name(c)[0]);
            assert(code_name(YandexErrorCode::NoChanges).len() != code_name(c).len());
            assert(code_name(YandexErrorCode::NoVerificationRecord).len() != code_name(c).len());
            assert(code_name(YandexErrorCode::NotExist).len() != code_name(c).len());
            assert(code_name(YandexErrorCode::OnlyHttps).len() != code_name(c).len());
            assert(code_name(YandexErrorCode::PayloadTooLarge).len() != code_name(c).len());
        },
        YandexErrorCode::QuotaExceeded => {
            assert(code_name(YandexErrorCode::AccessForbidden).len() != code_name(c).len());
            assert(code_name(YandexErrorCode::BadHttpCode).len() != code_name(c).len());
            assert(code_name(YandexErrorCode::BadMimeType).len() != code_name(c).len());
            assert(code_name(YandexErrorCode::BatchLimitExceeded).len() != code_name(c).len());
            assert(code_name(YandexErrorCode::ContentEncodingUnsupported).len() != code_name(c).len());
            assert(code_name(YandexErrorCode::ContentTypeUnsupported).len() != code_name(c).len());
            assert(code_name(YandexErrorCode::EmptyDates).len() != code_name(c).len());
            assert(code_name(YandexErrorCode::EmptyPaths).len() != code_name(c).len());
            assert(code_name(YandexErrorCode::EntityValidationError).len() != code_name(c).len());
            assert(code_name(YandexErrorCode::FeedAlreadyAdded).len() != code_name(c).len());
            assert(code_name(YandexErrorCode::FeedsCategoryBan).len() != code_name(c).len());
            assert(code_name(YandexErrorCode::FeedsLimitExceeded).len() != code_name(c).len());
            assert(code_name(YandexErrorCode::FieldValidationError).len() != code_name(c).len());
            assert(code_name(YandexErrorCode::HostAlreadyAdded).len() != code_name(c).len());
            assert(code_name(YandexErrorCode::HostNotFound)[0] != code_name(c)[0]);
            assert(code_name(YandexErrorCode::HostNotIndexed).len() != code_name(c).len());
            assert(code_name(YandexErrorCode::HostNotLoaded).len() != code_name(c).len());
            assert(code_name(YandexErrorCode::HostNotVerified).len() != code_name(c).len());
            assert(code_name(YandexErrorCode::HostsLimitExceeded).len() != code_name(c).len());
            assert(code_name(YandexErrorCode::IncorrectUrl).len() != code_name(c).len());
            assert(code_name(YandexErrorCode::InvalidOauthToken).len() != code_name(c).len());
            assert(code_name(YandexErrorCode::InvalidUrl).len() != code_name(c).len());
            assert(code_name(YandexErrorCode::InvalidUserId).len() != code_name(c).len());
            assert(code_name(YandexErrorCode::LimitsExceeded).len() != code_name(c).len());
            assert(code_name(YandexErrorCode::ManyUrlsForRemove).len() != code_name(c).len());
            assert(code_name(YandexErrorCode::MethodNotAllowed).len() != code_name(c).len());
            assert(code_name(YandexErrorCode::NoChanges).len() != code_name(c).len());
            assert(code_name(YandexErrorCode::NoVerificationRecord).len() != code_name(c).len());
            assert(code_name(YandexErrorCode::NotExist).len() != code_name(c).len());
            assert(code_name(YandexErrorCode::OnlyHttps).len() != code_name(c).len());
            assert(code_name(YandexErrorCode::PayloadTooLarge).len() != code_name(c).len());
            assert(code_name(YandexErrorCode::QueryIdNotFound).len() != code_name(c).len());
        },
        YandexErrorCode::RequestEntityTooLarge => {
            assert(code_name(YandexErrorCode::AccessForbidden).len() != code_name(c).len());
            assert(code_name(YandexErrorCode::BadHttpCode).len() != code_name(c).len());
            assert(code_name(YandexErrorCode::BadMimeType).len() != code_name(c).len());
            assert(code_name(YandexErrorCode::BatchLimitExceeded).len() != code_name(c).len());
            assert(code_name(YandexErrorCode::ContentEncodingUnsupported).len() != code_name(c).len());
            assert(code_name(YandexErrorCode::ContentTypeUnsupported)[0] != code_name(c)[0]);
            assert(code_name(YandexErrorCode::EmptyDates).len() != code_name(c).len());
            assert(code_name(YandexErrorCode::EmptyPaths).len() != code_name(c).len());
            assert(code_name(YandexErrorCode::EntityValidationError).len() != code_name(c).len());
            assert(code_name(YandexErrorCode::FeedAlreadyAdded).len() != code_name(c).len());
            assert(code_name(YandexErrorCode::FeedsCategoryBan).len() != code_name(c).len());
            assert(code_name(YandexErrorCode::FeedsLimitExceeded).len() != code_name(c).len());
            assert(code_name(YandexErrorCode::FieldValidationError).len() != code_name(c).len());
            assert(code_name(YandexErrorCode::HostAlreadyAdded).len() != code_name(c).len());
            assert(code_name(YandexErrorCode::HostNotFound).len() != code_name(c).len());
            assert(code_name(YandexErrorCode::HostNotIndexed).len() != code_name(c).len());
            assert(code_name(YandexErrorCode::HostNotLoaded).len() != code_name(c).len());
            assert(code_name(YandexErrorCode::HostNotVerified).len() != code_name(c).len());
            assert(code_name(YandexErrorCode::HostsLimitExceeded).len() != code_name(c).len());
            assert(code_name(YandexErrorCode::IncorrectUrl).len() != code_name(c).len());
            assert(code_name(YandexErrorCode::InvalidOauthToken).len() != code_name(c).len());
            assert(code_name(YandexErrorCode::InvalidUrl).len() != code_name(c).len());
            assert(code_name(YandexErrorCode::InvalidUserId).len() != code_name(c).len());
            assert(code_name(YandexErrorCode::LimitsExceeded).len() != code_name(c).len());
            assert(code_name(YandexErrorCode::ManyUrlsForRemove).len() != code_name(c).len());
            assert(code_name(YandexErrorCode::MethodNotAllowed).len() != code_name(c).len());
            assert(code_name(YandexErrorCode::NoChanges).len() != code_name(c).len());
            assert(code_name(YandexErrorCode::NoVerificationRecord).len() != code_name(c).len());
            assert(code_name(YandexErrorCode::NotExist).len() != code_name(c).len());
            assert(code_name(YandexErrorCode::OnlyHttps).len() != code_name(c).len());
            assert(code_name(YandexErrorCode::PayloadTooLarge).len() != code_name(c).len());
            assert(code_name(YandexErrorCode::QueryIdNotFound).len() != code_name(c).len());
            assert(code_name(YandexErrorCode::QuotaExceeded).len() != code_name(c).len());
        },
        YandexErrorCode::RequestNotFound => {
            assert(code_name(YandexErrorCode::AccessForbidden).len() != code_name(c).len());
            assert(code_name(YandexErrorCode::BadHttpCode).len() != code_name(c).len());
            assert(code_name(YandexErrorCode::BadMimeType).len() != code_name(c).len());
            assert(code_name(YandexErrorCode::BatchLimitExceeded).len() != code_name(c).len());
            assert(code_name(YandexErrorCode::ContentEncodingUnsupported).len() != code_name(c).len());
            assert(code_name(YandexErrorCode::ContentTypeUnsupported).len() != code_name(c).len());
            assert(code_name(YandexErrorCode::EmptyDates).len() != code_name(c).len());
            assert(code_name(YandexErrorCode::EmptyPaths).len() != code_name(c).len());
            assert(code_name(YandexErrorCode::EntityValidationError).len() != code_name(c).len());
            assert(code_name(YandexErrorCode::FeedAlreadyAdded).len() != code_name(c).len());
            assert(code_name(YandexErrorCode::FeedsCategoryBan).len() != code_name(c).len());
            assert(code_name(YandexErrorCode::FeedsLimitExceeded).len() != code_name(c).len());
            assert(code_name(YandexErrorCode::FieldValidationError).len() != code_name(c).len());
            assert(code_name(YandexErrorCode::HostAlreadyAdded).len() != code_name(c).len());
            assert(code_name(YandexErrorCode::HostNotFound).len() != code_name(c).len());
            assert(code_name(YandexErrorCode::HostNotIndexed).len() != code_name(c).len());
            assert(code_name(YandexErrorCode::HostNotLoaded).len() != code_name(c).len());
            assert(code_name(YandexErrorCode::HostNotVerified)[0] != code_name(c)[0]);
            assert(code_name(YandexErrorCode::HostsLimitExceeded).len() != code_name(c).len());
            assert(code_name(YandexErrorCode::IncorrectUrl).len() != code_name(c).len());
            assert(code_name(YandexErrorCode::InvalidOauthToken).len() != code_name(c).len());
            assert(code_name(YandexErrorCode::InvalidUrl).len() != code_name(c).len());
            assert(code_name(YandexErrorCode::InvalidUserId).len() != code_name(c).len());
            assert(code_name(YandexErrorCode::LimitsExceeded).len() != code_name(c).len());
            assert(code_name(YandexErrorCode::ManyUrlsForRemove).len() != code_name(c).len());
            assert(code_name(YandexErrorCode::MethodNotAllowed).len() != code_name(c).len());
            assert(code_name(YandexErrorCode::NoChanges).len() != code_name(c).len());
            assert(code_name(YandexErrorCode::NoVerificationRecord).len() != code_name(c).len());
            assert(code_name(YandexErrorCode::NotExist).len() != code_name(c).len());
            assert(code_name(YandexErrorCode::OnlyHttps).len() != code_name(c).len());
            assert(code_name(YandexErrorCode::PayloadTooLarge)[0] != code_name(c)[0]);
            assert(code_name(YandexErrorCode::QueryIdNotFound).len() != code_name(c).len());
            assert(code_name(YandexErrorCode::QuotaExceeded).len() != code_name(c).len());
            assert(code_name(YandexErrorCode::RequestEntityTooLarge).len() != code_name(c).len());
        },
        YandexErrorCode::ResourceNotFound => {
            assert(code_name(YandexErrorCode::AccessForbidden).len() != code_name(c).len());
            assert(code_name(YandexErrorCode::BadHttpCode).len() != code_name(c).len());
            assert(code_name(YandexErrorCode::BadMimeType).len() != code_name(c).len());
            assert(code_name(YandexErrorCode::BatchLimitExceeded).len() != code_name(c).len());
            assert(code_name(YandexErrorCode::ContentEncodingUnsupported).len() != code_name(c).len());
            assert(code_name(YandexErrorCode::ContentTypeUnsupported).len() != code_name(c).len());
            assert(code_name(YandexErrorCode::EmptyDates).len() != code_name(c).len());
            assert(code_name(YandexErrorCode::EmptyPaths).len() != code_name(c).len());
            assert(code_name(YandexErrorCode::EntityValidationError).len() != code_name(c).len());
            assert(code_name(YandexErrorCode::FeedAlreadyAdded)[0] != code_name(c)[0]);
            assert(code_name(YandexErrorCode::FeedsCategoryBan)[0] != code_name(c)[0]);
            assert(code_name(YandexErrorCode::FeedsLimitExceeded).len() != code_name(c).len());
            assert(code_name(YandexErrorCode::FieldValidationError).len() != code_name(c).len());
            assert(code_name(YandexErrorCode::HostAlreadyAdded)[0] != code_name(c)[0]);
            assert(code_name(YandexErrorCode::HostNotFound).len() != code_name(c).len());
            assert(code_name(YandexErrorCode::HostNotIndexed).len() != code_name(c).len());
            assert(code_name(YandexErrorCode::HostNotLoaded).len() != code_name(c).len());
            assert(code_name(YandexErrorCode::HostNotVerified).len() != code_name(c).len());
            assert(code_name(YandexErrorCode::HostsLimitExceeded).len() != code_name(c).len());
            assert(code_name(YandexErrorCode::IncorrectUrl).len() != code_name(c).len());
            assert(code_name(YandexErrorCode::InvalidOauthToken).len() != code_name(c).len());
            assert(code_name(YandexErrorCode::InvalidUrl).len() != code_name(c).len());
            assert(code_name(YandexErrorCode::InvalidUserId).len() != code_name(c).len());
            assert(code_name(YandexErrorCode::LimitsExceeded).len() != code_name(c).len());
            assert(code_name(YandexErrorCode::ManyUrlsForRemove).len() != code_name(c).len());
            assert(code_name(YandexErrorCode::MethodNotAllowed)[0] != code_name(c)[0]);
            assert(code_name(YandexErrorCode::NoChanges).len() != code_name(c).len());
            assert(code_name(YandexErrorCode::NoVerificationRecord).len() != code_name(c).len());
            assert(code_name(YandexErrorCode::NotExist).len() != code_name(c).len());
            assert(code_name(YandexErrorCode::OnlyHttps).len() != code_name(c).len());
            assert(code_name(YandexErrorCode::PayloadTooLarge).len() != code_name(c).len());
            assert(code_name(YandexErrorCode::QueryIdNotFound)[0] != code_name(c)[0]);
            assert(code_name(YandexErrorCode::QuotaExceeded).len() != code_name(c).len());
            assert(code_name(YandexErrorCode::RequestEntityTooLarge).len() != code_name(c).len());
            assert(code_name(YandexErrorCode::RequestNotFound).len() != code_name(c).len());
        },
        YandexErrorCode::SitemapAlreadyAdded => {
            assert(code_name(YandexErrorCode::AccessForbidden).len() != code_name(c).len());
            assert(code_name(YandexErrorCode::BadHttpCode).len() != code_name(c).len());
            assert(code_name(YandexErrorCode::BadMimeType).len() != code_name(c).len());
            assert(code_name(YandexErrorCode::BatchLimitExceeded).len() != code_name(c).len());
            assert(code_name(YandexErrorCode::ContentEncodingUnsupported).len() != code_name(c).len());
            assert(code_name(YandexErrorCode::ContentTypeUnsupported).len() != code_name(c).len());
            assert(code_name(YandexErrorCode::EmptyDates).len() != code_name(c).len());
            assert(code_name(YandexErrorCode::EmptyPaths).len() != code_name(c).len());
            assert(code_name(YandexErrorCode::EntityValidationError).len() != code_name(c).len());
            assert(code_name(YandexErrorCode::FeedAlreadyAdded).len() != code_name(c).len());
            assert(code_name(YandexErrorCode::FeedsCategoryBan).len() != code_name(c).len());
            assert(code_name(YandexErrorCode::FeedsLimitExceeded).len() != code_name(c).len());
            assert(code_name(YandexErrorCode::FieldValidationError).len() != code_name(c).len());
            assert(code_name(YandexErrorCode::HostAlreadyAdded).len() != code_name(c).len());
            assert(code_name(YandexErrorCode::HostNotFound).len() != code_name(c).len());
            assert(code_name(YandexErrorCode::HostNotIndexed).len() != code_name(c).len());
            assert(code_name(YandexErrorCode::HostNotLoaded).len() != code_name(c).len());
            assert(code_name(YandexErrorCode::HostNotVerified).len() != code_name(c).len());
            assert(code_name(YandexErrorCode::HostsLimitExceeded).len() != code_name(c).len());
            assert(code_name(YandexErrorCode::IncorrectUrl).len() != code_name(c).len());
            assert(code_name(YandexErrorCode::InvalidOauthToken).len() != code_name(c).len());
            assert(code_name(YandexErrorCode::InvalidUrl).len() != code_name(c).len());
            assert(code_name(YandexErrorCode::InvalidUserId).len() != code_name(c).len());
            assert(code_name(YandexErrorCode::LimitsExceeded).len() != code_name(c).len());
            assert(code_name(YandexErrorCode::ManyUrlsForRemove).len() != code_name(c).len());
            assert(code_name(YandexErrorCode::MethodNotAllowed).len() != code_name(c).len());
            assert(code_name(YandexErrorCode::NoChanges).len() != code_name(c).len());
            assert(code_name(YandexErrorCode::NoVerificationRecord).len() != code_name(c).len());
            assert(code_name(YandexErrorCode::NotExist).len() != code_name(c).len());
            assert(code_name(YandexErrorCode::OnlyHttps).len() != code_name(c).len());
            assert(code_name(YandexErrorCode::PayloadTooLarge).len() != code_name(c).len());
            assert(code_name(YandexErrorCode::QueryIdNotFound).len() != code_name(c).len());
            assert(code_name(YandexErrorCode::QuotaExceeded).len() != code_name(c).len());
            assert(code_name(YandexErrorCode::RequestEntityTooLarge).len() != code_name(c).len());
            assert(code_name(YandexErrorCode::RequestNotFound).len() != code_name(c).len());
            assert(code_name(YandexErrorCode::ResourceNotFound).len() != code_name(c).len());
        },
        YandexErrorCode::SitemapNotAdded => {
            assert(code_name(YandexErrorCode::AccessForbidden).len() != code_name(c).len());
            assert(code_name(YandexErrorCode::BadHttpCode).len() != code_name(c).len());
            assert(code_name(YandexErrorCode::BadMimeType).len() != code_name(c).len());
            assert(code_name(YandexErrorCode::BatchLimitExceeded).len() != code_name(c).len());
            assert(code_name(YandexErrorCode::ContentEncodingUnsupported).len() != code_name(c).len());
            assert(code_name(YandexErrorCode::ContentTypeUnsupported).len() != code_name(c).len());
            assert(code_name(YandexErrorCode::EmptyDates).len() != code_name(c).len());
            assert(code_name(YandexErrorCode::EmptyPaths).len() != code_name(c).len());
            assert(code_name(YandexErrorCode::EntityValidationError).len() != code_name(c).len());
            assert(code_name(YandexErrorCode::FeedAlreadyAdded).len() != code_name(c).len());
            assert(code_name(YandexErrorCode::FeedsCategoryBan).len() != code_name(c).len());
            assert(code_name(YandexErrorCode::FeedsLimitExceeded).len() != code_name(c).len());
            assert(code_name(YandexErrorCode::FieldValidationError).len() != code_name(c).len());
            assert(code_name(YandexErrorCode::HostAlreadyAdded).len() != code_name(c).len());
            assert(code_name(YandexErrorCode::HostNotFound).len() != code_name(c).len());
            assert(code_name(YandexErrorCode::HostNotIndexed).len() != code_name(c).len());
            assert(code_name(YandexErrorCode::HostNotLoaded).len() != code_name(c).len());
            assert(code_name(YandexErrorCode::HostNotVerified)[0] != code_name(c)[0]);
            assert(code_name(YandexErrorCode::HostsLimitExceeded).len() != code_name(c).len());
            assert(code_name(YandexErrorCode::IncorrectUrl).len() != code_name(c).len());
            assert(code_name(YandexErrorCode::InvalidOauthToken).len() != code_name(c).len());
            assert(code_name(YandexErrorCode::InvalidUrl).len() != code_name(c).len());
            assert(code_name(YandexErrorCode::InvalidUserId).len() != code_name(c).len());
            assert(code_name(YandexErrorCode::LimitsExceeded).len() != code_name(c).len());
            assert(code_name(YandexErrorCode::ManyUrlsForRemove).len() != code_name(c).len());
            assert(code_name(YandexErrorCode::MethodNotAllowed).len() != code_name(c).len());
            assert(code_name(YandexErrorCode::NoChanges).len() != code_name(c).len());
            assert(code_name(YandexErrorCode::NoVerificationRecord).len() != code_name(c).len());
            assert(code_name(YandexErrorCode::NotExist).len() != code_name(c).len());
            assert(code_name(YandexErrorCode::OnlyHttps).len() != code_name(c).len());
            assert(code_name(YandexErrorCode::PayloadTooLarge)[0] != code_name(c)[0]);
            assert(code_name(YandexErrorCode::QueryIdNotFound).len() != code_name(c).len());
            assert(code_name(YandexErrorCode::QuotaExceeded).len() != code_name(c).len());
            assert(code_name(YandexErrorCode::RequestEntityTooLarge).len() != code_name(c).len());
            assert(code_name(YandexErrorCode::RequestNotFound)[0] != code_name(c)[0]);
            assert(code_name(YandexErrorCode::ResourceNotFound).len() != code_name(c).len());
            assert(code_name(YandexErrorCode::SitemapAlreadyAdded).len() != code_name(c).len());
        },
        YandexErrorCode::SitemapNotFound => {
            assert(code_name(YandexErrorCode::AccessForbidden).len() != code_name(c).len());
            assert(code_name(YandexErrorCode::BadHttpCode).len() != code_name(c).len());
            assert(code_name(YandexErrorCode::BadMimeType).len() != code_name(c).len());
            assert(code_name(YandexErrorCode::BatchLimitExceeded).len() != code_name(c).len());
            assert(code_name(YandexErrorCode::ContentEncodingUnsupported).len() != code_name(c).len());
            assert(code_name(YandexErrorCode::ContentTypeUnsupported).len() != code_name(c).len());
            assert(code_name(YandexErrorCode::EmptyDates).len() != code_name(c).len());
            assert(code_name(YandexErrorCode::EmptyPaths).len() != code_name(c).len());
            assert(code_name(YandexErrorCode::EntityValidationError).len() != code_name(c).len());
            assert(code_name(YandexErrorCode::FeedAlreadyAdded).len() != code_name(c).len());
            assert(code_name(YandexErrorCode::FeedsCategoryBan).len() != code_name(c).len());
            assert(code_name(YandexErrorCode::FeedsLimitExceeded).len() != code_name(c).len());
            assert(code_name(YandexErrorCode::FieldValidationError).len() != code_name(c).len());
            assert(code_name(YandexErrorCode::HostAlreadyAdded).len() != code_name(c).len());
            assert(code_name(YandexErrorCode::HostNotFound).len() != code_name(c).len());
            assert(code_name(YandexErrorCode::HostNotIndexed).len() != code_name(c).len());
            assert(code_name(YandexErrorCode::HostNotLoaded).len() != code_name(c).len());
            assert(code_name(YandexErrorCode::HostNotVerified)[0] != code_name(c)[0]);
            assert(code_name(YandexErrorCode::HostsLimitExceeded).len() != code_name(c).len());
            assert(code_name(YandexErrorCode::IncorrectUrl).len() != code_name(c).len());
            assert(code_name(YandexErrorCode::InvalidOauthToken).len() != code_name(c).len());
            assert(code_name(YandexErrorCode::InvalidUrl).len() != code_name(c).len());
            assert(code_name(YandexErrorCode::InvalidUserId).len() != code_name(c).len());
            assert(code_name(YandexErrorCode::LimitsExceeded).len() != code_name(c).len());
            assert(code_name(YandexErrorCode::ManyUrlsForRemove).len() != code_name(c).len());
            assert(code_name(YandexErrorCode::MethodNotAllowed).len() != code_name(c).len());
            assert(code_name(YandexErrorCode::NoChanges).len() != code_name(c).len());
            assert(code_name(YandexErrorCode::NoVerificationRecord).len() != code_name(c).len());
            assert(code_name(YandexErrorCode::NotExist).len() != code_name(c).len());
            assert(code_name(YandexErrorCode::OnlyHttps).len() != code_name(c).len());
            assert(code_name(YandexErrorCode::PayloadTooLarge)[0] != code_name(c)[0]);
            assert(code_name(YandexErrorCode::QueryIdNotFound).len() != code_name(c).len());
            assert(code_name(YandexErrorCode::QuotaExceeded).len() != code_name(c).len());
            assert(code_name(YandexErrorCode::RequestEntityTooLarge).len() != code_name(c).len());
            assert(code_name(YandexErrorCode::RequestNotFound)[0] != code_name(c)[0]);
            assert(code_name(YandexErrorCode::ResourceNotFound).len() != code_name(c).len());
            assert(code_name(YandexErrorCode::SitemapAlreadyAdded).len() != code_name(c).len());
            assert(code_name(YandexErrorCode::SitemapNotAdded)[12] != code_name(c)[12]);
        },
        YandexErrorCode::SomeDatesAreUnavailable => {
            assert(code_name(YandexErrorCode::AccessForbidden).len() != code_name(c).len());
            assert(code_name(YandexErrorCode::BadHttpCode).len() != code_name(c).len());
            assert(code_name(YandexErrorCode::BadMimeType).len() != code_name(c).len());
            assert(code_name(YandexErrorCode::BatchLimitExceeded).len() != code_name(c).len());
            assert(code_name(YandexErrorCode::ContentEncodingUnsupported).len() != code_name(c).len());
            assert(code_name(YandexErrorCode::ContentTypeUnsupported).len() != code_name(c).len());
            assert(code_name(YandexErrorCode::EmptyDates).len() != code_name(c).len());
            assert(code_name(YandexErrorCode::EmptyPaths).len() != code_name(c).len());
            assert(code_name(YandexErrorCode::EntityValidationError).len() != code_name(c).len());
            assert(code_name(YandexErrorCode::FeedAlreadyAdded).len() != code_name(c).len());
            assert(code_name(YandexErrorCode::FeedsCategoryBan).len() != code_name(c).len());
            assert(code_name(YandexErrorCode::FeedsLimitExceeded).len() != code_name(c).len());
            assert(code_name(YandexErrorCode::FieldValidationError).len() != code_name(c).len());
            assert(code_name(YandexErrorCode::HostAlreadyAdded).len() != code_name(c).len());
            assert(code_name(YandexErrorCode::HostNotFound).len() != code_name(c).len());
            assert(code_name(YandexErrorCode::HostNotIndexed).len() != code_name(c).len());
            assert(code_name(YandexErrorCode::HostNotLoaded).len() != code_name(c).len());
            assert(code_name(YandexErrorCode::HostNotVerified).len() != code_name(c).len());
            assert(code_name(YandexErrorCode::HostsLimitExceeded).len() != code_name(c).len());
            assert(code_name(YandexErrorCode::IncorrectUrl).len() != code_name(c).len());
            assert(code_name(YandexErrorCode::InvalidOauthToken).len() != code_name(c).len());
            assert(code_name(YandexErrorCode::InvalidUrl).len() != code_name(c).len());
            assert(code_name(YandexErrorCode::InvalidUserId).len() != code_name(c).len());
            assert(code_name(YandexErrorCode::LimitsExceeded).len() != code_name(c).len());
            assert(code_name(YandexErrorCode::ManyUrlsForRemove).len() != code_name(c).len());
            assert(code_name(YandexErrorCode::MethodNotAllowed).len() != code_name(c).len());
            assert(code_name(YandexErrorCode::NoChanges).len() != code_name(c).len());
            assert(code_name(YandexErrorCode::NoVerificationRecord).len() != code_name(c).len());
            assert(code_name(YandexErrorCode::NotExist).len() != code_name(c).len());
            assert(code_name(YandexErrorCode::OnlyHttps).len() != code_name(c).len());
            assert(code_name(YandexErrorCode::PayloadTooLarge).len() != code_name(c).len());
            assert(code_name(YandexErrorCode::QueryIdNotFound).len() != code_name(c).len());
            assert(code_name(YandexErrorCode::QuotaExceeded).len() != code_name(c).len());
            assert(code_name(YandexErrorCode::RequestEntityTooLarge).len() != code_name(c).len());
            assert(code_name(YandexErrorCode::RequestNotFound).len() != code_name(c).len());
            assert(code_name(YandexErrorCode::ResourceNotFound).len() != code_name(c).len());
            assert(code_name(YandexErrorCode::SitemapAlreadyAdded).len() != code_name(c).len());
            assert(code_name(YandexErrorCode::SitemapNotAdded).len() != code_name(c).len());
            assert(code_name(YandexErrorCode::SitemapNotFound).len() != code_name(c).len());
        },
        YandexErrorCode::TaskNotFound => {
            assert(code_name(YandexErrorCode::AccessForbidden).len() != code_name(c).len());
            assert(code_name(YandexErrorCode::BadHttpCode).len() != code_name(c).len());
            assert(code_name(YandexErrorCode::BadMimeType).len() != code_name(c).len());
            assert(code_name(YandexErrorCode::BatchLimitExceeded).len() != code_name(c).len());
            assert(code_name(YandexErrorCode::ContentEncodingUnsupported).len() != code_name(c).len());
            assert(code_name(YandexErrorCode::ContentTypeUnsupported).len() != code_name(c).len());
            assert(code_name(YandexErrorCode::EmptyDates).len() != code_name(c).len());
            assert(code_name(YandexErrorCode::EmptyPaths).len() != code_name(c).len());
            assert(code_name(YandexErrorCode::EntityValidationError).len() != code_name(c).len());
            assert(code_name(YandexErrorCode::FeedAlreadyAdded).len() != code_name(c).len());
            assert(code_name(YandexErrorCode::FeedsCategoryBan).len() != code_name(c).len());
            assert(code_name(YandexErrorCode::FeedsLimitExceeded).len() != code_name(c).len());
            assert(code_name(YandexErrorCode::FieldValidationError).len() != code_name(c).len());
            assert(code_name(YandexErrorCode::HostAlreadyAdded).len() != code_name(c).len());
            assert(code_name(YandexErrorCode::HostNotFound)[0] != code_name(c)[0]);
            assert(code_name(YandexErrorCode::HostNotIndexed).len() != code_name(c).len());
            assert(code_name(YandexErrorCode::HostNotLoaded).len() != code_name(c).len());
            assert(code_name(YandexErrorCode::HostNotVerified).len() != code_name(c).len());
            assert(code_name(YandexErrorCode::HostsLimitExceeded).len() != code_name(c).len());
            assert(code_name(YandexErrorCode::IncorrectUrl).len() != code_name(c).len());
            assert(code_name(YandexErrorCode::InvalidOauthToken).len() != code_name(c).len());
            assert(code_name(YandexErrorCode::InvalidUrl).len() != code_name(c).len());
            assert(code_name(YandexErrorCode::InvalidUserId).len() != code_name(c).len());
            assert(code_name(YandexErrorCode::LimitsExceeded).len() != code_name(c).len());
            assert(code_name(YandexErrorCode::ManyUrlsForRemove).len() != code_name(c).len());
            assert(code_name(YandexErrorCode::MethodNotAllowed).len() != code_name(c).len());
            assert(code_name(YandexErrorCode::NoChanges).len() != code_name(c).len());
            assert(code_name(YandexErrorCode::NoVerificationRecord).len() != code_name(c).len());
            assert(code_name(YandexErrorCode::NotExist).len() != code_name(c).len());
            assert(code_name(YandexErrorCode::OnlyHttps).len() != code_name(c).len());
            assert(code_name(YandexErrorCode::PayloadTooLarge).len() != code_name(c).len());
            assert(code_name(YandexErrorCode::QueryIdNotFound).len() != code_name(c).len());
            assert(code_name(YandexErrorCode::QuotaExceeded)[0] != code_name(c)[0]);
            assert(code_name(YandexErrorCode::RequestEntityTooLarge).len() != code_name(c).len());
            assert(code_name(YandexErrorCode::RequestNotFound).len() != code_name(c).len());
            assert(code_name(YandexErrorCode::ResourceNotFound).len() != code_name(c).len());
            assert(code_name(YandexErrorCode::SitemapAlreadyAdded).len() != code_name(c).len());
            assert(code_name(YandexErrorCode::SitemapNotAdded).len() != code_name(c).len());
            assert(code_name(YandexErrorCode::SitemapNotFound).len() != code_name(c).len());
            assert(code_name(YandexErrorCode::SomeDatesAreUnavailable).len() != code_name(c).len());
        },
        YandexErrorCode::TextAlreadyAdded => {
            assert(code_name(YandexErrorCode::AccessForbidden).len() != code_name(c).len());
            assert(code_name(YandexErrorCode::BadHttpCode).len() != code_name(c).len());
            assert(code_name(YandexErrorCode::BadMimeType).len() != code_name(c).len());
            assert(code_name(YandexErrorCode::BatchLimitExceeded).len() != code_name(c).len());
            assert(code_name(YandexErrorCode::ContentEncodingUnsupported).len() != code_name(c).len());
            assert(code_name(YandexErrorCode::ContentTypeUnsupported).len() != code_name(c).len());
            assert(code_name(YandexErrorCode::EmptyDates).len() != code_name(c).len());
            assert(code_name(YandexErrorCode::EmptyPaths).len() != code_name(c).len());
            assert(code_name(YandexErrorCode::EntityValidationError).len() != code_name(c).len());
            assert(code_name(YandexErrorCode::FeedAlreadyAdded)[0] != code_name(c)[0]);
            assert(code_name(YandexErrorCode::FeedsCategoryBan)[0] != code_name(c)[0]);
            assert(code_name(YandexErrorCode::FeedsLimitExceeded).len() != code_name(c).len());
            assert(code_name(YandexErrorCode::FieldValidationError).len() != code_name(c).len());
            assert(code_name(YandexErrorCode::HostAlreadyAdded)[0] != code_name(c)[0]);
            assert(code_name(YandexErrorCode::HostNotFound).len() != code_name(c).len());
            assert(code_name(YandexErrorCode::HostNotIndexed).len() != code_name(c).len());
            assert(code_name(YandexErrorCode::HostNotLoaded).len() != code_name(c).len());
            assert(code_name(YandexErrorCode::HostNotVerified).len() != code_name(c).len());
            assert(code_name(YandexErrorCode::HostsLimitExceeded).len() != code_name(c).len());
            assert(code_name(YandexErrorCode::IncorrectUrl).len() != code_name(c).len());
            assert(code_name(YandexErrorCode::InvalidOauthToken).len() != code_name(c).len());
            assert(code_name(YandexErrorCode::InvalidUrl).len() != code_name(c).len());
            assert(code_name(YandexErrorCode::InvalidUserId).len() != code_name(c).len());
            assert(code_name(YandexErrorCode::LimitsExceeded).len() != code_name(c).len());
            assert(code_name(YandexErrorCode::ManyUrlsForRemove).len() != code_name(c).len());
            assert(code_name(YandexErrorCode::MethodNotAllowed)[0] != code_name(c)[0]);
            assert(code_name(YandexErrorCode::NoChanges).len() != code_name(c).len());
            assert(code_name(YandexErrorCode::NoVerificationRecord).len() != code_name(c).len());
            assert(code_name(YandexErrorCode::NotExist).len() != code_name(c).len());
            assert(code_name(YandexErrorCode::OnlyHttps).len() != code_name(c).len());
            assert(code_name(YandexErrorCode::PayloadTooLarge).len() != code_name(c).len());
            assert(code_name(YandexErrorCode::QueryIdNotFound)[0] != code_name(c)[0]);
            assert(code_name(YandexErrorCode::QuotaExceeded).len() != code_name(c).len());
            assert(code_name(YandexErrorCode::RequestEntityTooLarge).len() != code_name(c).len());
            assert(code_name(YandexErrorCode::RequestNotFound).len() != code_name(c).len());
            assert(code_name(YandexErrorCode::ResourceNotFound)[0] != code_name(c)[0]);
            assert(code_name(YandexErrorCode::SitemapAlreadyAdded).len() != code_name(c).len());
            assert(code_name(YandexErrorCode::SitemapNotAdded).len() != code_name(c).len());
            assert(code_name(YandexErrorCode::SitemapNotFound).len() != code_name(c).len());
            assert(code_name(YandexErrorCode::SomeDatesAreUnavailable).len() != code_name(c).len());
            assert(code_name(YandexErrorCode::TaskNotFound).len() != code_name(c).len());
        },
        YandexErrorCode::TextLengthConstraintsViolation => {
            assert(code_name(YandexErrorCode::AccessForbidden).len() != code_name(c).len());
            assert(code_name(YandexErrorCode::BadHttpCode).len() != code_name(c).len());
            assert(code_name(YandexErrorCode::BadMimeType).len() != code_name(c).len());
            assert(code_name(YandexErrorCode::BatchLimitExceeded).len() != code_name(c).len());
            assert(code_name(YandexErrorCode::ContentEncodingUnsupported).len() != code_name(c).len());
            assert(code_name(YandexErrorCode::ContentTypeUnsupported).len() != code_name(c).len());
            assert(code_name(YandexErrorCode::EmptyDates).len() != code_name(c).len());
            assert(code_name(YandexErrorCode::EmptyPaths).len() != code_name(c).len());
            assert(code_name(YandexErrorCode::EntityValidationError).len() != code_name(c).len());
            assert(code_name(YandexErrorCode::FeedAlreadyAdded).len() != code_name(c).len());
            assert(code_name(YandexErrorCode::FeedsCategoryBan).len() != code_name(c).len());
            assert(code_name(YandexErrorCode::FeedsLimitExceeded).len() != code_name(c).len());
            assert(code_name(YandexErrorCode::FieldValidationError).len() != code_name(c).len());
            assert(code_name(YandexErrorCode::HostAlreadyAdded).len() != code_name(c).len());
            assert(code_name(YandexErrorCode::HostNotFound).len() != code_name(c).len());
            assert(code_name(YandexErrorCode::HostNotIndexed).len() != code_name(c).len());
            assert(code_name(YandexErrorCode::HostNotLoaded).len() != code_name(c).len());
            assert(code_name(YandexErrorCode::HostNotVerified).len() != code_name(c).len());
            assert(code_name(YandexErrorCode::HostsLimitExceeded).len() != code_name(c).len());
            assert(code_name(YandexErrorCode::IncorrectUrl).len() != code_name(c).len());
            assert(code_name(YandexErrorCode::InvalidOauthToken).len() != code_name(c).len());
            assert(code_name(YandexErrorCode::InvalidUrl).len() != code_name(c).len());
            assert(code_name(YandexErrorCode::InvalidUserId).len() != code_name(c).len());
            assert(code_name(YandexErrorCode::LimitsExceeded).len() != code_name(c).len());
            assert(code_name(YandexErrorCode::ManyUrlsForRemove).len() != code_name(c).len());
            assert(code_name(YandexErrorCode::MethodNotAllowed).len() != code_name(c).len());
            assert(code_name(YandexErrorCode::NoChanges).len() != code_name(c).len());
            assert(code_name(YandexErrorCode::NoVerificationRecord).len() != code_name(c).len());
            assert(code_name(YandexErrorCode::NotExist).len() != code_name(c).len());
            assert(code_name(YandexErrorCode::OnlyHttps).len() != code_name(c).len());
            assert(code_name(YandexErrorCode::PayloadTooLarge).len() != code_name(c).len());
            assert(code_name(YandexErrorCode::QueryIdNotFound).len() != code_name(c).len());
            assert(code_name(YandexErrorCode::QuotaExceeded).len() != code_name(c).len());
            assert(code_name(YandexErrorCode::RequestEntityTooLarge).len() != code_name(c).len());
            assert(code_name(YandexErrorCode::RequestNotFound).len() != code_name(c).len());
            assert(code_name(YandexErrorCode::ResourceNotFound).len() != code_name(c).len());
            assert(code_name(YandexErrorCode::SitemapAlreadyAdded).len() != code_name(c).len());
            assert(code_name(YandexErrorCode::SitemapNotAdded).len() != code_name(c).len());
            assert(code_name(YandexErrorCode::SitemapNotFound).len() != code_name(c).len());
            assert(code_name(YandexErrorCode::SomeDatesAreUnavailable).len() != code_name(c).len());
            assert(code_name(YandexErrorCode::TaskNotFound).len() != code_name(c).len());
            assert(code_name(YandexErrorCode::TextAlreadyAdded).len() != code_name(c).len());
        },
        YandexErrorCode::TimedOut => {
            assert(code_name(YandexErrorCode::AccessForbidden).len() != code_name(c).len());
            assert(code_name(YandexErrorCode::BadHttpCode).len() != code_name(c).len());
            assert(code_name(YandexErrorCode::BadMimeType).len() != code_name(c).len());
            assert(code_name(YandexErrorCode::BatchLimitExceeded).len() != code_name(c).len());
            assert(code_name(YandexErrorCode::ContentEncodingUnsupported).len() != code_name(c).len());
            assert(code_name(YandexErrorCode::ContentTypeUnsupported).len() != code_name(c).len());
            assert(code_name(YandexErrorCode::EmptyDates).len() != code_name(c).len());
            assert(code_name(YandexErrorCode::EmptyPaths).len() != code_name(c).len());
            assert(code_name(YandexErrorCode::EntityValidationError).len() != code_name(c).len());
            assert(code_name(YandexErrorCode::FeedAlreadyAdded).len() != code_name(c).len());
            assert(code_name(YandexErrorCode::FeedsCategoryBan).len() != code_name(c).len());
            assert(code_name(YandexErrorCode::FeedsLimitExceeded).len() != code_name(c).len());
            assert(code_name(YandexErrorCode::FieldValidationError).len() != code_name(c).len());
            assert(code_name(YandexErrorCode::HostAlreadyAdded).len() != code_name(c).len());
            assert(code_name(YandexErrorCode::HostNotFound).len() != code_name(c).len());
            assert(code_name(YandexErrorCode::HostNotIndexed).len() != code_name(c).len());
            assert(code_name(YandexErrorCode::HostNotLoaded).len() != code_name(c).len());
            assert(code_name(YandexErrorCode::HostNotVerified).len() != code_name(c).len());
            assert(code_name(YandexErrorCode::HostsLimitExceeded).len() != code_name(c).len());
            assert(code_name(YandexErrorCode::IncorrectUrl).len() != code_name(c).len());
            assert(code_name(YandexErrorCode::InvalidOauthToken).len() != code_name(c).len());
            assert(code_name(YandexErrorCode::InvalidUrl).len() != code_name(c).len());
            assert(code_name(YandexErrorCode::InvalidUserId).len() != code_name(c).len());
            assert(code_name(YandexErrorCode::LimitsExceeded).len() != code_name(c).len());
            assert(code_name(YandexErrorCode::ManyUrlsForRemove).len() != code_name(c).len());
            assert(code_name(YandexErrorCode::MethodNotAllowed).len() != code_name(c).len());
            assert(code_name(YandexErrorCode::NoChanges).len() != code_name(c).len());
            assert(code_name(YandexErrorCode::NoVerificationRecord).len() != code_name(c).len());
            assert(code_name(YandexErrorCode::NotExist)[0] != code_name(c)[0]);
            assert(code_name(YandexErrorCode::OnlyHttps).len() != code_name(c).len());
            assert(code_name(YandexErrorCode::PayloadTooLarge).len() != code_name(c).len());
            assert(code_name(YandexErrorCode::QueryIdNotFound).len() != code_name(c).len());
            assert(code_name(YandexErrorCode::QuotaExceeded).len() != code_name(c).len());
            assert(code_name(YandexErrorCode::RequestEntityTooLarge).len() != code_name(c).len());
            assert(code_name(YandexErrorCode::RequestNotFound).len() != code_name(c).len());
            assert(code_name(YandexErrorCode::ResourceNotFound).len() != code_name(c).len());
            assert(code_name(YandexErrorCode::SitemapAlreadyAdded).len() != code_name(c).len());
            assert(code_name(YandexErrorCode::SitemapNotAdded).len() != code_name(c).len());
            assert(code_name(YandexErrorCode::SitemapNotFound).len() != code_name(c).len());
            assert(code_name(YandexErrorCode::SomeDatesAreUnavailable).len() != code_name(c).len());
            assert(code_name(YandexErrorCode::TaskNotFound).len() != code_name(c).len());
            assert(code_name(YandexErrorCode::TextAlreadyAdded).len() != code_name(c).len());
            assert(code_name(YandexErrorCode::TextLengthConstraintsViolation).len() != code_name(c).len());
        },
        YandexErrorCode::TooManyRequestsError => {
            assert(code_name(YandexErrorCode::AccessForbidden).len() != code_name(c).len());
            assert(code_name(YandexErrorCode::BadHttpCode).len() != code_name(c).len());
            assert(code_name(YandexErrorCode::BadMimeType).len() != code_name(c).len());
            assert(code_name(YandexErrorCode::BatchLimitExceeded).len() != code_name(c).len());
            assert(code_name(YandexErrorCode::ContentEncodingUnsupported).len() != code_name(c).len());
            assert(code_name(YandexErrorCode::ContentTypeUnsupported).len() != code_name(c).len());
            assert(code_name(YandexErrorCode::EmptyDates).len() != code_name(c).len());
            assert(code_name(YandexErrorCode::EmptyPaths).len() != code_name(c).len());
            assert(code_name(YandexErrorCode::EntityValidationError)[0] != code_name(c)[0]);
            assert(code_name(YandexErrorCode::FeedAlreadyAdded).len() != code_name(c).len());
            assert(code_name(YandexErrorCode::FeedsCategoryBan).len() != code_name(c).len());
            assert(code_name(YandexErrorCode::FeedsLimitExceeded).len() != code_name(c).len());
            assert(code_name(YandexErrorCode::FieldValidationError).len() != code_name(c).len());
            assert(code_name(YandexErrorCode::HostAlreadyAdded).len() != code_name(c).len());
            assert(code_name(YandexErrorCode::HostNotFound).len() != code_name(c).len());
            assert(code_name(YandexErrorCode::HostNotIndexed).len() != code_name(c).len());
            assert(code_name(YandexErrorCode::HostNotLoaded).len() != code_name(c).len());
            assert(code_name(YandexErrorCode::HostNotVerified).len() != code_name(c).len());
            assert(code_name(YandexErrorCode::HostsLimitExceeded).len() != code_name(c).len());
            assert(code_name(YandexErrorCode::IncorrectUrl).len() != code_name(c).len());
            assert(code_name(YandexErrorCode::InvalidOauthToken).len() != code_name(c).len());
            assert(code_name(YandexErrorCode::InvalidUrl).len() != code_name(c).len());
            assert(code_name(YandexErrorCode::InvalidUserId).len() != code_name(c).len());
            assert(code_name(YandexErrorCode::LimitsExceeded).len() != code_name(c).len());
            assert(code_name(YandexErrorCode::ManyUrlsForRemove).len() != code_name(c).len());
            assert(code_name(YandexErrorCode::MethodNotAllowed).len() != code_name(c).len());
            assert(code_name(YandexErrorCode::NoChanges).len() != code_name(c).len());
            assert(code_name(YandexErrorCode::NoVerificationRecord).len() != code_name(c).len());
            assert(code_name(YandexErrorCode::NotExist).len() != code_name(c).len());
            assert(code_name(YandexErrorCode::OnlyHttps).len() != code_name(c).len());
            assert(code_name(YandexErrorCode::PayloadTooLarge).len() != code_name(c).len());
            assert(code_name(YandexErrorCode::QueryIdNotFound).len() != code_name(c).len());
            assert(code_name(YandexErrorCode::QuotaExceeded).len() != code_name(c).len());
            assert(code_name(YandexErrorCode::RequestEntityTooLarge).len() != code_name(c).len());
            assert(code_name(YandexErrorCode::RequestNotFound).len() != code_name(c).len());
            assert(code_name(YandexErrorCode::ResourceNotFound).len() != code_name(c).len());
            assert(code_name(YandexErrorCode::SitemapAlreadyAdded).len() != code_name(c).len());
            assert(code_name(YandexErrorCode::SitemapNotAdded).len() != code_name(c).len());
            assert(code_name(YandexErrorCode::SitemapNotFound).len() != code_name(c).len());
            assert(code_name(YandexErrorCode::SomeDatesAreUnavailable).len() != code_name(c).len());
            assert(code_name(YandexErrorCode::TaskNotFound).len() != code_name(c).len());
            assert(code_name(YandexErrorCode::TextAlreadyAdded).len() != code_name(c).len());
            assert(code_name(YandexErrorCode::TextLengthConstraintsViolation).len() != code_name(c).len());
            assert(code_name(YandexErrorCode::TimedOut).len() != code_name(c).len());
        },
        YandexErrorCode::UploadAddressExpired => {
            assert(code_name(YandexErrorCode::AccessForbidden).len() != code_name(c).len());
            assert(code_name(YandexErrorCode::BadHttpCode).len() != code_name(c).len());
            assert(code_name(YandexErrorCode::BadMimeType).len() != code_name(c).len());
            assert(code_name(YandexErrorCode::BatchLimitExceeded).len() != code_name(c).len());
            assert(code_name(YandexErrorCode::ContentEncodingUnsupported).len() != code_name(c).len());
            assert(code_name(YandexErrorCode::ContentTypeUnsupported).len() != code_name(c).len());
            assert(code_name(YandexErrorCode::EmptyDates).len() != code_name(c).len());
            assert(code_name(YandexErrorCode::EmptyPaths).len() != code_name(c).len());
            assert(code_name(YandexErrorCode::EntityValidationError).len() != code_name(c).len());
            assert(code_name(YandexErrorCode::FeedAlreadyAdded).len() != code_name(c).len());
            assert(code_name(YandexErrorCode::FeedsCategoryBan).len() != code_name(c).len());
            assert(code_name(YandexErrorCode::FeedsLimitExceeded).len() != code_name(c).len());
            assert(code_name(YandexErrorCode::FieldValidationError)[0] != code_name(c)[0]);
            assert(code_name(YandexErrorCode::HostAlreadyAdded).len() != code_name(c).len());
            assert(code_name(YandexErrorCode::HostNotFound).len() != code_name(c).len());
            assert(code_name(YandexErrorCode::HostNotIndexed).len() != code_name(c).len());
            assert(code_name(YandexErrorCode::HostNotLoaded).len() != code_name(c).len());
            assert(code_name(YandexErrorCode::HostNotVerified).len() != code_name(c).len());
            assert(code_name(YandexErrorCode::HostsLimitExceeded).len() != code_name(c).len());
            assert(code_name(YandexErrorCode::IncorrectUrl).len() != code_name(c).len());
            assert(code_name(YandexErrorCode::InvalidOauthToken).len() != code_name(c).len());
            assert(code_name(YandexErrorCode::InvalidUrl).len() != code_name(c).len());
            assert(code_name(YandexErrorCode::InvalidUserId).len() != code_name(c).len());
            assert(code_name(YandexErrorCode::LimitsExceeded).len() != code_name(c).len());
            assert(code_name(YandexErrorCode::ManyUrlsForRemove).len() != code_name(c).len());
            assert(code_name(YandexErrorCode::MethodNotAllowed).len() != code_name(c).len());
            assert(code_name(YandexErrorCode::NoChanges).len() != code_name(c).len());
            assert(code_name(YandexErrorCode::NoVerificationRecord)[0] != code_name(c)[0]);
            assert(code_name(YandexErrorCode::NotExist).len() != code_name(c).len());
            assert(code_name(YandexErrorCode::OnlyHttps).len() != code_name(c).len());
            assert(code_name(YandexErrorCode::PayloadTooLarge).len() != code_name(c).len());
            assert(code_name(YandexErrorCode::QueryIdNotFound).len() != code_name(c).len());
            assert(code_name(YandexErrorCode::QuotaExceeded).len() != code_name(c).len());
            assert(code_name(YandexErrorCode::RequestEntityTooLarge).len() != code_name(c).len());
            assert(code_name(YandexErrorCode::RequestNotFound).len() != code_name(c).len());
            assert(code_name(YandexErrorCode::ResourceNotFound).len() != code_name(c).len());
            assert(code_name(YandexErrorCode::SitemapAlreadyAdded).len() != code_name(c).len());
            assert(code_name(YandexErrorCode::SitemapNotAdded).len() != code_name(c).len());
            assert(code_name(YandexErrorCode::SitemapNotFound).len() != code_name(c).len());
            assert(code_name(YandexErrorCode::SomeDatesAreUnavailable).len() != code_name(c).len());
            assert(code_name(YandexErrorCode::TaskNotFound).len() != code_name(c).len());
            assert(code_name(YandexErrorCode::TextAlreadyAdded).len() != code_name(c).len());
            assert(code_name(YandexErrorCode::TextLengthConstraintsViolation).len() != code_name(c).len());
            assert(code_name(YandexErrorCode::TimedOut).len() != code_name(c).len());
            assert(code_name(YandexErrorCode::TooManyRequestsError).len() != code_name(c).len());
        },
        YandexErrorCode::UrlAlreadyAdded => {
            assert(code_name(YandexErrorCode::AccessForbidden).len() != code_name(c).len());
            assert(code_name(YandexErrorCode::BadHttpCode).len() != code_name(c).len());
            assert(code_name(YandexErrorCode::BadMimeType).len() != code_name(c).len());
            assert(code_name(YandexErrorCode::BatchLimitExceeded).len() != code_name(c).len());
            assert(code_name(YandexErrorCode::ContentEncodingUnsupported).len() != code_name(c).len());
            assert(code_name(YandexErrorCode::ContentTypeUnsupported).len() != code_name(c).len());
            assert(code_name(YandexErrorCode::EmptyDates).len() != code_name(c).len());
            assert(code_name(YandexErrorCode::EmptyPaths).len() != code_name(c).len());
            assert(code_name(YandexErrorCode::EntityValidationError).len() != code_name(c).len());
            assert(code_name(YandexErrorCode::FeedAlreadyAdded).len() != code_name(c).len());
            assert(code_name(YandexErrorCode::FeedsCategoryBan).len() != code_name(c).len());
            assert(code_name(YandexErrorCode::FeedsLimitExceeded).len() != code_name(c).len());
            assert(code_name(YandexErrorCode::FieldValidationError).len() != code_name(c).len());
            assert(code_name(YandexErrorCode::HostAlreadyAdded).len() != code_name(c).len());
            assert(code_name(YandexErrorCode::HostNotFound).len() != code_name(c).len());
            assert(code_name(YandexErrorCode::HostNotIndexed).len() != code_name(c).len());
            assert(code_name(YandexErrorCode::HostNotLoaded).len() != code_name(c).len());
            assert(code_name(YandexErrorCode::HostNotVerified)[0] != code_name(c)[0]);
            assert(code_name(YandexErrorCode::HostsLimitExceeded).len() != code_name(c).len());
            assert(code_name(YandexErrorCode::IncorrectUrl).len() != code_name(c).len());
            assert(code_name(YandexErrorCode::InvalidOauthToken).len() != code_name(c).len());
            assert(code_name(YandexErrorCode::InvalidUrl).len() != code_name(c).len());
            assert(code_name(YandexErrorCode::InvalidUserId).len() != code_name(c).len());
            assert(code_name(YandexErrorCode::LimitsExceeded).len() != code_name(c).len());
            assert(code_name(YandexErrorCode::ManyUrlsForRemove).len() != code_name(c).len());
            assert(code_name(YandexErrorCode::MethodNotAllowed).len() != code_name(c).len());
            assert(code_name(YandexErrorCode::NoChanges).len() != code_name(c).len());
            assert(code_name(YandexErrorCode::NoVerificationRecord).len() != code_name(c).len());
            assert(code_name(YandexErrorCode::NotExist).len() != code_name(c).len());
            assert(code_name(YandexErrorCode::OnlyHttps).len() != code_name(c).len());
            assert(code_name(YandexErrorCode::PayloadTooLarge)[0] != code_name(c)[0]);
            assert(code_name(YandexErrorCode::QueryIdNotFound).len() != code_name(c).len());
            assert(code_name(YandexErrorCode::QuotaExceeded).len() != code_name(c).len());
            assert(code_name(YandexErrorCode::RequestEntityTooLarge).len() != code_name(c).len());
            assert(code_name(YandexErrorCode::RequestNotFound)[0] != code_name(c)[0]);
            assert(code_name(YandexErrorCode::ResourceNotFound).len() != code_name(c).len());
            assert(code_name(YandexErrorCode::SitemapAlreadyAdded).len() != code_name(c).len());
            assert(code_name(YandexErrorCode::SitemapNotAdded)[0] != code_name(c)[0]);
            assert(code_name(YandexErrorCode::SitemapNotFound)[0] != code_name(c)[0]);
            assert(code_name(YandexErrorCode::SomeDatesAreUnavailable).len() != code_name(c).len());
            assert(code_name(YandexErrorCode::TaskNotFound).len() != code_name(c).len());
            assert(code_name(YandexErrorCode::TextAlreadyAdded).len() != code_name(c).len());
            assert(code_name(YandexErrorCode::TextLengthConstraintsViolation).len() != code_name(c).len());
            assert(code_name(YandexErrorCode::TimedOut).len() != code_name(c).len());
            assert(code_name(YandexErrorCode::TooManyRequestsError).len() != code_name(c).len());
            assert(code_name(YandexErrorCode::UploadAddressExpired).len() != code_name(c).len());
        },
        YandexErrorCode::UrlsAreCorrupted => {
            assert(code_name(YandexErrorCode::AccessForbidden).len() != code_name(c).len());
            assert(code_name(YandexErrorCode::BadHttpCode).len() != code_name(c).len());
            assert(code_name(YandexErrorCode::BadMimeType).len() != code_name(c).len());
            assert(code_name(YandexErrorCode::BatchLimitExceeded).len() != code_name(c).len());
            assert(code_name(YandexErrorCode::ContentEncodingUnsupported).len() != code_name(c).len());
            assert(code_name(YandexErrorCode::ContentTypeUnsupported).len() != code_name(c).len());
            assert(code_name(YandexErrorCode::EmptyDates).len() != code_name(c).len());
            assert(code_name(YandexErrorCode::EmptyPaths).len() != code_name(c).len());
            assert(code_name(YandexErrorCode::EntityValidationError).len() != code_name(c).len());
            assert(code_name(YandexErrorCode::FeedAlreadyAdded)[0] != code_name(c)[0]);
            assert(code_name(YandexErrorCode::FeedsCategoryBan)[0] != code_name(c)[0]);
            assert(code_name(YandexErrorCode::FeedsLimitExceeded).len() != code_name(c).len());
            assert(code_name(YandexErrorCode::FieldValidationError).len() != code_name(c).len());
            assert(code_name(YandexErrorCode::HostAlreadyAdded)[0] != code_name(c)[0]);
            assert(code_name(YandexErrorCode::HostNotFound).len() != code_name(c).len());
            assert(code_name(YandexErrorCode::HostNotIndexed).len() != code_name(c).len());
            assert(code_name(YandexErrorCode::HostNotLoaded).len() != code_name(c).len());
            assert(code_name(YandexErrorCode::HostNotVerified).len() != code_name(c).len());
            assert(code_name(YandexErrorCode::HostsLimitExceeded).len() != code_name(c).len());
            assert(code_name(YandexErrorCode::IncorrectUrl).len() != code_name(c).len());
            assert(code_name(YandexErrorCode::InvalidOauthToken).len() != code_name(c).len());
            assert(code_name(YandexErrorCode::InvalidUrl).len() != code_name(c).len());
            assert(code_name(YandexErrorCode::InvalidUserId).len() != code_name(c).len());
            assert(code_name(YandexErrorCode::LimitsExceeded).len() != code_name(c).len());
            assert(code_name(YandexErrorCode::ManyUrlsForRemove).len() != code_name(c).len());
            assert(code_name(YandexErrorCode::MethodNotAllowed)[0] != code_name(c)[0]);
            assert(code_name(YandexErrorCode::NoChanges).len() != code_name(c).len());
            assert(code_name(YandexErrorCode::NoVerificationRecord).len() != code_name(c).len());
            assert(code_name(YandexErrorCode::NotExist).len() != code_name(c).len());
            assert(code_name(YandexErrorCode::OnlyHttps).len() != code_name(c).len());
            assert(code_name(YandexErrorCode::PayloadTooLarge).len() != code_name(c).len());
            assert(code_name(YandexErrorCode::QueryIdNotFound)[0] != code_name(c)[0]);
            assert(code_name(YandexErrorCode::QuotaExceeded).len() != code_name(c).len());
            assert(code_name(YandexErrorCode::RequestEntityTooLarge).len() != code_name(c).len());
            assert(code_name(YandexErrorCode::RequestNotFound).len() != code_name(c).len());
            assert(code_name(YandexErrorCode::ResourceNotFound)[0] != code_name(c)[0]);
            assert(code_name(YandexErrorCode::SitemapAlreadyAdded).len() != code_name(c).len());
            assert(code_name(YandexErrorCode::SitemapNotAdded).len() != code_name(c).len());
            assert(code_name(YandexErrorCode::SitemapNotFound).len() != code_name(c).len());
            assert(code_name(YandexErrorCode::SomeDatesAreUnavailable).len() != code_name(c).len());
            assert(code_name(YandexErrorCode::TaskNotFound).len() != code_name(c).len());
            assert(code_name(YandexErrorCode::TextAlreadyAdded)[0] != code_name(c)[0]);
            assert(code_name(YandexErrorCode::TextLengthConstraintsViolation).len() != code_name(c).len());
            assert(code_name(YandexErrorCode::TimedOut).len() != code_name(c).len());
            assert(code_name(YandexErrorCode::TooManyRequestsError).len() != code_name(c).len());
            assert(code_name(YandexErrorCode::UploadAddressExpired).len() != code_name(c).len());
            assert(code_name(YandexErrorCode::UrlAlreadyAdded).len() != code_name(c).len());
        },
        YandexErrorCode::VerificationAlreadyInProgress => {
            assert(code_name(YandexErrorCode::AccessForbidden).len() != code_name(c).len());
            assert(code_name(YandexErrorCode::BadHttpCode).len() != code_name(c).len());
            assert(code_name(YandexErrorCode::BadMimeType).len() != code_name(c).len());
            assert(code_name(YandexErrorCode::BatchLimitExceeded).len() != code_name(c).len());
            assert(code_name(YandexErrorCode::ContentEncodingUnsupported).len() != code_name(c).len());
            assert(code_name(YandexErrorCode::ContentTypeUnsupported).len() != code_name(c).len());
            assert(code_name(YandexErrorCode::EmptyDates).len() != code_name(c).len());
            assert(code_name(YandexErrorCode::EmptyPaths).len() != code_name(c).len());
            assert(code_name(YandexErrorCode::EntityValidationError).len() != code_name(c).len());
            assert(code_name(YandexErrorCode::FeedAlreadyAdded).len() != code_name(c).len());
            assert(code_name(YandexErrorCode::FeedsCategoryBan).len() != code_name(c).len());
            assert(code_name(YandexErrorCode::FeedsLimitExceeded).len() != code_name(c).len());
            assert(code_name(YandexErrorCode::FieldValidationError).len() != code_name(c).len());
            assert(code_name(YandexErrorCode::HostAlreadyAdded).len() != code_name(c).len());
            assert(code_name(YandexErrorCode::HostNotFound).len() != code_name(c).len());
            assert(code_name(YandexErrorCode::HostNotIndexed).len() != code_name(c).len());
            assert(code_name(YandexErrorCode::HostNotLoaded).len() != code_name(c).len());
            assert(code_name(YandexErrorCode::HostNotVerified).len() != code_name(c).len());
            assert(code_name(YandexErrorCode::HostsLimitExceeded).len() != code_name(c).len());
            assert(code_name(YandexErrorCode::IncorrectUrl).len() != code_name(c).len());
            assert(code_name(YandexErrorCode::InvalidOauthToken).len() != code_name(c).len());
            assert(code_name(YandexErrorCode::InvalidUrl).len() != code_name(c).len());
            assert(code_name(YandexErrorCode::InvalidUserId).len() != code_name(c).len());
            assert(code_name(YandexErrorCode::LimitsExceeded).len() != code_name(c).len());
            assert(code_name(YandexErrorCode::ManyUrlsForRemove).len() != code_name(c).len());
            assert(code_name(YandexErrorCode::MethodNotAllowed).len() != code_name(c).len());
            assert(code_name(YandexErrorCode::NoChanges).len() != code_name(c).len());
            assert(code_name(YandexErrorCode::NoVerificationRecord).len() != code_name(c).len());
            assert(code_name(YandexErrorCode::NotExist).len() != code_name(c).len());
            assert(code_name(YandexErrorCode::OnlyHttps).len() != code_name(c).len());
            assert(code_name(YandexErrorCode::PayloadTooLarge).len() != code_name(c).len());
            assert(code_name(YandexErrorCode::QueryIdNotFound).len() != code_name(c).len());
            assert(code_name(YandexErrorCode::QuotaExceeded).len() != code_name(c).len());
            assert(code_name(YandexErrorCode::RequestEntityTooLarge).len() != code_name(c).len());
            assert(code_name(YandexErrorCode::RequestNotFound).len() != code_name(c).len());
            assert(code_name(YandexErrorCode::ResourceNotFound).len() != code_name(c).len());
            assert(code_name(YandexErrorCode::SitemapAlreadyAdded).len() != code_name(c).len());
            assert(code_name(YandexErrorCode::SitemapNotAdded).len() != code_name(c).len());
            assert(code_name(YandexErrorCode::SitemapNotFound).len() != code_name(c).len());
            assert(code_name(YandexErrorCode::SomeDatesAreUnavailable).len() != code_name(c).len());
            assert(code_name(YandexErrorCode::TaskNotFound).len() != code_name(c).len());
            assert(code_name(YandexErrorCode::TextAlreadyAdded).len() != code_name(c).len());
            assert(code_name(YandexErrorCode::TextLengthConstraintsViolation).len() != code_name(c).len());
            assert(code_name(YandexErrorCode::TimedOut).len() != code_name(c).len());
            assert(code_name(YandexErrorCode::TooManyRequestsError).len() != code_name(c).len());
            assert(code_name(YandexErrorCode::UploadAddressExpired).len() != code_name(c).len());
            assert(code_name(YandexErrorCode::UrlAlreadyAdded).len() != code_name(c).len());
            assert(code_name(YandexErrorCode::UrlsAreCorrupted).len() != code_name(c).len());
        },
        YandexErrorCode::WrongRegion => {
            assert(code_name(YandexErrorCode::AccessForbidden).len() != code_name(c).len());
            assert(code_name(YandexErrorCode::BadHttpCode).len() != code_name(c).len());
            assert(code_name(YandexErrorCode::BadMimeType).len() != code_name(c).len());
            assert(code_name(YandexErrorCode::BatchLimitExceeded).len() != code_name(c).len());
            assert(code_name(YandexErrorCode::ContentEncodingUnsupported).len() != code_name(c).len());
            assert(code_name(YandexErrorCode::ContentTypeUnsupported).len() != code_name(c).len());
            assert(code_name(YandexErrorCode::EmptyDates).len() != code_name(c).len());
            assert(code_name(YandexErrorCode::EmptyPaths).len() != code_name(c).len());
            assert(code_name(YandexErrorCode::EntityValidationError).len() != code_name(c).len());
            assert(code_name(YandexErrorCode::FeedAlreadyAdded).len() != code_name(c).len());
            assert(code_name(YandexErrorCode::FeedsCategoryBan).len() != code_name(c).len());
            assert(code_name(YandexErrorCode::FeedsLimitExceeded).len() != code_name(c).len());
            assert(code_name(YandexErrorCode::FieldValidationError).len() != code_name(c).len());
            assert(code_name(YandexErrorCode::HostAlreadyAdded).len() != code_name(c).len());
            assert(code_name(YandexErrorCode::HostNotFound).len() != code_name(c).len());
            assert(code_name(YandexErrorCode::HostNotIndexed).len() != code_name(c).len());
            assert(code_name(YandexErrorCode::HostNotLoaded).len() != code_name(c).len());
            assert(code_name(YandexErrorCode::HostNotVerified).len() != code_name(c).len());
            assert(code_name(YandexErrorCode::HostsLimitExceeded).len() != code_name(c).len());
            assert(code_name(YandexErrorCode::IncorrectUrl).len() != code_name(c).len());
            assert(code_name(YandexErrorCode::InvalidOauthToken).len() != code_name(c).len());
            assert(code_name(YandexErrorCode::InvalidUrl).len() != code_name(c).len());
            assert(code_name(YandexErrorCode::InvalidUserId).len() != code_name(c).len());
            assert(code_name(YandexErrorCode::LimitsExceeded).len() != code_name(c).len());
            assert(code_name(YandexErrorCode::ManyUrlsForRemove).len() != code_name(c).len());
            assert(code_name(YandexErrorCode::MethodNotAllowed).len() != code_name(c).len());
            assert(code_name(YandexErrorCode::NoChanges).len() != code_name(c).len());
            assert(code_name(YandexErrorCode::NoVerificationRecord).len() != code_name(c).len());
            assert(code_name(YandexErrorCode::NotExist).len() != code_name(c).len());
            assert(code_name(YandexErrorCode::OnlyHttps).len() != code_name(c).len());
            assert(code_name(YandexErrorCode::PayloadTooLarge).len() != code_name(c).len());
            assert(code_name(YandexErrorCode::QueryIdNotFound).len() != code_name(c).len());
            assert(code_name(YandexErrorCode::QuotaExceeded).len() != code_name(c).len());
            assert(code_name(YandexErrorCode::RequestEntityTooLarge).len() != code_name(c).len());
            assert(code_name(YandexErrorCode::RequestNotFound).len() != code_name(c).len());
            assert(code_name(YandexErrorCode::ResourceNotFound).len() != code_name(c).len());
            assert(code_name(YandexErrorCode::SitemapAlreadyAdded).len() != code_name(c).len());
            assert(code_name(YandexErrorCode::SitemapNotAdded).len() != code_name(c).len());
            assert(code_name(YandexErrorCode::SitemapNotFound).len() != code_name(c).len());
            assert(code_name(YandexErrorCode::SomeDatesAreUnavailable).len() != code_name(c).len());
            assert(code_name(YandexErrorCode::TaskNotFound).len() != code_name(c).len());
            assert(code_name(YandexErrorCode::TextAlreadyAdded).len() != code_name(c).len());
            assert(code_name(YandexErrorCode::TextLengthConstraintsViolation).len() != code_name(c).len());
            assert(code_name(YandexErrorCode::TimedOut).len() != code_name(c).len());
            assert(code_name(YandexErrorCode::TooManyRequestsError).len() != code_name(c).len());
            assert(code_name(YandexErrorCode::UploadAddressExpired).len() != code_name(c).len());
            assert(code_name(YandexErrorCode::UrlAlreadyAdded).len() != code_name(c).len());
            assert(code_name(YandexErrorCode::UrlsAreCorrupted).len() != code_name(c).len());
            assert(code_name(YandexErrorCode::VerificationAlreadyInProgress).len() != code_name(c).len());
        },
        YandexErrorCode::Unknown(_) => {},
    }
}

/// Decoding a text and taking the name of the result gives the text back.
pub proof fn lemma_decoded_code_name(s: Seq<char>, c: YandexErrorCode)
    requires
        decodes_to(s, c),
    ensures
        code_name(c) == s,
{
}

impl YandexErrorCode {
    /// Decodes a code from the text that the service sent.
    pub fn from_code(s: &str) -> (r: Self)
        ensures
            decodes_to(s@, r),
    {
        if text_eq(s, "ACCESS_FORBIDDEN") {
            YandexErrorCode::AccessForbidden
        } else if text_eq(s, "BAD_HTTP_CODE") {
            YandexErrorCode::BadHttpCode
        } else if text_eq(s, "BAD_MIME_TYPE") {
            YandexErrorCode::BadMimeType
        } else if text_eq(s, "BATCH_LIMIT_EXCEEDED") {
            YandexErrorCode::BatchLimitExceeded
        } else if text_eq(s, "CONTENT_ENCODING_UNSUPPORTED") {
            YandexErrorCode::ContentEncodingUnsupported
        } else if text_eq(s, "CONTENT_TYPE_UNSUPPORTED") {
            YandexErrorCode::ContentTypeUnsupported
        } else if text_eq(s, "EMPTY_DATES") {
            YandexErrorCode::EmptyDates
        } else if text_eq(s, "EMPTY_PATHS") {
            YandexErrorCode::EmptyPaths
        } else if text_eq(s, "ENTITY_VALIDATION_ERROR") {
            YandexErrorCode::EntityValidationError
        } else if text_eq(s, "FEED_ALREADY_ADDED") {
            YandexErrorCode::FeedAlreadyAdded
        } else if text_eq(s, "FEEDS_CATEGORY_BAN") {
            YandexErrorCode::FeedsCategoryBan
        } else if text_eq(s, "FEEDS_LIMIT_EXCEEDED") {
            YandexErrorCode::FeedsLimitExceeded
        } else if text_eq(s, "FIELD_VALIDATION_ERROR") {
            YandexErrorCode::FieldValidationError
        } else if text_eq(s, "HOST_ALREADY_ADDED") {
            YandexErrorCode::HostAlreadyAdded
        } else if text_eq(s, "HOST_NOT_FOUND") {
            YandexErrorCode::HostNotFound
        } else if text_eq(s, "HOST_NOT_INDEXED") {
            YandexErrorCode::HostNotIndexed
        } else if text_eq(s, "HOST_NOT_LOADED") {
            YandexErrorCode::HostNotLoaded
        } else if text_eq(s, "HOST_NOT_VERIFIED") {
            YandexErrorCode::HostNotVerified
        } else if text_eq(s, "HOSTS_LIMIT_EXCEEDED") {
            YandexErrorCode::HostsLimitExceeded
        } else if text_eq(s, "INCORRECT_URL") {
            YandexErrorCode::IncorrectUrl
        } else if text_eq(s, "INVALID_OAUTH_TOKEN") {
            YandexErrorCode::InvalidOauthToken
        } else if text_eq(s, "INVALID_URL") {
            YandexErrorCode::InvalidUrl
        } else if text_eq(s, "INVALID_USER_ID") {
            YandexErrorCode::InvalidUserId
        } else if text_eq(s, "LIMITS_EXCEEDED") {
            YandexErrorCode::LimitsExceeded
        } else if text_eq(s, "MANY_URLS_FOR_REMOVE") {
            YandexErrorCode::ManyUrlsForRemove
        } else if text_eq(s, "METHOD_NOT_ALLOWED") {
            YandexErrorCode::MethodNotAllowed
        } else if text_eq(s, "NO_CHANGES") {
            YandexErrorCode::NoChanges
        } else if text_eq(s, "NO_VERIFICATION_RECORD") {
            YandexErrorCode::NoVerificationRecord
        } else if text_eq(s, "NOT_EXIST") {
            YandexErrorCode::NotExist
        } else if text_eq(s, "ONLY_HTTPS") {
            YandexErrorCode::OnlyHttps
        } else if text_eq(s, "PAYLOAD_TOO_LARGE") {
            YandexErrorCode::PayloadTooLarge
        } else if text_eq(s, "QUERY_ID_NOT_FOUND") {
            YandexErrorCode::QueryIdNotFound
        } else if text_eq(s, "QUOTA_EXCEEDED") {
            YandexErrorCode::QuotaExceeded
        } else if text_eq(s, "REQUEST_ENTITY_TOO_LARGE") {
            YandexErrorCode::RequestEntityTooLarge
        } else if text_eq(s, "REQUEST_NOT_FOUND") {
            YandexErrorCode::RequestNotFound
        } else if text_eq(s, "RESOURCE_NOT_FOUND") {
            YandexErrorCode::ResourceNotFound
        } else if text_eq(s, "SITEMAP_ALREADY_ADDED") {
            YandexErrorCode::SitemapAlreadyAdded
        } else if text_eq(s, "SITEMAP_NOT_ADDED") {
            YandexErrorCode::SitemapNotAdded
        } else if text_eq(s, "SITEMAP_NOT_FOUND") {
            YandexErrorCode::SitemapNotFound
        } else if text_eq(s, "SOME_DATES_ARE_UNAVAILABLE") {
            YandexErrorCode::SomeDatesAreUnavailable
        } else if text_eq(s, "TASK_NOT_FOUND") {
            YandexErrorCode::TaskNotFound
        } else if text_eq(s, "TEXT_ALREADY_ADDED") {
            YandexErrorCode::TextAlreadyAdded
        } else if text_eq(s, "TEXT_LENGTH_CONSTRAINTS_VIOLATION") {
            YandexErrorCode::TextLengthConstraintsViolation
        } else if text_eq(s, "TIMED_OUT") {
            YandexErrorCode::TimedOut
        } else if text_eq(s, "TOO_MANY_REQUESTS_ERROR") {
            YandexErrorCode::TooManyRequestsError
        } else if text_eq(s, "UPLOAD_ADDRESS_EXPIRED") {
            YandexErrorCode::UploadAddressExpired
        } else if text_eq(s, "URL_ALREADY_ADDED") {
            YandexErrorCode::UrlAlreadyAdded
        } else if text_eq(s, "URLS_ARE_CORRUPTED") {
            YandexErrorCode::UrlsAreCorrupted
        } else if text_eq(s, "VERIFICATION_ALREADY_IN_PROGRESS") {
            YandexErrorCode::VerificationAlreadyInProgress
        } else if text_eq(s, "WRONG_REGION") {
            YandexErrorCode::WrongRegion
        } else {
            YandexErrorCode::Unknown(String::from_str(s))
        }
    }

    /// The code's name as the service writes it.
    pub fn to_string(&self) -> (r: String)
        ensures
            r@ == code_name(*self),
    {
        match self {
            YandexErrorCode::AccessForbidden => String::from_str("ACCESS_FORBIDDEN"),
            YandexErrorCode::BadHttpCode => String::from_str("BAD_HTTP_CODE"),
            YandexErrorCode::BadMimeType => String::from_str("BAD_MIME_TYPE"),
            YandexErrorCode::BatchLimitExceeded => String::from_str("BATCH_LIMIT_EXCEEDED"),
            YandexErrorCode::ContentEncodingUnsupported => String::from_str("CONTENT_ENCODING_UNSUPPORTED"),
            YandexErrorCode::ContentTypeUnsupported => String::from_str("CONTENT_TYPE_UNSUPPORTED"),
            YandexErrorCode::EmptyDates => String::from_str("EMPTY_DATES"),
            YandexErrorCode::EmptyPaths => String::from_str("EMPTY_PATHS"),
            YandexErrorCode::EntityValidationError => String::from_str("ENTITY_VALIDATION_ERROR"),
            YandexErrorCode::FeedAlreadyAdded => String::from_str("FEED_ALREADY_ADDED"),
            YandexErrorCode::FeedsCategoryBan => String::from_str("FEEDS_CATEGORY_BAN"),
            YandexErrorCode::FeedsLimitExceeded => String::from_str("FEEDS_LIMIT_EXCEEDED"),
            YandexErrorCode::FieldValidationError => String::from_str("FIELD_VALIDATION_ERROR"),
            YandexErrorCode::HostAlreadyAdded => String::from_str("HOST_ALREADY_ADDED"),
            YandexErrorCode::HostNotFound => String::from_str("HOST_NOT_FOUND"),
            YandexErrorCode::HostNotIndexed => String::from_str("HOST_NOT_INDEXED"),
            YandexErrorCode::HostNotLoaded => String::from_str("HOST_NOT_LOADED"),
            YandexErrorCode::HostNotVerified => String::from_str("HOST_NOT_VERIFIED"),
            YandexErrorCode::HostsLimitExceeded => String::from_str("HOSTS_LIMIT_EXCEEDED"),
            YandexErrorCode::IncorrectUrl => String::from_str("INCORRECT_URL"),
            YandexErrorCode::InvalidOauthToken => String::from_str("INVALID_OAUTH_TOKEN"),
            YandexErrorCode::InvalidUrl => String::from_str("INVALID_URL"),
            YandexErrorCode::InvalidUserId => String::from_str("INVALID_USER_ID"),
            YandexErrorCode::LimitsExceeded => String::from_str("LIMITS_EXCEEDED"),
            YandexErrorCode::ManyUrlsForRemove => String::from_str("MANY_URLS_FOR_REMOVE"),
            YandexErrorCode::MethodNotAllowed => String::from_str("METHOD_NOT_ALLOWED"),
            YandexErrorCode::NoChanges => String::from_str("NO_CHANGES"),
            YandexErrorCode::NoVerificationRecord => String::from_str("NO_VERIFICATION_RECORD"),
            YandexErrorCode::NotExist => String::from_str("NOT_EXIST"),
            YandexErrorCode::OnlyHttps => String::from_str("ONLY_HTTPS"),
            YandexErrorCode::PayloadTooLarge => String::from_str("PAYLOAD_TOO_LARGE"),
            YandexErrorCode::QueryIdNotFound => String::from_str("QUERY_ID_NOT_FOUND"),
            YandexErrorCode::QuotaExceeded => String::from_str("QUOTA_EXCEEDED"),
            YandexErrorCode::RequestEntityTooLarge => String::from_str("REQUEST_ENTITY_TOO_LARGE"),
            YandexErrorCode::RequestNotFound => String::from_str("REQUEST_NOT_FOUND"),
            YandexErrorCode::ResourceNotFound => String::from_str("RESOURCE_NOT_FOUND"),
            YandexErrorCode::SitemapAlreadyAdded => String::from_str("SITEMAP_ALREADY_ADDED"),
            YandexErrorCode::SitemapNotAdded => String::from_str("SITEMAP_NOT_ADDED"),
            YandexErrorCode::SitemapNotFound => String::from_str("SITEMAP_NOT_FOUND"),
            YandexErrorCode::SomeDatesAreUnavailable => String::from_str("SOME_DATES_ARE_UNAVAILABLE"),
            YandexErrorCode::TaskNotFound => String::from_str("TASK_NOT_FOUND"),
            YandexErrorCode::TextAlreadyAdded => String::from_str("TEXT_ALREADY_ADDED"),
            YandexErrorCode::TextLengthConstraintsViolation => String::from_str("TEXT_LENGTH_CONSTRAINTS_VIOLATION"),
            YandexErrorCode::TimedOut => String::from_str("TIMED_OUT"),
            YandexErrorCode::TooManyRequestsError => String::from_str("TOO_MANY_REQUESTS_ERROR"),
            YandexErrorCode::UploadAddressExpired => String::from_str("UPLOAD_ADDRESS_EXPIRED"),
            YandexErrorCode::UrlAlreadyAdded => String::from_str("URL_ALREADY_ADDED"),
            YandexErrorCode::UrlsAreCorrupted => String::from_str("URLS_ARE_CORRUPTED"),
            YandexErrorCode::VerificationAlreadyInProgress => String::from_str("VERIFICATION_ALREADY_IN_PROGRESS"),
            YandexErrorCode::WrongRegion => String::from_str("WRONG_REGION"),
            YandexErrorCode::Unknown(s) => s.clone(),
        }
    }
}

} // verus!
