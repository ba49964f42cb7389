//! A typed client core for the Yandex Webmaster HTTP API.
//!
//! The library holds the protocol logic of the client: the taxonomy of the
//! service's error codes and the decoding of its error bodies, the
//! classification of responses by status, the authorization header, the
//! encoding of query filters and the construction of request addresses.
//! The network transport itself lives outside the library.
mod body;
mod date;
mod dto;
mod error;
mod error_code;
mod json;
mod middleware;
mod query;
mod response;
mod session;
mod text;

pub use date::Date;
pub use dto::{
    lemma_start_date_only, lemma_two_indicators_repeat, AddHostRequest, AddHostResponse,
    AddSitemapRequest, AddSitemapResponse, ApiDeviceTypeIndicator, ApiExcludedUrlStatus,
    ApiImportantUrlChangeIndicator, ApiQueryIndicator, ApiQueryOrderField, ApiSearchEventEnum,
    ApiSiteProblemState, ApiSiteProblemTypeEnum, ApiSitemapSource, ApiSitemapType,
    ExplicitVerificationType, FailInfo, FullHostInfo, GetIndexingSamplesRequest,
    GetRecrawlTasksRequest, GetSearchEventsSamplesRequest, GetSearchUrlsSamplesRequest,
    GetSitemapsRequest, GetUserSitemapsRequest, HostDataStatus, HostInfo,
    HostVerificationResponse, HostsResponse, IndexingHistoryRequest, IndexingStatusEnum,
    PopularQueriesRequest, QueryAnalyticsRequest, QueryHistoryRequest, RecrawlQuotaResponse,
    RecrawlRequest, RecrawlResponse, RecrawlTaskState, SiteProblemSeverityEnum,
    SqiHistoryRequest, VerificationFailReason, VerificationState, VerificationType,
};
pub use error::{
    lemma_known_code_body, lemma_unknown_code_body, YandexApiErrorResponse, YandexWebmasterError,
};
pub use error_code::{lemma_decoded_code_name, lemma_known_code_name_decodes, YandexErrorCode};
pub use middleware::AuthMiddleware;
pub use query::{encode_query, lemma_encoding_repeatable};
pub use response::{
    classify_error, decoded, handle_response, is_success_status, lemma_status_decides, parse_error,
};
pub use session::{user_url, with_query, Session, UserResponse};
pub use text::{signed_text, text_eq, unsigned_text};
