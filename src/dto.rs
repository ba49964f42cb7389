use vstd::prelude::*;

use crate::date::{iso_date, padded_digits, Date};
use crate::error::{optional_text_view, YandexWebmasterError};
use crate::body::{object_json, object_text, quoted, quoted_text};
use crate::json::{pairs_view, texts_view};
use crate::text::digit_char;
use crate::query::{
    encode_query, fields_view, int_value, date_value, list_field, optional_date_text,
    all_plain, encodes, field_text, is_plain_char, is_plain_text, lemma_plain_concat, optional_field,
    optional_int_text, push_list, push_optional, query_text, repeated_pairs,
};

verus! {

/// The indicator by which popular queries are sorted.
#[derive(Debug, Clone, Copy, PartialEq, Eq)]
pub enum ApiQueryOrderField {
    TotalShows,
    TotalClicks,
}

impl ApiQueryOrderField {
    /// The name under which the service knows the value.
    pub open spec fn spec_name(self) -> Seq<char> {
        match self {
            ApiQueryOrderField::TotalShows => "TOTAL_SHOWS"@,
            ApiQueryOrderField::TotalClicks => "TOTAL_CLICKS"@,
        }
    }

    /// The name under which the service knows the value.
    pub fn name(&self) -> (r: String)
        ensures
            r@ == self.spec_name(),
    {
        match self {
            ApiQueryOrderField::TotalShows => String::from_str("TOTAL_SHOWS"),
            ApiQueryOrderField::TotalClicks => String::from_str("TOTAL_CLICKS"),
        }
    }
}

/// The name of an optional value.
pub open spec fn optional_query_order_field_name(v: Option<ApiQueryOrderField>) -> Option<Seq<char>> {
    match v {
        Some(x) => Some(x.spec_name()),
        None => None,
    }
}

fn query_order_field_value(v: Option<ApiQueryOrderField>) -> (r: Option<String>)
    ensures
        optional_text_view(r) == optional_query_order_field_name(v),
{
    match v {
        Some(x) => Some(x.name()),
        None => None,
    }
}

/// An indicator of search query statistics.
#[derive(Debug, Clone, Copy, PartialEq, Eq, Hash)]
pub enum ApiQueryIndicator {
    TotalShows,
    TotalClicks,
    AvgShowPosition,
    AvgClickPosition,
}

impl ApiQueryIndicator {
    /// The name under which the service knows the value.
    pub open spec fn spec_name(self) -> Seq<char> {
        match self {
            ApiQueryIndicator::TotalShows => "TOTAL_SHOWS"@,
            ApiQueryIndicator::TotalClicks => "TOTAL_CLICKS"@,
            ApiQueryIndicator::AvgShowPosition => "AVG_SHOW_POSITION"@,
            ApiQueryIndicator::AvgClickPosition => "AVG_CLICK_POSITION"@,
        }
    }

    /// The name under which the service knows the value.
    pub fn name(&self) -> (r: String)
        ensures
            r@ == self.spec_name(),
    {
        match self {
            ApiQueryIndicator::TotalShows => String::from_str("TOTAL_SHOWS"),
            ApiQueryIndicator::TotalClicks => String::from_str("TOTAL_CLICKS"),
            ApiQueryIndicator::AvgShowPosition => String::from_str("AVG_SHOW_POSITION"),
            ApiQueryIndicator::AvgClickPosition => String::from_str("AVG_CLICK_POSITION"),
        }
    }
}

/// The name of an optional value.
pub open spec fn optional_query_indicator_name(v: Option<ApiQueryIndicator>) -> Option<Seq<char>> {
    match v {
        Some(x) => Some(x.spec_name()),
        None => None,
    }
}

fn query_indicator_value(v: Option<ApiQueryIndicator>) -> (r: Option<String>)
    ensures
        optional_text_view(r) == optional_query_indicator_name(v),
{
    match v {
        Some(x) => Some(x.name()),
        None => None,
    }
}

/// The names of a list of values, in order.
pub open spec fn query_indicator_names(v: Seq<ApiQueryIndicator>) -> Seq<Seq<char>> {
    v.map_values(|x: ApiQueryIndicator| x.spec_name())
}

fn query_indicator_list(v: &Vec<ApiQueryIndicator>) -> (r: Vec<String>)
    ensures
        texts_view(r@) == query_indicator_names(v@),
{
    let mut r: Vec<String> = Vec::new();
    let mut i: usize = 0;
    while i < v.len()
        invariant
            i <= v@.len(),
            r@.len() == i,
            texts_view(r@) == query_indicator_names(v@.subrange(0, i as int)),
        decreases v.len() - i,
    {
        let ghost before = r@;
        let name = v[i].name();
        assert(name@ == v@[i as int].spec_name());
        r.push(name);
        assert(r@ == before.push(name));
        assert(texts_view(r@) =~= texts_view(before).push(name@));
        assert(v@.subrange(0, i + 1) == v@.subrange(0, i as int).push(v@[i as int]));
        assert(query_indicator_names(v@.subrange(0, i + 1)) =~= query_indicator_names(v@.subrange(0, i as int)).push(name@));
        assert(texts_view(r@) =~= query_indicator_names(v@.subrange(0, i + 1)));
        i = i + 1;
    }
    assert(v@.subrange(0, i as int) == v@);
    r
}

/// The kind of device that statistics cover.
#[derive(Debug, Clone, Copy, PartialEq, Eq, Default)]
pub enum ApiDeviceTypeIndicator {
    #[default]
    All,
    Desktop,
    MobileAndTablet,
    Mobile,
    Tablet,
}

impl ApiDeviceTypeIndicator {
    /// The name under which the service knows the value.
    pub open spec fn spec_name(self) -> Seq<char> {
        match self {
            ApiDeviceTypeIndicator::All => "ALL"@,
            ApiDeviceTypeIndicator::Desktop => "DESKTOP"@,
            ApiDeviceTypeIndicator::MobileAndTablet => "MOBILE_AND_TABLET"@,
            ApiDeviceTypeIndicator::Mobile => "MOBILE"@,
            ApiDeviceTypeIndicator::Tablet => "TABLET"@,
        }
    }

    /// The name under which the service knows the value.
    pub fn name(&self) -> (r: String)
        ensures
            r@ == self.spec_name(),
    {
        match self {
            ApiDeviceTypeIndicator::All => String::from_str("ALL"),
            ApiDeviceTypeIndicator::Desktop => String::from_str("DESKTOP"),
            ApiDeviceTypeIndicator::MobileAndTablet => String::from_str("MOBILE_AND_TABLET"),
            ApiDeviceTypeIndicator::Mobile => String::from_str("MOBILE"),
            ApiDeviceTypeIndicator::Tablet => String::from_str("TABLET"),
        }
    }
}

/// The name of an optional value.
pub open spec fn optional_device_type_name(v: Option<ApiDeviceTypeIndicator>) -> Option<Seq<char>> {
    match v {
        Some(x) => Some(x.spec_name()),
        None => None,
    }
}

fn device_type_value(v: Option<ApiDeviceTypeIndicator>) -> (r: Option<String>)
    ensures
        optional_text_view(r) == optional_device_type_name(v),
{
    match v {
        Some(x) => Some(x.name()),
        None => None,
    }
}

/// A way to verify the rights to a site on request.
#[derive(Debug, Clone, Copy, PartialEq, Eq)]
pub enum ExplicitVerificationType {
    Dns,
    MetaTag,
    HtmlFile,
}

impl ExplicitVerificationType {
    /// The name under which the service knows the value.
    pub open spec fn spec_name(self) -> Seq<char> {
        match self {
            ExplicitVerificationType::Dns => "DNS"@,
            ExplicitVerificationType::MetaTag => "META_TAG"@,
            ExplicitVerificationType::HtmlFile => "HTML_FILE"@,
        }
    }

    /// The name under which the service knows the value.
    pub fn name(&self) -> (r: String)
        ensures
            r@ == self.spec_name(),
    {
        match self {
            ExplicitVerificationType::Dns => String::from_str("DNS"),
            ExplicitVerificationType::MetaTag => String::from_str("META_TAG"),
            ExplicitVerificationType::HtmlFile => String::from_str("HTML_FILE"),
        }
    }
}

/// The name of an optional value.
pub open spec fn optional_verification_type_name(v: Option<ExplicitVerificationType>) -> Option<Seq<char>> {
    match v {
        Some(x) => Some(x.spec_name()),
        None => None,
    }
}

fn verification_type_value(v: Option<ExplicitVerificationType>) -> (r: Option<String>)
    ensures
        optional_text_view(r) == optional_verification_type_name(v),
{
    match v {
        Some(x) => Some(x.name()),
        None => None,
    }
}

/// A way in which the rights to a site were verified.
#[derive(Debug, Clone, Copy, PartialEq, Eq)]
pub enum VerificationType {
    Auto,
    Delegated,
    Pdd,
    TxtFile,
    Dns,
    MetaTag,
    HtmlFile,
}

impl VerificationType {
    /// The name under which the service knows the value.
    pub open spec fn spec_name(self) -> Seq<char> {
        match self {
            VerificationType::Auto => "AUTO"@,
            VerificationType::Delegated => "DELEGATED"@,
            VerificationType::Pdd => "PDD"@,
            VerificationType::TxtFile => "TXT_FILE"@,
            VerificationType::Dns => "DNS"@,
            VerificationType::MetaTag => "META_TAG"@,
            VerificationType::HtmlFile => "HTML_FILE"@,
        }
    }

    /// The name under which the service knows the value.
    pub fn name(&self) -> (r: String)
        ensures
            r@ == self.spec_name(),
    {
        match self {
            VerificationType::Auto => String::from_str("AUTO"),
            VerificationType::Delegated => String::from_str("DELEGATED"),
            VerificationType::Pdd => String::from_str("PDD"),
            VerificationType::TxtFile => String::from_str("TXT_FILE"),
            VerificationType::Dns => String::from_str("DNS"),
            VerificationType::MetaTag => String::from_str("META_TAG"),
            VerificationType::HtmlFile => String::from_str("HTML_FILE"),
        }
    }
}

/// The name of an optional value.
pub open spec fn optional_any_verification_type_name(v: Option<VerificationType>) -> Option<Seq<char>> {
    match v {
        Some(x) => Some(x.spec_name()),
        None => None,
    }
}

fn any_verification_type_value(v: Option<VerificationType>) -> (r: Option<String>)
    ensures
        optional_text_view(r) == optional_any_verification_type_name(v),
{
    match v {
        Some(x) => Some(x.name()),
        None => None,
    }
}

/// An optional text.
fn text_value(v: &Option<String>) -> (r: Option<String>)
    ensures
        optional_text_view(r) == optional_text_view(*v),
{
    match v {
        Some(s) => Some(s.clone()),
        None => None,
    }
}

/// The filter of the site quality index history.
#[derive(Debug, Clone, PartialEq, Eq, Default)]
pub struct SqiHistoryRequest {
    /// The first day of the range.
    pub date_from: Option<Date>,
    /// The last day of the range.
    pub date_to: Option<Date>,
}

impl SqiHistoryRequest {
    /// The query fields of the filter, in the order of its fields: nothing for
    /// an absent value, one value for a present one, and every element of a
    /// list under the same key.
    pub open spec fn spec_query_fields(&self) -> Seq<(Seq<char>, Seq<Seq<char>>)> {
        optional_field("date_from"@, optional_date_text(self.date_from))
            + optional_field("date_to"@, optional_date_text(self.date_to))
    }

    /// The query fields of the filter.
    pub fn query_fields(&self) -> (r: Vec<(String, Vec<String>)>)
        ensures
            fields_view(r@) == self.spec_query_fields(),
    {
        let mut fields: Vec<(String, Vec<String>)> = Vec::new();
        assert(fields_view(fields@) =~= Seq::empty());
        push_optional(&mut fields, "date_from", date_value(self.date_from));
        assert(fields_view(fields@) =~= optional_field("date_from"@, optional_date_text(self.date_from)));
        push_optional(&mut fields, "date_to", date_value(self.date_to));
        assert(fields_view(fields@) =~= optional_field("date_from"@, optional_date_text(self.date_from)) + optional_field("date_to"@, optional_date_text(self.date_to)));
        fields
    }

    /// The filter as a query string: the encoded fields joined with `&`.
    pub fn to_query(&self) -> (r: Result<String, YandexWebmasterError>)
        ensures
            encodes(self.spec_query_fields(), r),
    {
        let fields = self.query_fields();
        encode_query(&fields)
    }
}

/// The filter of the popular search queries.
#[derive(Debug, Clone, PartialEq, Eq)]
pub struct PopularQueriesRequest {
    /// The indicator by which queries are sorted.
    pub order_by: ApiQueryOrderField,
    /// The indicators to report.
    pub query_indicator: Option<ApiQueryIndicator>,
    /// The kind of device covered.
    pub device_type_indicator: Option<ApiDeviceTypeIndicator>,
    /// The first day of the range.
    pub date_from: Option<Date>,
    /// The last day of the range.
    pub date_to: Option<Date>,
    /// The offset in the list.
    pub offset: Option<i32>,
    /// The size of a page of the list.
    pub limit: Option<i32>,
}

impl PopularQueriesRequest {
    /// The query fields of the filter, in the order of its fields: nothing for
    /// an absent value, one value for a present one, and every element of a
    /// list under the same key.
    pub open spec fn spec_query_fields(&self) -> Seq<(Seq<char>, Seq<Seq<char>>)> {
        optional_field("order_by"@, Some(self.order_by.spec_name()))
            + optional_field("query_indicator"@, optional_query_indicator_name(self.query_indicator))
            + optional_field("device_type_indicator"@, optional_device_type_name(self.device_type_indicator))
            + optional_field("date_from"@, optional_date_text(self.date_from))
            + optional_field("date_to"@, optional_date_text(self.date_to))
            + optional_field("offset"@, optional_int_text(self.offset))
            + optional_field("limit"@, optional_int_text(self.limit))
    }

    /// The query fields of the filter.
    pub fn query_fields(&self) -> (r: Vec<(String, Vec<String>)>)
        ensures
            fields_view(r@) == self.spec_query_fields(),
    {
        let mut fields: Vec<(String, Vec<String>)> = Vec::new();
        assert(fields_view(fields@) =~= Seq::empty());
        push_optional(&mut fields, "order_by", Some(self.order_by.name()));
        assert(fields_view(fields@) =~= optional_field("order_by"@, Some(self.order_by.spec_name())));
        push_optional(&mut fields, "query_indicator", query_indicator_value(self.query_indicator));
        assert(fields_view(fields@) =~= optional_field("order_by"@, Some(self.order_by.spec_name())) + optional_field("query_indicator"@, optional_query_indicator_name(self.query_indicator)));
        push_optional(&mut fields, "device_type_indicator", device_type_value(self.device_type_indicator));
        assert(fields_view(fields@) =~= optional_field("order_by"@, Some(self.order_by.spec_name())) + optional_field("query_indicator"@, optional_query_indicator_name(self.query_indicator)) + optional_field("device_type_indicator"@, optional_device_type_name(self.device_type_indicator)));
        push_optional(&mut fields, "date_from", date_value(self.date_from));
        assert(fields_view(fields@) =~= optional_field("order_by"@, Some(self.order_by.spec_name())) + optional_field("query_indicator"@, optional_query_indicator_name(self.query_indicator)) + optional_field("device_type_indicator"@, optional_device_type_name(self.device_type_indicator)) + optional_field("date_from"@, optional_date_text(self.date_from)));
        push_optional(&mut fields, "date_to", date_value(self.date_to));
        assert(fields_view(fields@) =~= optional_field("order_by"@, Some(self.order_by.spec_name())) + optional_field("query_indicator"@, optional_query_indicator_name(self.query_indicator)) + optional_field("device_type_indicator"@, optional_device_type_name(self.device_type_indicator)) + optional_field("date_from"@, optional_date_text(self.date_from)) + optional_field("date_to"@, optional_date_text(self.date_to)));
        push_optional(&mut fields, "offset", int_value(self.offset));
        assert(fields_view(fields@) =~= optional_field("order_by"@, Some(self.order_by.spec_name())) + optional_field("query_indicator"@, optional_query_indicator_name(self.query_indicator)) + optional_field("device_type_indicator"@, optional_device_type_name(self.device_type_indicator)) + optional_field("date_from"@, optional_date_text(self.date_from)) + optional_field("date_to"@, optional_date_text(self.date_to)) + optional_field("offset"@, optional_int_text(self.offset)));
        push_optional(&mut fields, "limit", int_value(self.limit));
        assert(fields_view(fields@) =~= optional_field("order_by"@, Some(self.order_by.spec_name())) + optional_field("query_indicator"@, optional_query_indicator_name(self.query_indicator)) + optional_field("device_type_indicator"@, optional_device_type_name(self.device_type_indicator)) + optional_field("date_from"@, optional_date_text(self.date_from)) + optional_field("date_to"@, optional_date_text(self.date_to)) + optional_field("offset"@, optional_int_text(self.offset)) + optional_field("limit"@, optional_int_text(self.limit)));
        fields
    }

    /// The filter as a query string: the encoded fields joined with `&`.
    pub fn to_query(&self) -> (r: Result<String, YandexWebmasterError>)
        ensures
            encodes(self.spec_query_fields(), r),
    {
        let fields = self.query_fields();
        encode_query(&fields)
    }
}

/// The filter of the overall search query statistics.
#[derive(Debug, Clone, PartialEq, Eq)]
pub struct QueryAnalyticsRequest {
    /// The indicators to report.
    pub query_indicator: Vec<ApiQueryIndicator>,
    /// The kind of device covered.
    pub device_type_indicator: Option<ApiDeviceTypeIndicator>,
    /// The first day of the range.
    pub date_from: Option<Date>,
    /// The last day of the range.
    pub date_to: Option<Date>,
}

impl QueryAnalyticsRequest {
    /// The query fields of the filter, in the order of its fields: nothing for
    /// an absent value, one value for a present one, and every element of a
    /// list under the same key.
    pub open spec fn spec_query_fields(&self) -> Seq<(Seq<char>, Seq<Seq<char>>)> {
        list_field("query_indicator"@, query_indicator_names(self.query_indicator@))
            + optional_field("device_type_indicator"@, optional_device_type_name(self.device_type_indicator))
            + optional_field("date_from"@, optional_date_text(self.date_from))
            + optional_field("date_to"@, optional_date_text(self.date_to))
    }

    /// The query fields of the filter.
    pub fn query_fields(&self) -> (r: Vec<(String, Vec<String>)>)
        ensures
            fields_view(r@) == self.spec_query_fields(),
    {
        let mut fields: Vec<(String, Vec<String>)> = Vec::new();
        assert(fields_view(fields@) =~= Seq::empty());
        push_list(&mut fields, "query_indicator", query_indicator_list(&self.query_indicator));
        assert(fields_view(fields@) =~= list_field("query_indicator"@, query_indicator_names(self.query_indicator@)));
        push_optional(&mut fields, "device_type_indicator", device_type_value(self.device_type_indicator));
        assert(fields_view(fields@) =~= list_field("query_indicator"@, query_indicator_names(self.query_indicator@)) + optional_field("device_type_indicator"@, optional_device_type_name(self.device_type_indicator)));
        push_optional(&mut fields, "date_from", date_value(self.date_from));
        assert(fields_view(fields@) =~= list_field("query_indicator"@, query_indicator_names(self.query_indicator@)) + optional_field("device_type_indicator"@, optional_device_type_name(self.device_type_indicator)) + optional_field("date_from"@, optional_date_text(self.date_from)));
        push_optional(&mut fields, "date_to", date_value(self.date_to));
        assert(fields_view(fields@) =~= list_field("query_indicator"@, query_indicator_names(self.query_indicator@)) + optional_field("device_type_indicator"@, optional_device_type_name(self.device_type_indicator)) + optional_field("date_from"@, optional_date_text(self.date_from)) + optional_field("date_to"@, optional_date_text(self.date_to)));
        fields
    }

    /// The filter as a query string: the encoded fields joined with `&`.
    pub fn to_query(&self) -> (r: Result<String, YandexWebmasterError>)
        ensures
            encodes(self.spec_query_fields(), r),
    {
        let fields = self.query_fields();
        encode_query(&fields)
    }
}

/// The filter of the statistics of one search query.
#[derive(Debug, Clone, PartialEq, Eq)]
pub struct QueryHistoryRequest {
    /// The indicators to report.
    pub query_indicator: Vec<ApiQueryIndicator>,
    /// The kind of device covered.
    pub device_type_indicator: Option<ApiDeviceTypeIndicator>,
    /// The first day of the range.
    pub date_from: Option<Date>,
    /// The last day of the range.
    pub date_to: Option<Date>,
}

impl QueryHistoryRequest {
    /// The query fields of the filter, in the order of its fields: nothing for
    /// an absent value, one value for a present one, and every element of a
    /// list under the same key.
    pub open spec fn spec_query_fields(&self) -> Seq<(Seq<char>, Seq<Seq<char>>)> {
        list_field("query_indicator"@, query_indicator_names(self.query_indicator@))
            + optional_field("device_type_indicator"@, optional_device_type_name(self.device_type_indicator))
            + optional_field("date_from"@, optional_date_text(self.date_from))
            + optional_field("date_to"@, optional_date_text(self.date_to))
    }

    /// The query fields of the filter.
    pub fn query_fields(&self) -> (r: Vec<(String, Vec<String>)>)
        ensures
            fields_view(r@) == self.spec_query_fields(),
    {
        let mut fields: Vec<(String, Vec<String>)> = Vec::new();
        assert(fields_view(fields@) =~= Seq::empty());
        push_list(&mut fields, "query_indicator", query_indicator_list(&self.query_indicator));
        assert(fields_view(fields@) =~= list_field("query_indicator"@, query_indicator_names(self.query_indicator@)));
        push_optional(&mut fields, "device_type_indicator", device_type_value(self.device_type_indicator));
        assert(fields_view(fields@) =~= list_field("query_indicator"@, query_indicator_names(self.query_indicator@)) + optional_field("device_type_indicator"@, optional_device_type_name(self.device_type_indicator)));
        push_optional(&mut fields, "date_from", date_value(self.date_from));
        assert(fields_view(fields@) =~= list_field("query_indicator"@, query_indicator_names(self.query_indicator@)) + optional_field("device_type_indicator"@, optional_device_type_name(self.device_type_indicator)) + optional_field("date_from"@, optional_date_text(self.date_from)));
        push_optional(&mut fields, "date_to", date_value(self.date_to));
        assert(fields_view(fields@) =~= list_field("query_indicator"@, query_indicator_names(self.query_indicator@)) + optional_field("device_type_indicator"@, optional_device_type_name(self.device_type_indicator)) + optional_field("date_from"@, optional_date_text(self.date_from)) + optional_field("date_to"@, optional_date_text(self.date_to)));
        fields
    }

    /// The filter as a query string: the encoded fields joined with `&`.
    pub fn to_query(&self) -> (r: Result<String, YandexWebmasterError>)
        ensures
            encodes(self.spec_query_fields(), r),
    {
        let fields = self.query_fields();
        encode_query(&fields)
    }
}

/// The filter of the list of sitemap files.
#[derive(Debug, Clone, PartialEq, Eq, Default)]
pub struct GetSitemapsRequest {
    /// The sitemap index whose files are listed.
    pub parent_id: Option<String>,
    /// The size of a page of the list.
    pub limit: Option<i32>,
    /// The sitemap from which the list goes on.
    pub from: Option<String>,
}

impl GetSitemapsRequest {
    /// The query fields of the filter, in the order of its fields: nothing for
    /// an absent value, one value for a present one, and every element of a
    /// list under the same key.
    pub open spec fn spec_query_fields(&self) -> Seq<(Seq<char>, Seq<Seq<char>>)> {
        optional_field("parent_id"@, optional_text_view(self.parent_id))
            + optional_field("limit"@, optional_int_text(self.limit))
            + optional_field("from"@, optional_text_view(self.from))
    }

    /// The query fields of the filter.
    pub fn query_fields(&self) -> (r: Vec<(String, Vec<String>)>)
        ensures
            fields_view(r@) == self.spec_query_fields(),
    {
        let mut fields: Vec<(String, Vec<String>)> = Vec::new();
        assert(fields_view(fields@) =~= Seq::empty());
        push_optional(&mut fields, "parent_id", text_value(&self.parent_id));
        assert(fields_view(fields@) =~= optional_field("parent_id"@, optional_text_view(self.parent_id)));
        push_optional(&mut fields, "limit", int_value(self.limit));
        assert(fields_view(fields@) =~= optional_field("parent_id"@, optional_text_view(self.parent_id)) + optional_field("limit"@, optional_int_text(self.limit)));
        push_optional(&mut fields, "from", text_value(&self.from));
        assert(fields_view(fields@) =~= optional_field("parent_id"@, optional_text_view(self.parent_id)) + optional_field("limit"@, optional_int_text(self.limit)) + optional_field("from"@, optional_text_view(self.from)));
        fields
    }

    /// The filter as a query string: the encoded fields joined with `&`.
    pub fn to_query(&self) -> (r: Result<String, YandexWebmasterError>)
        ensures
            encodes(self.spec_query_fields(), r),
    {
        let fields = self.query_fields();
        encode_query(&fields)
    }
}

/// The filter of the list of sitemaps added by the user.
#[derive(Debug, Clone, PartialEq, Eq, Default)]
pub struct GetUserSitemapsRequest {
    /// The offset in the list.
    pub offset: Option<i32>,
    /// The size of a page of the list.
    pub limit: Option<i32>,
}

impl GetUserSitemapsRequest {
    /// The query fields of the filter, in the order of its fields: nothing for
    /// an absent value, one value for a present one, and every element of a
    /// list under the same key.
    pub open spec fn spec_query_fields(&self) -> Seq<(Seq<char>, Seq<Seq<char>>)> {
        optional_field("offset"@, optional_int_text(self.offset))
            + optional_field("limit"@, optional_int_text(self.limit))
    }

    /// The query fields of the filter.
    pub fn query_fields(&self) -> (r: Vec<(String, Vec<String>)>)
        ensures
            fields_view(r@) == self.spec_query_fields(),
    {
        let mut fields: Vec<(String, Vec<String>)> = Vec::new();
        assert(fields_view(fields@) =~= Seq::empty());
        push_optional(&mut fields, "offset", int_value(self.offset));
        assert(fields_view(fields@) =~= optional_field("offset"@, optional_int_text(self.offset)));
        push_optional(&mut fields, "limit", int_value(self.limit));
        assert(fields_view(fields@) =~= optional_field("offset"@, optional_int_text(self.offset)) + optional_field("limit"@, optional_int_text(self.limit)));
        fields
    }

    /// The filter as a query string: the encoded fields joined with `&`.
    pub fn to_query(&self) -> (r: Result<String, YandexWebmasterError>)
        ensures
            encodes(self.spec_query_fields(), r),
    {
        let fields = self.query_fields();
        encode_query(&fields)
    }
}

/// The filter of a history over a range of dates.
#[derive(Debug, Clone, PartialEq, Eq, Default)]
pub struct IndexingHistoryRequest {
    /// The first day of the range.
    pub date_from: Option<Date>,
    /// The last day of the range.
    pub date_to: Option<Date>,
}

impl IndexingHistoryRequest {
    /// The query fields of the filter, in the order of its fields: nothing for
    /// an absent value, one value for a present one, and every element of a
    /// list under the same key.
    pub open spec fn spec_query_fields(&self) -> Seq<(Seq<char>, Seq<Seq<char>>)> {
        optional_field("date_from"@, optional_date_text(self.date_from))
            + optional_field("date_to"@, optional_date_text(self.date_to))
    }

    /// The query fields of the filter.
    pub fn query_fields(&self) -> (r: Vec<(String, Vec<String>)>)
        ensures
            fields_view(r@) == self.spec_query_fields(),
    {
        let mut fields: Vec<(String, Vec<String>)> = Vec::new();
        assert(fields_view(fields@) =~= Seq::empty());
        push_optional(&mut fields, "date_from", date_value(self.date_from));
        assert(fields_view(fields@) =~= optional_field("date_from"@, optional_date_text(self.date_from)));
        push_optional(&mut fields, "date_to", date_value(self.date_to));
        assert(fields_view(fields@) =~= optional_field("date_from"@, optional_date_text(self.date_from)) + optional_field("date_to"@, optional_date_text(self.date_to)));
        fields
    }

    /// The filter as a query string: the encoded fields joined with `&`.
    pub fn to_query(&self) -> (r: Result<String, YandexWebmasterError>)
        ensures
            encodes(self.spec_query_fields(), r),
    {
        let fields = self.query_fields();
        encode_query(&fields)
    }
}

/// The filter of the sample of indexed pages.
#[derive(Debug, Clone, PartialEq, Eq, Default)]
pub struct GetIndexingSamplesRequest {
    /// The offset in the list.
    pub offset: Option<i32>,
    /// The size of a page of the list.
    pub limit: Option<i32>,
}

impl GetIndexingSamplesRequest {
    /// The query fields of the filter, in the order of its fields: nothing for
    /// an absent value, one value for a present one, and every element of a
    /// list under the same key.
    pub open spec fn spec_query_fields(&self) -> Seq<(Seq<char>, Seq<Seq<char>>)> {
        optional_field("offset"@, optional_int_text(self.offset))
            + optional_field("limit"@, optional_int_text(self.limit))
    }

    /// The query fields of the filter.
    pub fn query_fields(&self) -> (r: Vec<(String, Vec<String>)>)
        ensures
            fields_view(r@) == self.spec_query_fields(),
    {
        let mut fields: Vec<(String, Vec<String>)> = Vec::new();
        assert(fields_view(fields@) =~= Seq::empty());
        push_optional(&mut fields, "offset", int_value(self.offset));
        assert(fields_view(fields@) =~= optional_field("offset"@, optional_int_text(self.offset)));
        push_optional(&mut fields, "limit", int_value(self.limit));
        assert(fields_view(fields@) =~= optional_field("offset"@, optional_int_text(self.offset)) + optional_field("limit"@, optional_int_text(self.limit)));
        fields
    }

    /// The filter as a query string: the encoded fields joined with `&`.
    pub fn to_query(&self) -> (r: Result<String, YandexWebmasterError>)
        ensures
            encodes(self.spec_query_fields(), r),
    {
        let fields = self.query_fields();
        encode_query(&fields)
    }
}

/// The filter of the sample of pages in search.
#[derive(Debug, Clone, PartialEq, Eq, Default)]
pub struct GetSearchUrlsSamplesRequest {
    /// The offset in the list.
    pub offset: Option<i32>,
    /// The size of a page of the list.
    pub limit: Option<i32>,
}

impl GetSearchUrlsSamplesRequest {
    /// The query fields of the filter, in the order of its fields: nothing for
    /// an absent value, one value for a present one, and every element of a
    /// list under the same key.
    pub open spec fn spec_query_fields(&self) -> Seq<(Seq<char>, Seq<Seq<char>>)> {
        optional_field("offset"@, optional_int_text(self.offset))
            + optional_field("limit"@, optional_int_text(self.limit))
    }

    /// The query fields of the filter.
    pub fn query_fields(&self) -> (r: Vec<(String, Vec<String>)>)
        ensures
            fields_view(r@) == self.spec_query_fields(),
    {
        let mut fields: Vec<(String, Vec<String>)> = Vec::new();
        assert(fields_view(fields@) =~= Seq::empty());
        push_optional(&mut fields, "offset", int_value(self.offset));
        assert(fields_view(fields@) =~= optional_field("offset"@, optional_int_text(self.offset)));
        push_optional(&mut fields, "limit", int_value(self.limit));
        assert(fields_view(fields@) =~= optional_field("offset"@, optional_int_text(self.offset)) + optional_field("limit"@, optional_int_text(self.limit)));
        fields
    }

    /// The filter as a query string: the encoded fields joined with `&`.
    pub fn to_query(&self) -> (r: Result<String, YandexWebmasterError>)
        ensures
            encodes(self.spec_query_fields(), r),
    {
        let fields = self.query_fields();
        encode_query(&fields)
    }
}

/// The filter of the sample of pages that entered or left search.
#[derive(Debug, Clone, PartialEq, Eq, Default)]
pub struct GetSearchEventsSamplesRequest {
    /// The offset in the list.
    pub offset: Option<i32>,
    /// The size of a page of the list.
    pub limit: Option<i32>,
}

impl GetSearchEventsSamplesRequest {
    /// The query fields of the filter, in the order of its fields: nothing for
    /// an absent value, one value for a present one, and every element of a
    /// list under the same key.
    pub open spec fn spec_query_fields(&self) -> Seq<(Seq<char>, Seq<Seq<char>>)> {
        optional_field("offset"@, optional_int_text(self.offset))
            + optional_field("limit"@, optional_int_text(self.limit))
    }

    /// The query fields of the filter.
    pub fn query_fields(&self) -> (r: Vec<(String, Vec<String>)>)
        ensures
            fields_view(r@) == self.spec_query_fields(),
    {
        let mut fields: Vec<(String, Vec<String>)> = Vec::new();
        assert(fields_view(fields@) =~= Seq::empty());
        push_optional(&mut fields, "offset", int_value(self.offset));
        assert(fields_view(fields@) =~= optional_field("offset"@, optional_int_text(self.offset)));
        push_optional(&mut fields, "limit", int_value(self.limit));
        assert(fields_view(fields@) =~= optional_field("offset"@, optional_int_text(self.offset)) + optional_field("limit"@, optional_int_text(self.limit)));
        fields
    }

    /// The filter as a query string: the encoded fields joined with `&`.
    pub fn to_query(&self) -> (r: Result<String, YandexWebmasterError>)
        ensures
            encodes(self.spec_query_fields(), r),
    {
        let fields = self.query_fields();
        encode_query(&fields)
    }
}

/// The filter of the list of recrawl tasks.
#[derive(Debug, Clone, PartialEq, Eq, Default)]
pub struct GetRecrawlTasksRequest {
    /// The offset in the list.
    pub offset: Option<i32>,
    /// The size of a page of the list.
    pub limit: Option<i32>,
    /// The first day of the range.
    pub date_from: Option<Date>,
    /// The last day of the range.
    pub date_to: Option<Date>,
}

impl GetRecrawlTasksRequest {
    /// The query fields of the filter, in the order of its fields: nothing for
    /// an absent value, one value for a present one, and every element of a
    /// list under the same key.
    pub open spec fn spec_query_fields(&self) -> Seq<(Seq<char>, Seq<Seq<char>>)> {
        optional_field("offset"@, optional_int_text(self.offset))
            + optional_field("limit"@, optional_int_text(self.limit))
            + optional_field("date_from"@, optional_date_text(self.date_from))
            + optional_field("date_to"@, optional_date_text(self.date_to))
    }

    /// The query fields of the filter.
    pub fn query_fields(&self) -> (r: Vec<(String, Vec<String>)>)
        ensures
            fields_view(r@) == self.spec_query_fields(),
    {
        let mut fields: Vec<(String, Vec<String>)> = Vec::new();
        assert(fields_view(fields@) =~= Seq::empty());
        push_optional(&mut fields, "offset", int_value(self.offset));
        assert(fields_view(fields@) =~= optional_field("offset"@, optional_int_text(self.offset)));
        push_optional(&mut fields, "limit", int_value(self.limit));
        assert(fields_view(fields@) =~= optional_field("offset"@, optional_int_text(self.offset)) + optional_field("limit"@, optional_int_text(self.limit)));
        push_optional(&mut fields, "date_from", date_value(self.date_from));
        assert(fields_view(fields@) =~= optional_field("offset"@, optional_int_text(self.offset)) + optional_field("limit"@, optional_int_text(self.limit)) + optional_field("date_from"@, optional_date_text(self.date_from)));
        push_optional(&mut fields, "date_to", date_value(self.date_to));
        assert(fields_view(fields@) =~= optional_field("offset"@, optional_int_text(self.offset)) + optional_field("limit"@, optional_int_text(self.limit)) + optional_field("date_from"@, optional_date_text(self.date_from)) + optional_field("date_to"@, optional_date_text(self.date_to)));
        fields
    }

    /// The filter as a query string: the encoded fields joined with `&`.
    pub fn to_query(&self) -> (r: Result<String, YandexWebmasterError>)
        ensures
            encodes(self.spec_query_fields(), r),
    {
        let fields = self.query_fields();
        encode_query(&fields)
    }
}

/// The indexing state of a site.
#[derive(Debug, Clone, Copy, PartialEq, Eq)]
pub enum HostDataStatus {
    NotIndexed,
    NotLoaded,
    Available,
}

/// The state of the verification of the rights to a site.
#[derive(Debug, Clone, Copy, PartialEq, Eq)]
pub enum VerificationState {
    NotVerified,
    Verified,
    InProgress,
    VerificationFailed,
    InternalError,
}

/// Why a verification failed.
#[derive(Debug, Clone, Copy, PartialEq, Eq)]
pub enum VerificationFailReason {
    DelegationCancelled,
    DnsRecordNotFound,
    MetaTagNotFound,
    WrongHtmlPageContent,
    PddVerificationCancelled,
}

/// Where a sitemap file was found.
#[derive(Debug, Clone, Copy, PartialEq, Eq)]
pub enum ApiSitemapSource {
    RobotsTxt,
    Webmaster,
    IndexSitemap,
}

/// The kind of a sitemap file.
#[derive(Debug, Clone, Copy, PartialEq, Eq)]
pub enum ApiSitemapType {
    Sitemap,
    IndexSitemap,
}

/// The class of the HTTP status with which a page was fetched.
#[derive(Debug, Clone, Copy, PartialEq, Eq, Hash)]
pub enum IndexingStatusEnum {
    Http2xx,
    Http3xx,
    Http4xx,
    Http5xx,
    Other,
}

/// The severity of a site problem.
#[derive(Debug, Clone, Copy, PartialEq, Eq, Hash)]
pub enum SiteProblemSeverityEnum {
    Fatal,
    Critical,
    PossibleProblem,
    Recommendation,
}

/// Why a page is not in search.
#[derive(Debug, Clone, Copy, PartialEq, Eq, Hash)]
pub enum ApiExcludedUrlStatus {
    NothingFound,
    HostError,
    RedirectNotsearchable,
    HttpError,
    NotCanonical,
    NotMainMirror,
    ParserError,
    RobotsHostError,
    RobotsUrlError,
    Duplicate,
    CleanParams,
    NoIndex,
    ForbiddenByRobotsTxt,
    UrlNotAllowed,
    ContainsNoindexMetaTag,
    ContainsNoindexXRobotsTagHeader,
    SitemapForbidden,
    SitemapNotAllowed,
    LowQuality,
    AlternativeDuplicate,
    UserDuplicate,
    CanonicalDuplicate,
    RedirectDuplicate,
    MovedPermanently,
    MovedTemporarily,
    MalwareDetected,
    PhishingDetected,
    AdultContent,
    Other,
}

/// What changed on an important page.
#[derive(Debug, Clone, Copy, PartialEq, Eq, Hash)]
pub enum ApiImportantUrlChangeIndicator {
    IndexingHttpCode,
    SearchStatus,
    Title,
    Description,
}

/// Whether a page entered or left search.
#[derive(Debug, Clone, Copy, PartialEq, Eq, Hash)]
pub enum ApiSearchEventEnum {
    AppearedInSearch,
    RemovedFromSearch,
}

/// The state of a recrawl task.
#[derive(Debug, Clone, Copy, PartialEq, Eq)]
pub enum RecrawlTaskState {
    InProgress,
    Done,
    Failed,
}

/// A kind of site problem.
#[derive(Debug, Clone, Copy, PartialEq, Eq, Hash)]
pub enum ApiSiteProblemTypeEnum {
    ConnectFailed,
    DisallowedInRobots,
    DnsError,
    MainPageError,
    Threats,
    InsignificantCgiParameter,
    SlowAvgResponseTime,
    SslCertificateError,
    UrlAlert4xx,
    UrlAlert5xx,
    DisallowedUrlsAlert,
    DocumentsMissingDescription,
    DocumentsMissingTitle,
    DuplicateContentAttrs,
    DuplicatePages,
    ErrorInRobotsTxt,
    ErrorsInSitemaps,
    FaviconError,
    MainMirrorIsNotHttps,
    MainPageRedirects,
    NoMetrikaCounterBinding,
    NoMetrikaCounterCrawlEnabled,
    NoRobotsTxt,
    NoSitemaps,
    NoSitemapModifications,
    NonWorkingVideo,
    Soft404,
    TooManyDomainsOnSearch,
    VideohostOfferFailed,
    VideohostOfferIsNeeded,
    VideohostOfferNeedPaper,
    BigFaviconAbsent,
    FaviconProblem,
    NoMetrikaCounter,
    NoRegions,
    NotInSprav,
    NotMobileFriendly,
    VygodaPossibleActivation,
}

/// Whether a site problem is present.
#[derive(Debug, Clone, Copy, PartialEq, Eq, Hash)]
pub enum ApiSiteProblemState {
    Present,
    Absent,
    Undefined,
}

/// The sites of the account.
#[derive(Debug, PartialEq, Eq)]
pub struct HostsResponse {
    /// The sites.
    pub hosts: Vec<HostInfo>,
}

/// A site of the account.
#[derive(Debug, PartialEq, Eq)]
pub struct HostInfo {
    /// The site's identifier.
    pub host_id: String,
    /// The site's address in ASCII.
    pub ascii_host_url: String,
    /// The site's address in Unicode.
    pub unicode_host_url: String,
    /// Whether the rights to the site are verified.
    pub verified: bool,
    /// The site's main mirror, where it has one.
    pub main_mirror: Option<Box<HostInfo>>,
}

/// A site of the account, with its indexing state.
#[derive(Debug, PartialEq, Eq)]
pub struct FullHostInfo {
    /// The site's identifier.
    pub host_id: String,
    /// The site's address in ASCII.
    pub ascii_host_url: String,
    /// The site's address in Unicode.
    pub unicode_host_url: String,
    /// Whether the rights to the site are verified.
    pub verified: bool,
    /// The site's main mirror, where it has one.
    pub main_mirror: Option<Box<HostInfo>>,
    /// The indexing state, for a verified site.
    pub host_data_status: Option<HostDataStatus>,
    /// The name shown for the site.
    pub host_display_name: Option<String>,
}

/// The outcome of adding a site.
#[derive(Debug, Clone, PartialEq, Eq)]
pub struct AddHostResponse {
    /// The identifier given to the site.
    pub host_id: String,
}

/// Why a verification failed.
#[derive(Debug, Clone, PartialEq, Eq)]
pub struct FailInfo {
    /// The reason, for people.
    pub message: String,
    /// The reason.
    pub reason: VerificationFailReason,
}

/// The verification state of a site.
#[derive(Debug, Clone, PartialEq, Eq)]
pub struct HostVerificationResponse {
    /// The state.
    pub verification_state: VerificationState,
    /// The way of verification.
    pub verification_type: VerificationType,
    /// The token that the verification looks for.
    pub verification_uin: String,
    /// The ways that apply to the site.
    pub applicable_verifiers: Vec<ExplicitVerificationType>,
}

/// The outcome of adding a sitemap.
#[derive(Debug, Clone, PartialEq, Eq)]
pub struct AddSitemapResponse {
    /// The identifier given to the sitemap.
    pub sitemap_id: String,
}

/// The outcome of a recrawl request.
#[derive(Debug, Clone, PartialEq, Eq)]
pub struct RecrawlResponse {
    /// The identifier of the task.
    pub task_id: String,
}

/// The recrawl quota of a site.
#[derive(Debug, Clone, PartialEq, Eq)]
pub struct RecrawlQuotaResponse {
    /// The number of pages a day.
    pub daily_quota: i32,
    /// What is left of it today.
    pub quota_remainder: i32,
}

/// Whether `r` is the outcome of writing a body whose JSON text is `t`:
/// that text, or a parse error where the serializer fails.
pub open spec fn writes_json(t: Option<Seq<char>>, r: Result<String, YandexWebmasterError>) -> bool {
    match t {
        Some(t) => r is Ok && r->Ok_0@ == t,
        None => r is Err && r->Err_0 is ParseError,
    }
}

/// The member of an optional value: none where it is absent.
pub open spec fn optional_member(key: Seq<char>, value: Option<Seq<char>>) -> Option<
    Seq<(Seq<char>, Seq<char>)>,
> {
    match value {
        None => Some(Seq::empty()),
        Some(v) => match quoted_text(v) {
            Some(q) => Some(seq![(key, q)]),
            None => None,
        },
    }
}

/// The request that adds a site to the account.
#[derive(Debug, Clone, PartialEq, Eq)]
pub struct AddHostRequest {
    /// The site's address.
    pub host_url: String,
    /// The way in which the rights will be verified.
    pub verification_type: VerificationType,
}

impl AddHostRequest {
    /// The JSON body of the request.
    pub open spec fn spec_json(&self) -> Option<Seq<char>> {
        match (quoted_text(self.host_url@), quoted_text(self.verification_type.spec_name())) {
            (Some(u), Some(v)) => Some(
                object_text(seq![("host_url"@, u), ("verification_type"@, v)]),
            ),
            _ => None,
        }
    }

    /// Writes the JSON body of the request.
    pub fn to_json(&self) -> (r: Result<String, YandexWebmasterError>)
        ensures
            writes_json(self.spec_json(), r),
    {
        let url = match quoted(self.host_url.as_str()) {
            Ok(t) => t,
            Err(e) => return Err(e),
        };
        let name = self.verification_type.name();
        let kind = match quoted(name.as_str()) {
            Ok(t) => t,
            Err(e) => return Err(e),
        };
        let mut members: Vec<(String, String)> = Vec::new();
        members.push((String::from_str("host_url"), url));
        members.push((String::from_str("verification_type"), kind));
        assert(pairs_view(members@) =~= seq![
            ("host_url"@, url@),
            ("verification_type"@, kind@),
        ]);
        Ok(object_json(&members))
    }
}

/// Writes the JSON body `{"url":...}` of a request that names one page.
fn url_body(url: &String) -> (r: Result<String, YandexWebmasterError>)
    ensures
        writes_json(
            match quoted_text(url@) {
                Some(u) => Some(object_text(seq![("url"@, u)])),
                None => None,
            },
            r,
        ),
{
    let quoted_url = match quoted(url.as_str()) {
        Ok(t) => t,
        Err(e) => return Err(e),
    };
    let mut members: Vec<(String, String)> = Vec::new();
    members.push((String::from_str("url"), quoted_url));
    assert(pairs_view(members@) =~= seq![("url"@, quoted_url@)]);
    Ok(object_json(&members))
}

/// The request that adds a sitemap file.
#[derive(Debug, Clone, PartialEq, Eq)]
pub struct AddSitemapRequest {
    /// The sitemap's address.
    pub url: String,
}

impl AddSitemapRequest {
    /// The JSON body of the request.
    pub open spec fn spec_json(&self) -> Option<Seq<char>> {
        match quoted_text(self.url@) {
            Some(u) => Some(object_text(seq![("url"@, u)])),
            None => None,
        }
    }

    /// Writes the JSON body of the request.
    pub fn to_json(&self) -> (r: Result<String, YandexWebmasterError>)
        ensures
            writes_json(self.spec_json(), r),
    {
        url_body(&self.url)
    }
}

/// The request that asks for a page to be crawled again.
#[derive(Debug, Clone, PartialEq, Eq)]
pub struct RecrawlRequest {
    /// The page's address.
    pub url: String,
}

impl RecrawlRequest {
    /// The JSON body of the request.
    pub open spec fn spec_json(&self) -> Option<Seq<char>> {
        match quoted_text(self.url@) {
            Some(u) => Some(object_text(seq![("url"@, u)])),
            None => None,
        }
    }

    /// Writes the JSON body of the request.
    pub fn to_json(&self) -> (r: Result<String, YandexWebmasterError>)
        ensures
            writes_json(self.spec_json(), r),
    {
        url_body(&self.url)
    }
}

impl IndexingHistoryRequest {
    /// The JSON body of the filter, for the histories that take it as a
    /// body: the present dates as strings, the absent ones left out.
    pub open spec fn spec_json(&self) -> Option<Seq<char>> {
        match (
            optional_member("date_from"@, optional_date_text(self.date_from)),
            optional_member("date_to"@, optional_date_text(self.date_to)),
        ) {
            (Some(a), Some(b)) => Some(object_text(a + b)),
            _ => None,
        }
    }

    /// Writes the JSON body of the filter.
    pub fn to_json(&self) -> (r: Result<String, YandexWebmasterError>)
        ensures
            writes_json(self.spec_json(), r),
    {
        let mut members: Vec<(String, String)> = Vec::new();
        let from = date_value(self.date_from);
        let to = date_value(self.date_to);
        let ghost a = optional_member("date_from"@, optional_date_text(self.date_from));
        let ghost b = optional_member("date_to"@, optional_date_text(self.date_to));
        match from {
            Some(t) => {
                let q = match quoted(t.as_str()) {
                    Ok(q) => q,
                    Err(e) => return Err(e),
                };
                members.push((String::from_str("date_from"), q));
            },
            None => {},
        }
        assert(pairs_view(members@) =~= a->Some_0);
        match to {
            Some(t) => {
                let q = match quoted(t.as_str()) {
                    Ok(q) => q,
                    Err(e) => return Err(e),
                };
                let ghost before = members@;
                members.push((String::from_str("date_to"), q));
                assert(pairs_view(members@) =~= pairs_view(before) + seq![("date_to"@, q@)]);
            },
            None => {},
        }
        assert(pairs_view(members@) =~= a->Some_0 + b->Some_0);
        Ok(object_json(&members))
    }
}

/// Every digit character is plain.
proof fn lemma_digit_plain(d: int)
    requires
        0 <= d < 10,
    ensures
        is_plain_char(digit_char(d)),
{
    let digits = seq!['0', '1', '2', '3', '4', '5', '6', '7', '8', '9'];
    assert(digits[d] == digit_char(d));
    assert(d == 0 || d == 1 || d == 2 || d == 3 || d == 4 || d == 5 || d == 6 || d == 7 || d == 8
        || d == 9);
}

/// Zero-padded digits are plain.
proof fn lemma_padded_digits_plain(n: nat, width: nat)
    ensures
        is_plain_text(padded_digits(n, width)),
    decreases width,
{
    if width > 0 {
        lemma_padded_digits_plain(n / 10, (width - 1) as nat);
        lemma_digit_plain((n % 10) as int);
        let p = padded_digits(n / 10, (width - 1) as nat);
        assert forall|i: int| 0 <= i < padded_digits(n, width).len() implies is_plain_char(
            #[trigger] padded_digits(n, width)[i],
        ) by {
            if i < p.len() {
                assert(padded_digits(n, width)[i] == p[i]);
            }
        }
    }
}

/// A date written as `YYYY-MM-DD` is plain.
proof fn lemma_iso_date_plain(year: nat, month: nat, day: nat)
    ensures
        is_plain_text(iso_date(year, month, day)),
{
    lemma_padded_digits_plain(year, 4);
    lemma_padded_digits_plain(month, 2);
    lemma_padded_digits_plain(day, 2);
    let dash = seq!['-'];
    assert(is_plain_text(dash));
    lemma_plain_concat(padded_digits(year, 4), dash);
    lemma_plain_concat(padded_digits(year, 4) + dash, padded_digits(month, 2));
    lemma_plain_concat(padded_digits(year, 4) + dash + padded_digits(month, 2), dash);
    lemma_plain_concat(
        padded_digits(year, 4) + dash + padded_digits(month, 2) + dash,
        padded_digits(day, 2),
    );
}

/// The names of the indicators are plain.
proof fn lemma_indicator_name_plain(x: ApiQueryIndicator)
    ensures
        is_plain_text(x.spec_name()),
        x.spec_name().len() > 0,
{
    reveal_strlit("TOTAL_SHOWS");
    reveal_strlit("TOTAL_CLICKS");
    reveal_strlit("AVG_SHOW_POSITION");
    reveal_strlit("AVG_CLICK_POSITION");
}

/// A query analytics filter whose list holds two indicators and whose
/// optional fields are absent encodes to exactly two pairs under the key
/// `query_indicator`, in the list's order, and to no key of an absent field.
pub proof fn lemma_two_indicators_repeat(r: QueryAnalyticsRequest)
    requires
        r.query_indicator@.len() == 2,
        r.device_type_indicator is None,
        r.date_from is None,
        r.date_to is None,
    ensures
        query_text(r.spec_query_fields()) == Some(
            "query_indicator="@ + r.query_indicator@[0].spec_name() + "&query_indicator="@
                + r.query_indicator@[1].spec_name(),
        ),
{
    reveal_strlit("query_indicator");
    reveal_strlit("query_indicator=");
    reveal_strlit("&query_indicator=");
    reveal_strlit("=");
    reveal_strlit("&");
    let key = "query_indicator"@;
    let names = query_indicator_names(r.query_indicator@);
    lemma_indicator_name_plain(r.query_indicator@[0]);
    lemma_indicator_name_plain(r.query_indicator@[1]);
    assert(names[0] == r.query_indicator@[0].spec_name());
    assert(names[1] == r.query_indicator@[1].spec_name());
    assert(all_plain(names));
    assert(is_plain_text(key));
    let fields = r.spec_query_fields();
    assert(fields =~= seq![(key, names)]);
    assert(fields.drop_last().len() == 0);
    assert(names.drop_last() =~= seq![names[0]]);
    assert(key.len() > 0);
    assert(field_text(key, names) == Some(repeated_pairs(key, names)));
    assert(query_text(fields.drop_last()) == Some(Seq::<char>::empty()));
    reveal_with_fuel(repeated_pairs, 2);
    assert(repeated_pairs(key, names) =~= "query_indicator="@ + names[0] + "&query_indicator="@
        + names[1]);
}

/// A site quality history filter with a start date in the years 0 to 9999
/// and no end date encodes to `date_from=YYYY-MM-DD` alone.
pub proof fn lemma_start_date_only(r: SqiHistoryRequest)
    requires
        r.date_from is Some,
        0 <= r.date_from->Some_0.ymd().0 <= 9999,
        r.date_to is None,
    ensures
        query_text(r.spec_query_fields()) == Some("date_from="@ + r.date_from->Some_0.text()),
{
    reveal_strlit("date_from");
    reveal_strlit("date_from=");
    reveal_strlit("=");
    let key = "date_from"@;
    let d = r.date_from->Some_0;
    lemma_iso_date_plain(d.ymd().0 as nat, d.ymd().1 as nat, d.ymd().2 as nat);
    assert(is_plain_text(key));
    let values = seq![d.text()];
    assert(all_plain(values));
    let fields = r.spec_query_fields();
    assert(fields =~= seq![(key, values)]);
    assert(fields.drop_last().len() == 0);
    assert(key.len() > 0);
    assert(field_text(key, values) == Some(repeated_pairs(key, values)));
    assert(query_text(fields.drop_last()) == Some(Seq::<char>::empty()));
    assert(repeated_pairs(key, values) =~= "date_from="@ + d.text());
}

} // verus!
