use vstd::prelude::*;
use std::time::Duration;
#[allow(unused_imports)]
use crate::outside::duration_from_secs;

verus! {

/// Where requests go unless a configuration says otherwise.
pub const DEFAULT_BASE_URL: &'static str = "https://api.shopsavvy.com/v1";

/// Seconds that a request may take unless a configuration says otherwise.
pub const DEFAULT_TIMEOUT_SECS: u64 = 30;

/// Client configuration: credential, base URL and per-request timeout.
/// Building one never fails; the key is checked when a client is made.
#[derive(Debug, Clone)]
pub struct Config {
    pub api_key: String,
    pub base_url: String,
    pub timeout: Duration,
}

impl Config {
    pub fn new(api_key: &str) -> (r: Config)
        ensures
            r.api_key@ == api_key@,
            r.base_url@ == DEFAULT_BASE_URL@,
            r.timeout == duration_from_secs(DEFAULT_TIMEOUT_SECS),
    {
        Config {
            api_key: api_key.to_string(),
            base_url: DEFAULT_BASE_URL.to_string(),
            timeout: Duration::from_secs(DEFAULT_TIMEOUT_SECS),
        }
    }

    pub fn with_base_url(self, base_url: &str) -> (r: Config)
        ensures
            r.api_key == self.api_key,
            r.base_url@ == base_url@,
            r.timeout == self.timeout,
    {
        Config { base_url: base_url.to_string(), ..self }
    }

    pub fn with_timeout(self, timeout: Duration) -> (r: Config)
        ensures
            r.api_key == self.api_key,
            r.base_url == self.base_url,
            r.timeout == timeout,
    {
        Config { timeout, ..self }
    }
}

/// Credit accounting that comes back with a response.
#[derive(Debug, Clone)]
pub struct ApiMeta {
    pub credits_used: i32,
    pub credits_remaining: i32,
    pub rate_limit_remaining: Option<i32>,
}

/// The envelope around every payload but that of a search.
#[derive(Debug)]
pub struct ApiResponse<T> {
    pub success: bool,
    pub data: T,
    pub message: Option<String>,
    pub meta: Option<ApiMeta>,
}

/// Credits used as the metadata reports them, 0 without metadata.
pub open spec fn meta_credits_used(meta: Option<ApiMeta>) -> i32 {
    match meta {
        Some(m) => m.credits_used,
        None => 0,
    }
}

/// Credits remaining as the metadata reports them, 0 without metadata.
pub open spec fn meta_credits_remaining(meta: Option<ApiMeta>) -> i32 {
    match meta {
        Some(m) => m.credits_remaining,
        None => 0,
    }
}

impl<T> ApiResponse<T> {
    pub fn credits_used(&self) -> (r: i32)
        ensures
            r == meta_credits_used(self.meta),
    {
        match &self.meta {
            Some(m) => m.credits_used,
            None => 0,
        }
    }

    pub fn credits_remaining(&self) -> (r: i32)
        ensures
            r == meta_credits_remaining(self.meta),
    {
        match &self.meta {
            Some(m) => m.credits_remaining,
            None => 0,
        }
    }
}

/// A product as the API describes it.
#[derive(Debug, Clone)]
pub struct ProductDetails {
    pub title: String,
    pub shopsavvy: String,
    pub brand: Option<String>,
    pub category: Option<String>,
    pub images: Option<Vec<String>>,
    pub barcode: Option<String>,
    pub amazon: Option<String>,
    pub model: Option<String>,
    pub mpn: Option<String>,
    pub color: Option<String>,
}

/// The view of an optional string.
pub open spec fn opt_view(s: Option<String>) -> Option<Seq<char>> {
    match s {
        Some(t) => Some(t@),
        None => None,
    }
}

/// The view of an optional string slice.
pub open spec fn opt_str_view(s: Option<&str>) -> Option<Seq<char>> {
    match s {
        Some(t) => Some(t@),
        None => None,
    }
}

/// The first image of a product, where it has one.
pub open spec fn first_image(images: Option<Vec<String>>) -> Option<Seq<char>> {
    match images {
        Some(v) => if v@.len() > 0 {
            Some(v@[0]@)
        } else {
            None
        },
        None => None,
    }
}

impl ProductDetails {
    /// The product's title.
    pub fn name(&self) -> (r: &str)
        ensures
            r@ == self.title@,
    {
        self.title.as_str()
    }

    /// The product's own identifier at the API.
    pub fn product_id(&self) -> (r: &str)
        ensures
            r@ == self.shopsavvy@,
    {
        self.shopsavvy.as_str()
    }

    /// The marketplace identifier, where there is one.
    pub fn asin(&self) -> (r: Option<&str>)
        ensures
            opt_str_view(r) == opt_view(self.amazon),
    {
        match &self.amazon {
            Some(a) => Some(a.as_str()),
            None => None,
        }
    }

    /// The first image, where there is one.
    pub fn image_url(&self) -> (r: Option<&str>)
        ensures
            opt_str_view(r) == first_image(self.images),
    {
        match &self.images {
            Some(imgs) => if imgs.len() > 0 {
                Some(imgs[0].as_str())
            } else {
                None
            },
            None => None,
        }
    }
}

/// A product under scheduled monitoring.
#[derive(Debug, Clone)]
pub struct ScheduledProduct {
    pub product_id: String,
    pub identifier: String,
    pub frequency: String,
    pub retailer: Option<String>,
    pub created_at: String,
    pub last_refreshed: Option<String>,
}

/// The current billing period.
#[derive(Debug, Clone)]
pub struct UsagePeriod {
    pub start_date: String,
    pub end_date: String,
    pub credits_used: i32,
    pub credits_limit: i32,
    pub credits_remaining: i32,
    pub requests_made: i32,
}

/// Where a page of search results stands in the whole.
#[derive(Debug, Clone)]
pub struct PaginationInfo {
    pub total: i32,
    pub limit: i32,
    pub offset: i32,
    pub returned: i32,
}

/// The envelope of a search: pagination beside the credit metadata.
#[derive(Debug)]
pub struct ProductSearchResult {
    pub success: bool,
    pub data: Vec<ProductDetails>,
    pub pagination: Option<PaginationInfo>,
    pub meta: Option<ApiMeta>,
}

impl ProductSearchResult {
    pub fn credits_used(&self) -> (r: i32)
        ensures
            r == meta_credits_used(self.meta),
    {
        match &self.meta {
            Some(m) => m.credits_used,
            None => 0,
        }
    }

    pub fn credits_remaining(&self) -> (r: i32)
        ensures
            r == meta_credits_remaining(self.meta),
    {
        match &self.meta {
            Some(m) => m.credits_remaining,
            None => 0,
        }
    }
}

/// Outcome of scheduling one product.
#[derive(Debug, Clone)]
pub struct ScheduleResponse {
    pub scheduled: bool,
    pub product_id: String,
}

/// Outcome of scheduling one product of a batch.
#[derive(Debug, Clone)]
pub struct ScheduleBatchResponse {
    pub identifier: String,
    pub scheduled: bool,
    pub product_id: String,
}

/// Outcome of removing one product from the schedule.
#[derive(Debug, Clone)]
pub struct RemoveResponse {
    pub removed: bool,
}

/// Outcome of removing one product of a batch from the schedule.
#[derive(Debug, Clone)]
pub struct RemoveBatchResponse {
    pub identifier: String,
    pub removed: bool,
}

/// The formats a payload can be asked in.
#[derive(Debug, Clone, Copy, PartialEq, Eq, Structural)]
pub enum OutputFormat {
    Json,
    Csv,
}

impl OutputFormat {
    /// The parameter value that asks for this format.
    pub open spec fn text(self) -> Seq<char> {
        match self {
            OutputFormat::Json => "json"@,
            OutputFormat::Csv => "csv"@,
        }
    }

    pub fn to_string(&self) -> (r: String)
        ensures
            r@ == self.text(),
    {
        match self {
            OutputFormat::Json => "json".to_string(),
            OutputFormat::Csv => "csv".to_string(),
        }
    }
}

/// How often a monitored product is refreshed.
#[derive(Debug, Clone, Copy, PartialEq, Eq, Structural)]
pub enum MonitoringFrequency {
    Hourly,
    Daily,
    Weekly,
}

impl MonitoringFrequency {
    /// The value that names this frequency in a request body.
    pub open spec fn text(self) -> Seq<char> {
        match self {
            MonitoringFrequency::Hourly => "hourly"@,
            MonitoringFrequency::Daily => "daily"@,
            MonitoringFrequency::Weekly => "weekly"@,
        }
    }

    pub fn to_string(&self) -> (r: String)
        ensures
            r@ == self.text(),
    {
        match self {
            MonitoringFrequency::Hourly => "hourly".to_string(),
            MonitoringFrequency::Daily => "daily".to_string(),
            MonitoringFrequency::Weekly => "weekly".to_string(),
        }
    }
}

} // verus!
