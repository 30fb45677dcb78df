//! Client library for a product-data REST API: credential checks, request
//! assembly for each endpoint, and classification of HTTP responses into a
//! typed error taxonomy. Transport is left to the caller.

pub mod outside;
pub mod error;
pub mod types;
pub mod client;
pub mod request;
pub mod response;

pub use client::Client;
pub use error::{ClientError, Result};
pub use types::{
    ApiMeta, ApiResponse, Config, MonitoringFrequency, OutputFormat, PaginationInfo,
    ProductDetails, ProductSearchResult, RemoveBatchResponse, RemoveResponse,
    ScheduleBatchResponse, ScheduleResponse, ScheduledProduct, UsagePeriod,
};
