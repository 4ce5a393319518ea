pub mod client;
pub mod errors;
pub mod headers;
pub mod models;
pub mod response;
pub mod trusted;

pub use client::FunctionsClient;

pub use errors::{FunctionsError, FunctionsFetchError, FunctionsHttpError, FunctionsRelayError};
pub use models::{
    FunctionInvokeOptions, FunctionRegion, FunctionsResponse, HttpMethod, InvokeBody, ResponseData,
    WireBody, WireRequest,
};
