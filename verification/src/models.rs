use vstd::prelude::*;

verus! {

/// The closed set of deployment regions, plus the wildcard `Any`, which means
/// "do not constrain the region" and is never serialized as a request header.
#[derive(Debug, Clone, Copy, PartialEq, Eq, Structural)]
pub enum FunctionRegion {
    Any,
    ApNortheast1,
    ApNortheast2,
    ApSouth1,
    ApSoutheast1,
    ApSoutheast2,
    CaCentral1,
    EuCentral1,
    EuWest1,
    EuWest2,
    EuWest3,
    SaEast1,
    UsEast1,
    UsWest1,
    UsWest2,
}

impl FunctionRegion {
    /// The canonical lowercase-hyphenated encoding of a region.
    pub open spec fn spec_code(&self) -> Seq<char> {
        match self {
            FunctionRegion::Any => "any"@,
            FunctionRegion::ApNortheast1 => "ap-northeast-1"@,
            FunctionRegion::ApNortheast2 => "ap-northeast-2"@,
            FunctionRegion::ApSouth1 => "ap-south-1"@,
            FunctionRegion::ApSoutheast1 => "ap-southeast-1"@,
            FunctionRegion::ApSoutheast2 => "ap-southeast-2"@,
            FunctionRegion::CaCentral1 => "ca-central-1"@,
            FunctionRegion::EuCentral1 => "eu-central-1"@,
            FunctionRegion::EuWest1 => "eu-west-1"@,
            FunctionRegion::EuWest2 => "eu-west-2"@,
            FunctionRegion::EuWest3 => "eu-west-3"@,
            FunctionRegion::SaEast1 => "sa-east-1"@,
            FunctionRegion::UsEast1 => "us-east-1"@,
            FunctionRegion::UsWest1 => "us-west-1"@,
            FunctionRegion::UsWest2 => "us-west-2"@,
        }
    }

    /// The canonical encoding, e.g. `us-east-1`; the wildcard encodes as `any`.
    pub fn as_str(&self) -> (s: &'static str)
        ensures
            s@ == self.spec_code(),
    {
        match self {
            FunctionRegion::Any => "any",
            FunctionRegion::ApNortheast1 => "ap-northeast-1",
            FunctionRegion::ApNortheast2 => "ap-northeast-2",
            FunctionRegion::ApSouth1 => "ap-south-1",
            FunctionRegion::ApSoutheast1 => "ap-southeast-1",
            FunctionRegion::ApSoutheast2 => "ap-southeast-2",
            FunctionRegion::CaCentral1 => "ca-central-1",
            FunctionRegion::EuCentral1 => "eu-central-1",
            FunctionRegion::EuWest1 => "eu-west-1",
            FunctionRegion::EuWest2 => "eu-west-2",
            FunctionRegion::EuWest3 => "eu-west-3",
            FunctionRegion::SaEast1 => "sa-east-1",
            FunctionRegion::UsEast1 => "us-east-1",
            FunctionRegion::UsWest1 => "us-west-1",
            FunctionRegion::UsWest2 => "us-west-2",
        }
    }
}

/// The HTTP methods an invocation may use; `Post` is the default.
#[derive(Debug, Clone, Copy, PartialEq, Eq, Structural)]
pub enum HttpMethod {
    Post,
    Get,
    Put,
    Patch,
    Delete,
}

impl HttpMethod {
    /// The method's wire name.
    pub open spec fn spec_name(&self) -> Seq<char> {
        match self {
            HttpMethod::Post => "POST"@,
            HttpMethod::Get => "GET"@,
            HttpMethod::Put => "PUT"@,
            HttpMethod::Patch => "PATCH"@,
            HttpMethod::Delete => "DELETE"@,
        }
    }

    pub fn as_str(&self) -> (s: &'static str)
        ensures
            s@ == self.spec_name(),
    {
        match self {
            HttpMethod::Post => "POST",
            HttpMethod::Get => "GET",
            HttpMethod::Put => "PUT",
            HttpMethod::Patch => "PATCH",
            HttpMethod::Delete => "DELETE",
        }
    }
}

/// The request body, exactly one variant active at a time. Each variant
/// dictates both the outgoing `Content-Type` and the wire encoding: the three
/// binary variants differ in semantic origin but share one wire encoding.
#[derive(Debug)]
pub enum InvokeBody {
    File(Vec<u8>),
    Blob(Vec<u8>),
    ArrayBuffer(Vec<u8>),
    FormData(Vec<(String, String)>),
    Json(Vec<(String, serde_json::Value)>),
    String(String),
}

/// Per-call options: header overrides, method, region override and body.
/// Absent fields fall back to the client's defaults at build time.
#[derive(Debug)]
pub struct FunctionInvokeOptions {
    pub headers: Option<Vec<(String, String)>>,
    pub method: Option<HttpMethod>,
    pub region: Option<FunctionRegion>,
    pub body: Option<InvokeBody>,
}

impl Default for FunctionInvokeOptions {
    /// Options with every field absent.
    fn default() -> (r: Self)
        ensures
            r.headers is None,
            r.method is None,
            r.region is None,
            r.body is None,
    {
        FunctionInvokeOptions { headers: None, method: None, region: None, body: None }
    }
}

/// A decoded response payload; exactly one variant is populated, selected by
/// the response's content type at decode time.
#[derive(Debug)]
pub enum ResponseData {
    Json(serde_json::Value),
    Text(String),
    Bytes(Vec<u8>),
    FormData(Vec<(String, String)>),
}

/// The outcome of an invocation: a decoded payload or a classified error,
/// never both.
#[derive(Debug)]
pub enum FunctionsResponse {
    Success { data: ResponseData },
    Failure { error: crate::errors::FunctionsError },
}

/// The transport-layer request that the builder produces: everything the HTTP
/// collaborator needs to put the invocation on the wire.
#[derive(Debug)]
pub struct WireRequest {
    pub method: HttpMethod,
    pub url: String,
    pub headers: Vec<(String, String)>,
    pub body: WireBody,
}

/// The encoded request body handed to the transport. `Form` carries the
/// fields of a multipart form whose boundary header the transport sets.
#[derive(Debug)]
pub enum WireBody {
    Bytes(Vec<u8>),
    Text(String),
    Form(Vec<(String, String)>),
    Json(Vec<(String, serde_json::Value)>),
    Empty,
}

} // verus!
