//! Messages and request routing of the `company_info.CompanyInfo` gRPC service.
use vstd::prelude::*;

use crate::headers::{ascii_bytes, header_entries, header_map_append, header_map_new};

verus! {

/// Request of `GetContactInfo`: it carries no fields.
#[derive(Clone, Debug, PartialEq, Eq, Default)]
pub struct GetContactInfoRequest {}

/// Reply of `GetContactInfo`.
#[derive(Clone, Debug, PartialEq, Eq, Default)]
pub struct GetContactInfoReply {
    pub email: Option<String>,
}

/// Request of `GetToS`: it carries no fields.
#[derive(Clone, Debug, PartialEq, Eq, Default)]
pub struct GetToSRequest {}

/// Reply of `GetToS`.
#[derive(Clone, Debug, PartialEq, Eq, Default)]
pub struct GetTosReply {
    pub terms_of_service: Option<String>,
}

/// Request of `GetAboutInfo`: it carries no fields.
#[derive(Clone, Debug, PartialEq, Eq, Default)]
pub struct GetAboutInfoRequest {}

/// Reply of `GetAboutInfo`.
#[derive(Clone, Debug, PartialEq, Eq, Default)]
pub struct GetAboutInfoReply {
    pub about_info: Option<String>,
}

/// The fully qualified gRPC name of the company-info service.
pub const SERVICE_NAME: &'static str = "company_info.CompanyInfo";

/// The methods that the company-info service answers.
#[derive(Clone, Copy, Debug, PartialEq, Eq, Structural)]
pub enum CompanyInfoMethod {
    GetContactInfo,
    GetToS,
    GetAboutInfo,
}

/// The request path under which a method is served.
pub open spec fn method_route(m: CompanyInfoMethod) -> Seq<char> {
    match m {
        CompanyInfoMethod::GetContactInfo => "/company_info.CompanyInfo/GetContactInfo"@,
        CompanyInfoMethod::GetToS => "/company_info.CompanyInfo/GetToS"@,
        CompanyInfoMethod::GetAboutInfo => "/company_info.CompanyInfo/GetAboutInfo"@,
    }
}

/// The method that a request path is routed to, if any.
pub open spec fn route_of_path(path: Seq<char>) -> Option<CompanyInfoMethod> {
    if path == method_route(CompanyInfoMethod::GetContactInfo) {
        Some(CompanyInfoMethod::GetContactInfo)
    } else if path == method_route(CompanyInfoMethod::GetToS) {
        Some(CompanyInfoMethod::GetToS)
    } else if path == method_route(CompanyInfoMethod::GetAboutInfo) {
        Some(CompanyInfoMethod::GetAboutInfo)
    } else {
        None
    }
}

/// Whether two strings hold the same characters.
fn same_text(a: &str, b: &str) -> (r: bool)
    ensures
        r == (a@ == b@),
{
    let x: String = a.to_owned();
    let y: String = b.to_owned();
    x == y
}

impl CompanyInfoMethod {
    /// The request path of this method.
    pub fn path(&self) -> (r: &'static str)
        ensures
            r@ == method_route(*self),
    {
        match self {
            CompanyInfoMethod::GetContactInfo => "/company_info.CompanyInfo/GetContactInfo",
            CompanyInfoMethod::GetToS => "/company_info.CompanyInfo/GetToS",
            CompanyInfoMethod::GetAboutInfo => "/company_info.CompanyInfo/GetAboutInfo",
        }
    }

    /// Routes a request path to the method it names; `None` for every other path.
    pub fn from_path(path: &str) -> (r: Option<CompanyInfoMethod>)
        ensures
            r == route_of_path(path@),
    {
        if same_text(path, "/company_info.CompanyInfo/GetContactInfo") {
            Some(CompanyInfoMethod::GetContactInfo)
        } else if same_text(path, "/company_info.CompanyInfo/GetToS") {
            Some(CompanyInfoMethod::GetToS)
        } else if same_text(path, "/company_info.CompanyInfo/GetAboutInfo") {
            Some(CompanyInfoMethod::GetAboutInfo)
        } else {
            None
        }
    }
}

/// Each method's request path is routed back to that method, so distinct
/// methods have distinct paths.
pub proof fn route_of_method_route(m: CompanyInfoMethod)
    ensures
        route_of_path(method_route(m)) == Some(m),
{
    reveal_strlit("/company_info.CompanyInfo/GetContactInfo");
    reveal_strlit("/company_info.CompanyInfo/GetToS");
    reveal_strlit("/company_info.CompanyInfo/GetAboutInfo");
    // The three paths have three different lengths.
    assert(method_route(CompanyInfoMethod::GetContactInfo).len() == 40);
    assert(method_route(CompanyInfoMethod::GetToS).len() == 32);
    assert(method_route(CompanyInfoMethod::GetAboutInfo).len() == 38);
}

/// The HTTP status of the answer to a path that names no method: gRPC
/// carries its own status in a header, so the HTTP status is 200.
pub const UNIMPLEMENTED_HTTP_STATUS: u16 = 200;

/// The headers of the answer to a path that names no method.
pub open spec fn unimplemented_header_entries() -> Map<Seq<char>, Seq<Seq<u8>>> {
    map![
        "grpc-status"@ => seq![ascii_bytes("12"@)],
        "content-type"@ => seq![ascii_bytes("application/grpc"@)],
    ]
}

/// The headers of the answer to a path that names no method: gRPC status
/// 12 (`UNIMPLEMENTED`) and the gRPC content type.
pub fn unimplemented_headers() -> (headers: http::HeaderMap<http::HeaderValue>)
    ensures
        header_entries(headers) == unimplemented_header_entries(),
{
    proof {
        reveal_strlit("grpc-status");
        reveal_strlit("12");
        reveal_strlit("content-type");
        reveal_strlit("application/grpc");
    }
    let mut headers = header_map_new();
    header_map_append(&mut headers, "grpc-status", "12");
    header_map_append(&mut headers, "content-type", "application/grpc");
    headers
}

} // verus!
