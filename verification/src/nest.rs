//! The routes under which a named gRPC service is placed in an HTTP router.
use vstd::prelude::*;

use crate::proto::{method_route, route_of_path, CompanyInfoMethod, SERVICE_NAME};

verus! {

/// The part of every request path of a gRPC service that comes before the
/// method: `/` followed by the service's name and `/`.
pub open spec fn service_prefix(name: Seq<char>) -> Seq<char> {
    "/"@ + name + "/"@
}

/// The route pattern under which a service is registered: its prefix
/// followed by a catch-all segment.
pub open spec fn tonic_route(name: Seq<char>) -> Seq<char> {
    service_prefix(name) + "{*grpc_service}"@
}

/// Whether a request path falls under the route pattern of a service: it
/// starts with the service's prefix, and the catch-all segment gets at least
/// one character. This models the rule that the matchit router behind axum
/// documents for a trailing catch-all segment (it never matches an empty
/// rest); it is not derived from axum's code.
pub open spec fn tonic_route_matches(name: Seq<char>, path: Seq<char>) -> bool {
    &&& path.len() > service_prefix(name).len()
    &&& path.subrange(0, service_prefix(name).len() as int) == service_prefix(name)
}

/// The route pattern under which a service with the given name is nested:
/// `/{name}/{*grpc_service}`.
pub fn tonic_route_path(name: &str) -> (route: String)
    ensures
        route@ == tonic_route(name@),
        route@ == "/"@ + name@ + "/{*grpc_service}"@,
{
    let mut route = String::from_str("/");
    route.append(name);
    route.append("/{*grpc_service}");
    proof {
        reveal_strlit("/");
        reveal_strlit("/{*grpc_service}");
        reveal_strlit("{*grpc_service}");
        assert(route@ =~= tonic_route(name@));
    }
    route
}

/// The route pattern of a service is `/`, then the service's whole name,
/// then `/` and the catch-all segment: its first `name.len() + 2` characters
/// are exactly the prefix of the service's request paths, and nothing of the
/// name is cut or changed.
pub proof fn tonic_route_holds_whole_name(name: Seq<char>)
    ensures
        tonic_route(name) == "/"@ + name + "/"@ + "{*grpc_service}"@,
        tonic_route(name).len() == name.len() + 17,
        tonic_route(name)[0] == '/',
        tonic_route(name).subrange(1, name.len() as int + 1) == name,
        tonic_route(name)[name.len() as int + 1] == '/',
        tonic_route(name).subrange(0, name.len() as int + 2) == service_prefix(name),
        tonic_route(name).subrange(name.len() as int + 2, name.len() as int + 17) == "{*grpc_service}"@,
{
    reveal_strlit("/");
    reveal_strlit("{*grpc_service}");
    let r = tonic_route(name);
    assert(r =~= "/"@ + name + "/"@ + "{*grpc_service}"@);
    assert(r.subrange(1, name.len() as int + 1) =~= name);
    assert(r.subrange(0, name.len() as int + 2) =~= service_prefix(name));
    assert(r.subrange(name.len() as int + 2, name.len() as int + 17) =~= "{*grpc_service}"@);
}

/// Routes built for two service names are equal only when the names are:
/// distinct services get distinct routes.
pub proof fn tonic_route_injective(a: Seq<char>, b: Seq<char>)
    ensures
        tonic_route(a) == tonic_route(b) ==> a == b,
{
    tonic_route_holds_whole_name(a);
    tonic_route_holds_whole_name(b);
    if tonic_route(a) == tonic_route(b) {
        assert(a.len() == b.len());
        assert(a =~= tonic_route(a).subrange(1, a.len() as int + 1));
    }
}

/// The request path of each company-info method is the service's prefix
/// followed by the method's name.
pub proof fn method_route_under_service_prefix(m: CompanyInfoMethod)
    ensures
        method_route(m) == service_prefix(SERVICE_NAME@) + match m {
            CompanyInfoMethod::GetContactInfo => "GetContactInfo"@,
            CompanyInfoMethod::GetToS => "GetToS"@,
            CompanyInfoMethod::GetAboutInfo => "GetAboutInfo"@,
        },
{
    reveal_strlit("company_info.CompanyInfo");
    reveal_strlit("/");
    reveal_strlit("GetContactInfo");
    reveal_strlit("GetToS");
    reveal_strlit("GetAboutInfo");
    reveal_strlit("/company_info.CompanyInfo/GetContactInfo");
    reveal_strlit("/company_info.CompanyInfo/GetToS");
    reveal_strlit("/company_info.CompanyInfo/GetAboutInfo");
    match m {
        CompanyInfoMethod::GetContactInfo => {
            assert(method_route(m) =~= service_prefix(SERVICE_NAME@) + "GetContactInfo"@);
        },
        CompanyInfoMethod::GetToS => {
            assert(method_route(m) =~= service_prefix(SERVICE_NAME@) + "GetToS"@);
        },
        CompanyInfoMethod::GetAboutInfo => {
            assert(method_route(m) =~= service_prefix(SERVICE_NAME@) + "GetAboutInfo"@);
        },
    }
}

/// Every request path that the company-info service answers falls under the
/// route pattern built from the service's name, as `tonic_route_matches`
/// models matchit's documented catch-all rule; on that rule, nesting the
/// service by its name delivers all of its methods to it.
pub proof fn nested_route_covers_service(path: Seq<char>)
    requires
        route_of_path(path) is Some,
    ensures
        tonic_route_matches(SERVICE_NAME@, path),
{
    let m = route_of_path(path).unwrap();
    method_route_under_service_prefix(m);
    assert(path == method_route(m));
    reveal_strlit("GetContactInfo");
    reveal_strlit("GetToS");
    reveal_strlit("GetAboutInfo");
    let p = service_prefix(SERVICE_NAME@);
    assert(path.subrange(0, p.len() as int) =~= p);
}

} // verus!
