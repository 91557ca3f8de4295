use axum_tonic::nest::tonic_route_path;
use axum_tonic::proto::{
    unimplemented_headers, CompanyInfoMethod, SERVICE_NAME, UNIMPLEMENTED_HTTP_STATUS,
};

const METHODS: [CompanyInfoMethod; 3] = [
    CompanyInfoMethod::GetContactInfo,
    CompanyInfoMethod::GetToS,
    CompanyInfoMethod::GetAboutInfo,
];

#[test]
fn service_name_is_the_proto_name() {
    assert_eq!(SERVICE_NAME, "company_info.CompanyInfo");
}

#[test]
fn method_paths_are_exact() {
    assert_eq!(
        CompanyInfoMethod::GetContactInfo.path(),
        "/company_info.CompanyInfo/GetContactInfo"
    );
    assert_eq!(CompanyInfoMethod::GetToS.path(), "/company_info.CompanyInfo/GetToS");
    assert_eq!(
        CompanyInfoMethod::GetAboutInfo.path(),
        "/company_info.CompanyInfo/GetAboutInfo"
    );
}

#[test]
fn each_method_path_routes_back_to_its_method() {
    for m in METHODS {
        assert_eq!(CompanyInfoMethod::from_path(m.path()), Some(m));
    }
}

#[test]
fn known_paths_route_to_their_methods() {
    assert_eq!(
        CompanyInfoMethod::from_path("/company_info.CompanyInfo/GetContactInfo"),
        Some(CompanyInfoMethod::GetContactInfo)
    );
    assert_eq!(
        CompanyInfoMethod::from_path("/company_info.CompanyInfo/GetToS"),
        Some(CompanyInfoMethod::GetToS)
    );
    assert_eq!(
        CompanyInfoMethod::from_path("/company_info.CompanyInfo/GetAboutInfo"),
        Some(CompanyInfoMethod::GetAboutInfo)
    );
}

#[test]
fn other_paths_route_nowhere() {
    for path in [
        "",
        "/",
        "/company_info.CompanyInfo/",
        "/company_info.CompanyInfo/Unknown",
        "/company_info.CompanyInfo/GetToS/",
        "/company_info.CompanyInfo/gettos",
        "company_info.CompanyInfo/GetToS",
        "/test.Test/GetToS",
    ] {
        assert_eq!(CompanyInfoMethod::from_path(path), None, "path {:?}", path);
    }
}

#[test]
fn unimplemented_answer_carries_grpc_status_12() {
    assert_eq!(UNIMPLEMENTED_HTTP_STATUS, 200);
    let headers = unimplemented_headers();
    assert_eq!(headers.keys_len(), 2);
    assert_eq!(headers.len(), 2);
    let status: Vec<&[u8]> = headers.get_all("grpc-status").iter().map(|v| v.as_bytes()).collect();
    assert_eq!(status, vec![b"12".as_slice()]);
    let content: Vec<&[u8]> =
        headers.get_all("content-type").iter().map(|v| v.as_bytes()).collect();
    assert_eq!(content, vec![b"application/grpc".as_slice()]);
}

#[test]
fn route_pattern_of_the_service() {
    assert_eq!(
        tonic_route_path(SERVICE_NAME),
        "/company_info.CompanyInfo/{*grpc_service}"
    );
    assert_eq!(tonic_route_path("test.Test"), "/test.Test/{*grpc_service}");
    assert_eq!(tonic_route_path(""), "//{*grpc_service}");
}

#[test]
fn every_method_path_falls_under_the_route_pattern() {
    let route = tonic_route_path(SERVICE_NAME);
    let prefix = route.strip_suffix("{*grpc_service}").unwrap();
    for m in METHODS {
        let path = m.path();
        assert!(path.starts_with(prefix));
        assert!(path.len() > prefix.len());
    }
}
