use axum_tonic::comp_info::{some, CompanyInfoService};
use axum_tonic::proto::{GetAboutInfoRequest, GetContactInfoRequest, GetToSRequest};
use axum_tonic::status::GrpcStatus;

#[test]
fn contact_info_is_the_contact_address() {
    let service = CompanyInfoService {};
    let reply = service.get_contact_info(GetContactInfoRequest {}).unwrap();
    assert_eq!(reply.email.as_deref(), Some("contact@wilt.com"));
}

#[test]
fn terms_of_service_are_a_placeholder() {
    let service = CompanyInfoService {};
    let reply = service.get_to_s(GetToSRequest {}).unwrap();
    assert_eq!(reply.terms_of_service.as_deref(), Some("todo"));
}

#[test]
fn about_info_is_a_placeholder() {
    let service = CompanyInfoService {};
    let reply = service.get_about_info(GetAboutInfoRequest {}).unwrap();
    assert_eq!(reply.about_info.as_deref(), Some("todo"));
}

#[test]
fn answers_do_not_change_between_calls() {
    let service = CompanyInfoService {};
    let first = service.get_about_info(GetAboutInfoRequest {}).unwrap();
    let second = service.get_about_info(GetAboutInfoRequest {}).unwrap();
    assert_eq!(first, second);
}

#[test]
fn some_converts_and_wraps() {
    assert_eq!(some::<String, &str>("abc"), Some(String::from("abc")));
    assert_eq!(some::<u64, u32>(7), Some(7u64));
    assert_eq!(some::<String, &str>(""), Some(String::new()));
}

#[test]
fn grpc_status_keeps_the_wrapped_status() {
    let wrapped = GrpcStatus::from(tonic::Status::cancelled("Canceled"));
    assert_eq!(wrapped.code(), tonic::Code::Cancelled);
    assert_eq!(wrapped.message(), "Canceled");
    assert_eq!(wrapped.0.code(), tonic::Code::Cancelled);
}

#[test]
fn grpc_status_converts_with_into() {
    let wrapped: GrpcStatus = tonic::Status::permission_denied("Not authenticated").into();
    assert_eq!(wrapped.code(), tonic::Code::PermissionDenied);
    assert_eq!(wrapped.message(), "Not authenticated");
}

#[test]
fn grpc_status_can_be_changed_through_the_wrapper() {
    let mut wrapped = GrpcStatus::from(tonic::Status::unavailable("down"));
    wrapped.metadata_mut().insert("retry-after", "5".parse().unwrap());
    assert_eq!(wrapped.0.metadata().get("retry-after").unwrap(), "5");
}
