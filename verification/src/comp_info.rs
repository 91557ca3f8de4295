//! The company-info service: the answers it gives to each of its methods.
use vstd::prelude::*;

use crate::proto::{
    GetAboutInfoReply, GetAboutInfoRequest, GetContactInfoReply, GetContactInfoRequest,
    GetToSRequest, GetTosReply,
};

verus! {

/// `String::from` on a string slice: the new string holds the same characters.
pub assume_specification<'a>[ <String as core::convert::From<&'a str>>::from ](s: &str) -> (r: String)
    ensures
        r@ == s@,
;

/// Wraps a value converted into `T` in `Some`.
pub fn some<T, S: Into<T>>(s: S) -> (r: Option<T>)
    ensures
        r matches Some(v) && call_ensures(<S as Into<T>>::into, (s,), v),
{
    Some(s.into())
}

/// The e-mail address that the service gives as its contact.
pub open spec fn contact_email() -> Seq<char> {
    "contact@wilt.com"@
}

/// The text that the service gives for the terms of service and the about
/// information, which are not written yet.
pub open spec fn placeholder_text() -> Seq<char> {
    "todo"@
}

/// The company-info service. It holds no state.
pub struct CompanyInfoService {}

impl CompanyInfoService {
    /// Answers `GetContactInfo` with the contact e-mail address.
    pub fn get_contact_info(&self, request: GetContactInfoRequest) -> (r: Result<GetContactInfoReply, tonic::Status>)
        ensures
            r matches Ok(reply) && reply.email matches Some(email) && email@ == contact_email(),
    {
        Ok(GetContactInfoReply { email: some("contact@wilt.com") })
    }

    /// Answers `GetToS` with the placeholder text.
    pub fn get_to_s(&self, request: GetToSRequest) -> (r: Result<GetTosReply, tonic::Status>)
        ensures
            r matches Ok(reply) && reply.terms_of_service matches Some(text) && text@ == placeholder_text(),
    {
        Ok(GetTosReply { terms_of_service: some("todo") })
    }

    /// Answers `GetAboutInfo` with the placeholder text.
    pub fn get_about_info(&self, request: GetAboutInfoRequest) -> (r: Result<GetAboutInfoReply, tonic::Status>)
        ensures
            r matches Ok(reply) && reply.about_info matches Some(text) && text@ == placeholder_text(),
    {
        Ok(GetAboutInfoReply { about_info: some("todo") })
    }
}

} // verus!
