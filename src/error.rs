use crate::json::{i64_at, lookup_i64, lookup_str, str_at};
use crate::keyboard::Shape;
use vstd::prelude::*;

verus! {

/// An error reported by the remote API, keyed by its numeric code and carrying
/// the message that came with it.
#[derive(Debug)]
pub enum VkError {
    UnknownError(String),
    ApplicationDisabled(String),
    UnknownMethod(String),
    InvalidSignature(String),
    UserAuthorizationFailed(String),
    TooManyRequests(String),
    NoPermissionForAction(String),
    InvalidRequest(String),
    TooManySimilarActions(String),
    InternalServerError(String),
    TestModeRestrictions(String),
    CaptchaRequired(String),
    AccessDenied(String),
    HttpsRequired(String),
    ValidationRequired(String),
    PageBlockedOrDeleted(String),
    ActionForbiddenForNonStandaloneApps(String),
    ActionAllowedOnlyForStandaloneAndOpenAPI(String),
    MethodDisabled(String),
    UserConfirmationRequired(String),
    InvalidCommunityAccessToken(String),
    InvalidApplicationAccessToken(String),
    MethodCallLimitReached(String),
    ProfileIsPrivate(String),
    MissingOrInvalidParameter(String),
    InvalidApiId(String),
    InvalidUserId(String),
    InvalidTimestamp(String),
    AlbumAccessDenied(String),
    AudioAccessDenied(String),
    GroupAccessDenied(String),
    AlbumFull(String),
    ActionForbidden(String),
    NoRightsForAdOperations(String),
    AdCabinetError(String),
}

/// The variant that an error code selects, and the message it carries.
pub open spec fn vk_error_of(code: Option<i64>, m: String) -> VkError {
    match code {
        Some(c) => if c == 1 {
            VkError::UnknownError(m)
        } else if c == 2 {
            VkError::ApplicationDisabled(m)
        } else if c == 3 {
            VkError::UnknownMethod(m)
        } else if c == 4 {
            VkError::InvalidSignature(m)
        } else if c == 5 {
            VkError::UserAuthorizationFailed(m)
        } else if c == 6 {
            VkError::TooManyRequests(m)
        } else if c == 7 {
            VkError::NoPermissionForAction(m)
        } else if c == 8 {
            VkError::InvalidRequest(m)
        } else if c == 9 {
            VkError::TooManySimilarActions(m)
        } else if c == 10 {
            VkError::InternalServerError(m)
        } else if c == 11 {
            VkError::TestModeRestrictions(m)
        } else if c == 14 {
            VkError::CaptchaRequired(m)
        } else if c == 15 {
            VkError::AccessDenied(m)
        } else if c == 16 {
            VkError::HttpsRequired(m)
        } else if c == 17 {
            VkError::ValidationRequired(m)
        } else if c == 18 {
            VkError::PageBlockedOrDeleted(m)
        } else if c == 20 {
            VkError::ActionForbiddenForNonStandaloneApps(m)
        } else if c == 21 {
            VkError::ActionAllowedOnlyForStandaloneAndOpenAPI(m)
        } else if c == 23 {
            VkError::MethodDisabled(m)
        } else if c == 24 {
            VkError::UserConfirmationRequired(m)
        } else if c == 27 {
            VkError::InvalidCommunityAccessToken(m)
        } else if c == 28 {
            VkError::InvalidApplicationAccessToken(m)
        } else if c == 29 {
            VkError::MethodCallLimitReached(m)
        } else if c == 30 {
            VkError::ProfileIsPrivate(m)
        } else if c == 100 {
            VkError::MissingOrInvalidParameter(m)
        } else if c == 101 {
            VkError::InvalidApiId(m)
        } else if c == 113 {
            VkError::InvalidUserId(m)
        } else if c == 150 {
            VkError::InvalidTimestamp(m)
        } else if c == 200 {
            VkError::AlbumAccessDenied(m)
        } else if c == 201 {
            VkError::AudioAccessDenied(m)
        } else if c == 203 {
            VkError::GroupAccessDenied(m)
        } else if c == 300 {
            VkError::AlbumFull(m)
        } else if c == 500 {
            VkError::ActionForbidden(m)
        } else if c == 600 {
            VkError::NoRightsForAdOperations(m)
        } else if c == 603 {
            VkError::AdCabinetError(m)
        } else {
            VkError::UnknownError(m)
        },
        None => VkError::UnknownError(m),
    }
}

impl VkError {
    /// Builds the error that an API error object describes: `code` is its
    /// `error_code` (absent when missing or not an integer) and `message` its
    /// `error_msg`. Unknown or missing codes give `UnknownError`.
    pub fn from_code(code: Option<i64>, message: String) -> (r: VkError)
        ensures
            r == vk_error_of(code, message),
    {
        match code {
            Some(1) => VkError::UnknownError(message),
            Some(2) => VkError::ApplicationDisabled(message),
            Some(3) => VkError::UnknownMethod(message),
            Some(4) => VkError::InvalidSignature(message),
            Some(5) => VkError::UserAuthorizationFailed(message),
            Some(6) => VkError::TooManyRequests(message),
            Some(7) => VkError::NoPermissionForAction(message),
            Some(8) => VkError::InvalidRequest(message),
            Some(9) => VkError::TooManySimilarActions(message),
            Some(10) => VkError::InternalServerError(message),
            Some(11) => VkError::TestModeRestrictions(message),
            Some(14) => VkError::CaptchaRequired(message),
            Some(15) => VkError::AccessDenied(message),
            Some(16) => VkError::HttpsRequired(message),
            Some(17) => VkError::ValidationRequired(message),
            Some(18) => VkError::PageBlockedOrDeleted(message),
            Some(20) => VkError::ActionForbiddenForNonStandaloneApps(message),
            Some(21) => VkError::ActionAllowedOnlyForStandaloneAndOpenAPI(message),
            Some(23) => VkError::MethodDisabled(message),
            Some(24) => VkError::UserConfirmationRequired(message),
            Some(27) => VkError::InvalidCommunityAccessToken(message),
            Some(28) => VkError::InvalidApplicationAccessToken(message),
            Some(29) => VkError::MethodCallLimitReached(message),
            Some(30) => VkError::ProfileIsPrivate(message),
            Some(100) => VkError::MissingOrInvalidParameter(message),
            Some(101) => VkError::InvalidApiId(message),
            Some(113) => VkError::InvalidUserId(message),
            Some(150) => VkError::InvalidTimestamp(message),
            Some(200) => VkError::AlbumAccessDenied(message),
            Some(201) => VkError::AudioAccessDenied(message),
            Some(203) => VkError::GroupAccessDenied(message),
            Some(300) => VkError::AlbumFull(message),
            Some(500) => VkError::ActionForbidden(message),
            Some(600) => VkError::NoRightsForAdOperations(message),
            Some(603) => VkError::AdCabinetError(message),
            _ => VkError::UnknownError(message),
        }
    }
}

/// The message an error object carries when it has none of its own.
pub const NO_MESSAGE: &'static str = "No additional error message provided.";

impl VkError {
    /// Builds the error from the fields of an API error object: its code, if it
    /// has an integer one, and its message, if it has one. Without a message the
    /// error carries `NO_MESSAGE`.
    pub fn from_fields(code: Option<i64>, message: Option<&str>) -> (r: VkError)
        ensures
            exists|m: String|
                m@ == (match message {
                    Some(t) => t@,
                    None => NO_MESSAGE@,
                }) && r == vk_error_of(code, m),
    {
        let text = match message {
            Some(t) => String::from_str(t),
            None => String::from_str(NO_MESSAGE),
        };
        VkError::from_code(code, text)
    }

    /// Builds the error that an API error object describes, from its
    /// `error_code` and `error_msg` fields.
    pub fn from_vk_error_json(json: &serde_json::Value) -> (r: VkError)
        ensures
            exists|m: String|
                m@ == (match str_at(*json, "/error_msg"@) {
                    Some(t) => t,
                    None => NO_MESSAGE@,
                }) && r == vk_error_of(i64_at(*json, "/error_code"@), m),
    {
        let message = lookup_str(json, "/error_msg");
        let code = lookup_i64(json, "/error_code");
        VkError::from_fields(code, message)
    }
}

/// The errors of this library.
#[derive(Debug)]
pub enum Error {
    /// The remote API answered with an error object.
    VkApi(VkError),
    /// No `peer_id` could be found in an event.
    PeerIdNotFound,
    /// A response did not have the expected shape.
    UnexpectedResponse(String),
    /// An event answer reported a status other than success (`1`).
    EventAnswerUnkownStatus { status: i8 },
    /// A keyboard layout is larger than the platform accepts.
    DimOutOfRange { shape: Shape, dim: usize },
    /// A route with the same kind, trigger and filter is already registered.
    ListenerExists { trigger: String },
    /// A fallback route is already registered.
    FallbackExists,
}

} // verus!
