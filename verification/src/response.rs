//! Classification of token-endpoint response bodies.
//!
//! Every poll of the token endpoint yields a body that falls into exactly
//! one class: a success shape (a non-empty `access_token`), one of the
//! four protocol error codes, an unrecognized error code, or neither
//! shape at all.  Success-shape parsing is attempted strictly before
//! error-shape parsing.

use vstd::prelude::*;

use crate::json::{get_string_field, json_string_field};

verus! {

/// The class of one token-endpoint response body.
#[derive(Debug, Clone, PartialEq, Eq)]
pub enum ResponseClass {
    /// The body carries a non-empty `access_token`; the payload is that
    /// token, verbatim.
    Success(String),
    /// `error` is `authorization_pending`: the user has not finished the
    /// browser step yet.
    Pending,
    /// `error` is `slow_down`: the server asks for a longer interval.
    SlowDown,
    /// `error` is `expired_token`: the device code is no longer valid.
    ExpiredCode,
    /// `error` is `access_denied`: the user refused access.
    Denied,
    /// `error` is some other code; the description is carried along when
    /// the body has one.
    OtherError { code: String, description: Option<String> },
    /// The body matches neither the success shape nor the error shape.
    Malformed,
}

/// Mathematical model of a [`ResponseClass`]: string payloads as
/// character sequences.
pub enum ReplyModel {
    Success(Seq<char>),
    Pending,
    SlowDown,
    ExpiredCode,
    Denied,
    OtherError { code: Seq<char>, description: Option<Seq<char>> },
    Malformed,
}

impl View for ResponseClass {
    type V = ReplyModel;

    open spec fn view(&self) -> ReplyModel {
        match self {
            ResponseClass::Success(t) => ReplyModel::Success(t@),
            ResponseClass::Pending => ReplyModel::Pending,
            ResponseClass::SlowDown => ReplyModel::SlowDown,
            ResponseClass::ExpiredCode => ReplyModel::ExpiredCode,
            ResponseClass::Denied => ReplyModel::Denied,
            ResponseClass::OtherError { code, description } => ReplyModel::OtherError {
                code: code@,
                description: description.deep_view(),
            },
            ResponseClass::Malformed => ReplyModel::Malformed,
        }
    }
}

/// The class of an error-shaped body whose `error` member is `code`.
pub open spec fn spec_classify_error(body: Seq<char>, code: Seq<char>) -> ReplyModel {
    if code == "authorization_pending"@ {
        ReplyModel::Pending
    } else if code == "slow_down"@ {
        ReplyModel::SlowDown
    } else if code == "expired_token"@ {
        ReplyModel::ExpiredCode
    } else if code == "access_denied"@ {
        ReplyModel::Denied
    } else {
        ReplyModel::OtherError {
            code,
            description: json_string_field(body, "error_description"@),
        }
    }
}

/// The class of a token-endpoint body: the success shape (a non-empty
/// `access_token`) wins over the error shape, and a body with neither
/// is malformed.
pub open spec fn spec_classify(body: Seq<char>) -> ReplyModel {
    match json_string_field(body, "access_token"@) {
        Some(t) => if t.len() > 0 {
            ReplyModel::Success(t)
        } else {
            spec_classify_no_token(body)
        },
        None => spec_classify_no_token(body),
    }
}

/// The class of a body that did not match the success shape.
pub open spec fn spec_classify_no_token(body: Seq<char>) -> ReplyModel {
    match json_string_field(body, "error"@) {
        Some(code) => spec_classify_error(body, code),
        None => ReplyModel::Malformed,
    }
}

/// Classify one token-endpoint response body.
pub fn classify_token_response(body: &str) -> (r: ResponseClass)
    ensures
        r@ == spec_classify(body@),
{
    if let Some(token) = get_string_field(body, "access_token") {
        if !token.as_str().is_empty() {
            return ResponseClass::Success(token);
        }
    }
    match get_string_field(body, "error") {
        None => ResponseClass::Malformed,
        Some(code) => {
            let pending: String = "authorization_pending".to_owned();
            let slow_down: String = "slow_down".to_owned();
            let expired: String = "expired_token".to_owned();
            let denied: String = "access_denied".to_owned();
            if code == pending {
                ResponseClass::Pending
            } else if code == slow_down {
                ResponseClass::SlowDown
            } else if code == expired {
                ResponseClass::ExpiredCode
            } else if code == denied {
                ResponseClass::Denied
            } else {
                let description = get_string_field(body, "error_description");
                ResponseClass::OtherError { code, description }
            }
        },
    }
}

} // verus!
