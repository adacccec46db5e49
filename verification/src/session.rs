//! The device session: what one device-authorization exchange yields.

use vstd::prelude::*;

use crate::json::{get_string_field, get_uint_field, json_string_field, json_uint_field};

verus! {

/// One device/user code pair, immutable for the whole attempt.
///
/// Well-formed sessions have `interval >= 1` and `expires_in >= 1`; a
/// response with either timing field at zero is rejected before any
/// polling begins.
#[derive(Debug, Clone, PartialEq, Eq)]
pub struct DeviceSession {
    /// Opaque secret sent on every poll, never displayed.
    pub device_code: String,
    /// Short code the user enters at the verification URI.
    pub user_code: String,
    /// Absolute URI the user visits to authorize the device.
    pub verification_uri: String,
    /// Seconds from issuance until the device code becomes invalid.
    pub expires_in: u64,
    /// Minimum seconds to wait between polls.
    pub interval: u64,
}

impl DeviceSession {
    /// The session invariant: both timing fields are positive.
    pub open spec fn wf(self) -> bool {
        self.interval >= 1 && self.expires_in >= 1
    }

    /// The local deadline guard: how many polls the session allows.
    pub open spec fn spec_max_attempts(self) -> int
        recommends
            self.wf(),
    {
        self.expires_in as int / self.interval as int
    }
}

/// Why a device-authorization response yielded no session.
#[derive(Debug, Clone, PartialEq, Eq)]
pub enum DeviceResponseError {
    /// The endpoint answered with a non-success HTTP status; the fields
    /// carry the status and the response body for diagnostics.
    Status(u16, String),
    /// A required field is missing or has the wrong type.
    MissingField,
    /// All fields are present but `expires_in` or `interval` is zero.
    InvalidTiming,
}

/// Does `status` lie in the HTTP success range?
pub open spec fn spec_http_success(status: u16) -> bool {
    200 <= status < 300
}

/// All five required fields are present and of the right type.
pub open spec fn spec_device_fields_present(body: Seq<char>) -> bool {
    &&& json_string_field(body, "device_code"@) is Some
    &&& json_string_field(body, "user_code"@) is Some
    &&& json_string_field(body, "verification_uri"@) is Some
    &&& json_uint_field(body, "expires_in"@) is Some
    &&& json_uint_field(body, "interval"@) is Some
}

/// The body yields a well-formed session: every field is present and
/// both timing fields are positive.
pub open spec fn spec_device_response_ok(status: u16, body: Seq<char>) -> bool {
    &&& spec_http_success(status)
    &&& spec_device_fields_present(body)
    &&& json_uint_field(body, "expires_in"@) matches Some(e) && e >= 1
    &&& json_uint_field(body, "interval"@) matches Some(i) && i >= 1
}

/// Turn one device-authorization response into a session.
///
/// Succeeds exactly when the status is a success status, all five
/// required fields are present, and both timing fields are positive;
/// the session's fields are the response's fields, verbatim.
pub fn interpret_device_response(status: u16, body: &str) -> (r: Result<
    DeviceSession,
    DeviceResponseError,
>)
    ensures
        r is Ok <==> spec_device_response_ok(status, body@),
        r matches Ok(s) ==> {
            &&& Some(s.device_code@) == json_string_field(body@, "device_code"@)
            &&& Some(s.user_code@) == json_string_field(body@, "user_code"@)
            &&& Some(s.verification_uri@) == json_string_field(body@, "verification_uri"@)
            &&& Some(s.expires_in) == json_uint_field(body@, "expires_in"@)
            &&& Some(s.interval) == json_uint_field(body@, "interval"@)
            &&& s.wf()
        },
        !spec_http_success(status) ==> (r matches Err(DeviceResponseError::Status(st, b))
            && st == status && b@ == body@),
        spec_http_success(status) && !spec_device_fields_present(body@) ==> r == Err::<
            DeviceSession,
            DeviceResponseError,
        >(DeviceResponseError::MissingField),
        spec_http_success(status) && spec_device_fields_present(body@) && !spec_device_response_ok(
            status,
            body@,
        ) ==> r == Err::<DeviceSession, DeviceResponseError>(DeviceResponseError::InvalidTiming),
{
    if !(200 <= status && status < 300) {
        return Err(DeviceResponseError::Status(status, body.to_owned()));
    }
    let device_code = get_string_field(body, "device_code");
    let user_code = get_string_field(body, "user_code");
    let verification_uri = get_string_field(body, "verification_uri");
    let expires_in = get_uint_field(body, "expires_in");
    let interval = get_uint_field(body, "interval");
    match (device_code, user_code, verification_uri, expires_in, interval) {
        (Some(dc), Some(uc), Some(vu), Some(e), Some(i)) => {
            if e >= 1 && i >= 1 {
                Ok(
                    DeviceSession {
                        device_code: dc,
                        user_code: uc,
                        verification_uri: vu,
                        expires_in: e,
                        interval: i,
                    },
                )
            } else {
                Err(DeviceResponseError::InvalidTiming)
            }
        },
        _ => Err(DeviceResponseError::MissingField),
    }
}

} // verus!
