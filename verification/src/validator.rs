//! The token validator: interpreting the identity check's response.

use vstd::prelude::*;

use vstd::string::StringSliceAdditionalSpecFns;

use crate::json::{get_string_field, json_string_field};
use crate::session::spec_http_success;

verus! {

/// The canonical identity the remote service reports for a credential.
#[derive(Debug, Clone, PartialEq, Eq)]
pub struct Identity {
    /// The account's login, always present.
    pub login: String,
    /// The display name, when the account has one.
    pub name: Option<String>,
    /// The public email, when the account has one.
    pub email: Option<String>,
}

/// Why an identity check yielded no identity.
#[derive(Debug, Clone, PartialEq, Eq)]
pub enum IdentityError {
    /// The endpoint answered with a non-success HTTP status; the fields
    /// carry the status and the response body for diagnostics.
    Status(u16, String),
    /// A success status whose body has no `login` field.
    MissingLogin,
}

/// Turn one identity-endpoint response into an identity.
///
/// Succeeds exactly when the status is a success status and the body
/// carries a `login` field; the identity's fields are the response's
/// fields, verbatim.
pub fn interpret_identity_response(status: u16, body: &str) -> (r: Result<Identity, IdentityError>)
    ensures
        r is Ok <==> spec_http_success(status) && json_string_field(body@, "login"@) is Some,
        r matches Ok(id) ==> {
            &&& Some(id.login@) == json_string_field(body@, "login"@)
            &&& id.name.deep_view() == json_string_field(body@, "name"@)
            &&& id.email.deep_view() == json_string_field(body@, "email"@)
        },
        !spec_http_success(status) ==> (r matches Err(IdentityError::Status(st, b)) && st == status
            && b@ == body@),
        spec_http_success(status) && json_string_field(body@, "login"@) is None ==> r == Err::<
            Identity,
            IdentityError,
        >(IdentityError::MissingLogin),
{
    if !(200 <= status && status < 300) {
        return Err(IdentityError::Status(status, body.to_owned()));
    }
    match get_string_field(body, "login") {
        Some(login) => {
            let name = get_string_field(body, "name");
            let email = get_string_field(body, "email");
            Ok(Identity { login, name, email })
        },
        None => Err(IdentityError::MissingLogin),
    }
}

/// Does `status` lie in the HTTP success range?
pub fn http_success(status: u16) -> (r: bool)
    ensures
        r == spec_http_success(status),
{
    200 <= status && status < 300
}

/// A personal access token has a plausible shape: the `ghp_` prefix
/// and more than ten bytes in all.
pub open spec fn spec_pat_format(bytes: Seq<u8>) -> bool {
    &&& bytes.len() > 10
    &&& bytes[0] == 'g' as u8
    &&& bytes[1] == 'h' as u8
    &&& bytes[2] == 'p' as u8
    &&& bytes[3] == '_' as u8
}

/// Decide whether a personal access token has a plausible shape.
pub fn pat_format_ok(token: &str) -> (r: bool)
    ensures
        r == spec_pat_format(token.spec_bytes()),
{
    let bytes = token.as_bytes();
    bytes.len() > 10 && bytes[0] == 'g' as u8 && bytes[1] == 'h' as u8 && bytes[2] == 'p' as u8
        && bytes[3] == '_' as u8
}

} // verus!
