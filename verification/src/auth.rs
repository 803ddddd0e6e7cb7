use vstd::prelude::*;
use vstd::string::*;

use crate::object_id::{hex, ObjectId};

verus! {

/// The two kinds of member a token can be issued to.
#[derive(Clone, Copy, Debug, PartialEq, Eq, Structural)]
pub enum Group {
    Admin,
    User,
}

/// The kebab-case name of a group, as it appears in scopes and redirect
/// paths.
pub open spec fn group_name(group: Group) -> Seq<char> {
    match group {
        Group::Admin => "admin"@,
        Group::User => "user"@,
    }
}

impl Group {
    /// The group's kebab-case name: `admin` or `user`.
    pub fn as_ref(&self) -> (r: &'static str)
        ensures
            r@ == group_name(*self),
    {
        match self {
            Group::Admin => "admin",
            Group::User => "user",
        }
    }
}

/// The claims of a token that the service issues: the group the holder
/// belongs to and the holder's identifier.
#[derive(Clone, Copy, Debug)]
pub struct SmsGroupsJwt {
    pub group: Group,
    pub id: ObjectId,
}

/// What can go wrong while the service answers a request.
pub enum ServiceError {
    /// The database could not be reached or answered with an error.
    Database,
    /// No organization has the given name.
    OrganizationNotFound(String),
    /// The provider's metadata could not be fetched or read; the text says why.
    ProviderMetadata(String),
    /// A URL could not be built.
    InvalidUrl,
    /// The token request failed; the text says why.
    TokenRequest(String),
    /// The bearer token is not one the service signed.
    InvalidToken,
    /// The bearer token belongs to another group than the endpoint's.
    GroupMismatch { expected: Group, got: Group },
    /// The token could not be signed; the text says why.
    Signing(String),
    /// The configuration could not be read; the text says why.
    Configuration(String),
}

/// The message that answers an error.
pub open spec fn error_message(error: ServiceError) -> Seq<char> {
    match error {
        ServiceError::Database => "error communicating with database"@,
        ServiceError::OrganizationNotFound(name) => "No organization found with name: "@ + name@,
        ServiceError::ProviderMetadata(why) => why@,
        ServiceError::InvalidUrl => "unable to build URL"@,
        ServiceError::TokenRequest(why) => why@,
        ServiceError::InvalidToken => "unable to verify SMS Groups JWT"@,
        ServiceError::GroupMismatch { expected, got } => "group mismatch, expected "@ + group_name(
            expected,
        ) + ", got "@ + group_name(got),
        ServiceError::Signing(why) => why@,
        ServiceError::Configuration(why) => why@,
    }
}

impl ServiceError {
    /// The message that answers this error.
    pub fn message(&self) -> (r: String)
        ensures
            r@ == error_message(*self),
    {
        match self {
            ServiceError::Database => String::from_str("error communicating with database"),
            ServiceError::OrganizationNotFound(name) => {
                let mut r = String::from_str("No organization found with name: ");
                r.append(name.as_str());
                r
            },
            ServiceError::ProviderMetadata(why) => why.clone(),
            ServiceError::InvalidUrl => String::from_str("unable to build URL"),
            ServiceError::TokenRequest(why) => why.clone(),
            ServiceError::InvalidToken => String::from_str("unable to verify SMS Groups JWT"),
            ServiceError::GroupMismatch { expected, got } => {
                let mut r = String::from_str("group mismatch, expected ");
                r.append(expected.as_ref());
                r.append(", got ");
                r.append(got.as_ref());
                r
            },
            ServiceError::Signing(why) => why.clone(),
            ServiceError::Configuration(why) => why.clone(),
        }
    }
}

/// What a bearer-token check answers, given the group the endpoint expects
/// and the claims of the token where its signature was valid.
pub open spec fn check_result(expected_group: Group, verified: Option<SmsGroupsJwt>) -> Result<
    ObjectId,
    ServiceError,
> {
    match verified {
        None => Err(ServiceError::InvalidToken),
        Some(jwt) => if jwt.group == expected_group {
            Ok(jwt.id)
        } else {
            Err(ServiceError::GroupMismatch { expected: expected_group, got: jwt.group })
        },
    }
}

/// Decides a bearer-token check: `verified` holds the token's claims where
/// its signature was valid, and `None` where it was not. The holder's
/// identifier is let through only where the token's group is the expected
/// one.
pub fn api_checker(expected_group: Group, verified: Option<SmsGroupsJwt>) -> (r: Result<
    ObjectId,
    ServiceError,
>)
    ensures
        r == check_result(expected_group, verified),
{
    match verified {
        None => Err(ServiceError::InvalidToken),
        Some(jwt) => {
            if expected_group == jwt.group {
                Ok(jwt.id)
            } else {
                Err(ServiceError::GroupMismatch { expected: expected_group, got: jwt.group })
            }
        },
    }
}

/// The greeting of the endpoints that test a member's authentication.
pub open spec fn logged_in_text(group: Group, id: ObjectId) -> Seq<char> {
    match group {
        Group::User => "Logged in as a user with id: "@ + hex(id.bytes@),
        Group::Admin => "Logged in as an admin with id: "@ + hex(id.bytes@),
    }
}

/// The greeting of the endpoints that test a member's authentication: the
/// group and the member's identifier in hexadecimal.
pub fn logged_in_message(group: Group, id: ObjectId) -> (r: String)
    ensures
        r@ == logged_in_text(group, id),
{
    let mut r = match group {
        Group::User => String::from_str("Logged in as a user with id: "),
        Group::Admin => String::from_str("Logged in as an admin with id: "),
    };
    let h = id.to_hex();
    r.append(h.as_str());
    r
}

/// A token issued to a user passes the check of the user endpoints and is
/// refused, for its group, by the admin endpoints.
pub proof fn lemma_user_token_checks(claims: SmsGroupsJwt)
    requires
        claims.group == Group::User,
    ensures
        check_result(Group::User, Some(claims)) == Ok::<ObjectId, ServiceError>(claims.id),
        check_result(Group::Admin, Some(claims)) == Err::<ObjectId, ServiceError>(
            ServiceError::GroupMismatch { expected: Group::Admin, got: Group::User },
        ),
{
}

} // verus!
