use vstd::prelude::*;
use vstd::string::*;

use crate::auth::{group_name, Group};
use crate::organization::Organization;
use crate::urls::{append_query_pair, join_url, opt_view, url_append_pair, url_join};

verus! {

/// Where an OpenID provider publishes its metadata, relative to its issuer.
pub const OPENID_DISCOVERY_POSTFIX: &'static str = ".well-known/openid-configuration";

/// The part of an OpenID provider's metadata the service reads; URLs are
/// held as their serialization.
pub struct OpenIdProviderMetadatda {
    pub issuer: String,
    pub authorization_endpoint: String,
    pub token_endpoint: String,
    pub userinfo_endpoint: Option<String>,
    pub jwks_uri: String,
    pub scopes_supported: Vec<String>,
}

/// The URL of an issuer's metadata: the issuer, a `/` unless it already ends
/// in one, and the discovery path.
pub open spec fn metadata_url(issuer: Seq<char>) -> Seq<char> {
    let directory = if issuer.len() > 0 && issuer.last() == '/' {
        issuer
    } else {
        issuer.push('/')
    };
    directory + OPENID_DISCOVERY_POSTFIX@
}

/// The URL at which the provider with issuer `issuer_url` publishes its
/// metadata.
pub fn provider_metadata_url(issuer_url: &str) -> (r: String)
    ensures
        r@ == metadata_url(issuer_url@),
{
    let n = issuer_url.unicode_len();
    let mut r = String::from_str(issuer_url);
    if n == 0 || issuer_url.get_char(n - 1) != '/' {
        r.append("/");
        proof {
            reveal_strlit("/");
        }
    }
    r.append(OPENID_DISCOVERY_POSTFIX);
    r
}

/// An issuer that does not end in `/` has the same metadata URL as the same
/// issuer with a `/` added.
pub proof fn lemma_metadata_url_trailing_slash(issuer: Seq<char>)
    requires
        issuer.len() == 0 || issuer.last() != '/',
    ensures
        metadata_url(issuer) == metadata_url(issuer.push('/')),
{
}

/// The redirect base under the service's origin: `redirect/` joined to it.
pub open spec fn redirect_base_of(origin: Seq<char>) -> Option<Seq<char>> {
    url_join(origin, "redirect/"@)
}

/// Where the provider sends a member of `group` back to: the group's name
/// joined to the redirect base.
pub open spec fn redirect_uri_of(redirect_base: Seq<char>, group: Group) -> Option<Seq<char>> {
    url_join(redirect_base, group_name(group))
}

/// The redirect base `redirect/` under the service's origin; `None` where
/// the join fails.
pub fn redirect_base(origin: &str) -> (r: Option<String>)
    ensures
        opt_view(r) == redirect_base_of(origin@),
{
    join_url(origin, "redirect/")
}

/// The redirect URI of a group under a redirect base; `None` where the join
/// fails.
pub fn redirect_uri(redirect_base: &str, group: Group) -> (r: Option<String>)
    ensures
        opt_view(r) == redirect_uri_of(redirect_base@, group),
{
    join_url(redirect_base, group.as_ref())
}

/// The scope that is asked for: `openid` and the group's name.
pub open spec fn scope_of(group: Group) -> Seq<char> {
    "openid "@ + group_name(group)
}

/// Appends a query pair to a URL that was built so far.
pub open spec fn then_append(url: Option<Seq<char>>, key: Seq<char>, value: Seq<char>) -> Option<
    Seq<char>,
> {
    match url {
        Some(u) => url_append_pair(u, key, value),
        None => None,
    }
}

/// The authorization request: the authorization endpoint with the client's
/// identifier, the response type `code`, the redirect URI, the scope and the
/// organization's name as state appended as query pairs, in this order.
pub open spec fn authorization_url(
    endpoint: Seq<char>,
    client_id: Seq<char>,
    redirect_uri: Seq<char>,
    group: Group,
    state: Seq<char>,
) -> Option<Seq<char>> {
    then_append(
        then_append(
            then_append(
                then_append(url_append_pair(endpoint, "cliend_it"@, client_id), "response_type"@, "code"@),
                "redirect_uri"@,
                redirect_uri,
            ),
            "scope"@,
            scope_of(group),
        ),
        "state"@,
        state,
    )
}

/// The authorization request for every endpoint, client, redirect URI,
/// group and state: the five query pairs `cliend_it`, `response_type=code`,
/// `redirect_uri`, `scope` (`openid` and the group's name) and `state` (the
/// state as given, whole) appended in this order, and `None` where an
/// append fails.
pub proof fn lemma_authorization_url_pairs(
    endpoint: Seq<char>,
    client_id: Seq<char>,
    redirect_uri: Seq<char>,
    group: Group,
    state: Seq<char>,
)
    ensures
        authorization_url(endpoint, client_id, redirect_uri, group, state) == match url_append_pair(
            endpoint,
            "cliend_it"@,
            client_id,
        ) {
            None => None,
            Some(with_client) => match url_append_pair(with_client, "response_type"@, "code"@) {
                None => None,
                Some(with_response_type) => match url_append_pair(
                    with_response_type,
                    "redirect_uri"@,
                    redirect_uri,
                ) {
                    None => None,
                    Some(with_redirect_uri) => match url_append_pair(
                        with_redirect_uri,
                        "scope"@,
                        match group {
                            Group::User => "openid user"@,
                            Group::Admin => "openid admin"@,
                        },
                    ) {
                        None => None,
                        Some(with_scope) => url_append_pair(with_scope, "state"@, state),
                    },
                },
            },
        },
{
    reveal_strlit("openid user");
    reveal_strlit("openid admin");
    reveal_strlit("openid ");
    reveal_strlit("user");
    reveal_strlit("admin");
    assert("openid "@ + group_name(Group::User) =~= "openid user"@);
    assert("openid "@ + group_name(Group::Admin) =~= "openid admin"@);
}

/// The URL at which a member of `organization` in `group` signs in; `None`
/// where a step of the URL's construction fails.
pub fn generate_authorization_request_url(
    authorization_endpoint: &str,
    organization: &Organization,
    group: Group,
    redirect_uri: &str,
) -> (r: Option<String>)
    ensures
        opt_view(r) == authorization_url(
            authorization_endpoint@,
            organization.authorization_server.client_id@,
            redirect_uri@,
            group,
            organization.name@,
        ),
{
    let url = append_query_pair(
        authorization_endpoint,
        "cliend_it",
        organization.authorization_server.client_id.as_str(),
    )?;
    let url = append_query_pair(url.as_str(), "response_type", "code")?;
    let url = append_query_pair(url.as_str(), "redirect_uri", redirect_uri)?;
    let mut scope = String::from_str("openid ");
    scope.append(group.as_ref());
    let url = append_query_pair(url.as_str(), "scope", scope.as_str())?;
    append_query_pair(url.as_str(), "state", organization.name.as_str())
}

/// The form of a token request: the grant type `authorization_code`, the
/// code, and the redirect URI of the authorization request.
pub fn token_request_form(code: String, redirect_uri: String) -> (r: Vec<(String, String)>)
    ensures
        r@.len() == 3,
        r@[0].0@ == "grant_type"@,
        r@[0].1@ == "authorization_code"@,
        r@[1].0@ == "code"@,
        r@[1].1@ == code@,
        r@[2].0@ == "redirect_uri"@,
        r@[2].1@ == redirect_uri@,
{
    let mut form = Vec::new();
    form.push((String::from_str("grant_type"), String::from_str("authorization_code")));
    form.push((String::from_str("code"), code));
    form.push((String::from_str("redirect_uri"), redirect_uri));
    form
}

/// Checks the provider's answer to a token request; every answer is
/// accepted.
pub fn validate_response(response: &str) -> (r: Result<(), crate::auth::ServiceError>)
    ensures
        r is Ok,
{
    Ok(())
}

} // verus!
