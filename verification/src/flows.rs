use vstd::prelude::*;
use vstd::string::*;

use crate::auth::{group_name, Group, ServiceError, SmsGroupsJwt};
use crate::urls::{url_append_pair, url_join};
use crate::object_id::ObjectId;
use crate::openid::{
    authorization_url, generate_authorization_request_url, metadata_url, provider_metadata_url,
    redirect_base, redirect_base_of, redirect_uri, redirect_uri_of, token_request_form,
    validate_response, OpenIdProviderMetadatda,
};
use crate::organization::Organization;

verus! {

/// The redirect URI of a group under the service's origin: `redirect/`
/// joined to the origin, then the group's name joined to that; `None` where
/// a join fails.
pub open spec fn origin_redirect_uri(origin: Seq<char>, group: Group) -> Option<Seq<char>> {
    match redirect_base_of(origin) {
        Some(base) => redirect_uri_of(base, group),
        None => None,
    }
}

/// What the sign-in endpoint answers once the provider's metadata and the
/// service's origin are known: the sign-in text around the authorization URL
/// built with the user's redirect URI; `None` where the redirect URI or the
/// URL cannot be built.
pub open spec fn login_answer(
    origin: Seq<char>,
    authorization_endpoint: Seq<char>,
    organization: Organization,
) -> Option<Seq<char>> {
    match origin_redirect_uri(origin, Group::User) {
        Some(redirect_uri) => match authorization_url(
            authorization_endpoint,
            organization.authorization_server.client_id@,
            redirect_uri,
            Group::User,
            organization.name@,
        ) {
            Some(url) => Some("Please login at: "@ + url),
            None => None,
        },
        None => None,
    }
}

/// Where the sign-in endpoint answered with a URL for an origin, the
/// redirect endpoint with that origin builds its token request rather than
/// give up, and the redirect URI in its form is the one the URL was built
/// with.
pub proof fn lemma_login_redirect_uri_is_token_redirect_uri(
    origin: Seq<char>,
    authorization_endpoint: Seq<char>,
    organization: Organization,
)
    requires
        login_answer(origin, authorization_endpoint, organization) is Some,
    ensures
        origin_redirect_uri(origin, Group::User) is Some,
        login_answer(origin, authorization_endpoint, organization) == Some(
            "Please login at: "@ + authorization_url(
                authorization_endpoint,
                organization.authorization_server.client_id@,
                origin_redirect_uri(origin, Group::User)->0,
                Group::User,
                organization.name@,
            )->0,
        ),
{
}

/// What happened outside while the sign-in endpoint waited.
pub enum LoginEvent {
    /// The organization with the requested name was found.
    OrganizationFound(Organization),
    /// No organization has the requested name.
    OrganizationMissing,
    /// The database could not be asked.
    DatabaseFailed,
    /// The provider's metadata was fetched and read.
    MetadataFetched(OpenIdProviderMetadatda),
    /// The provider's metadata could not be fetched or read; the text says why.
    MetadataFailed(String),
    /// The configuration was read; this is the serialization of the
    /// service's origin in it.
    OriginRead(String),
    /// The configuration could not be read; the text says why.
    ConfigurationFailed(String),
}

/// Where the sign-in endpoint stands.
pub enum LoginStage {
    AwaitingOrganization,
    AwaitingMetadata(Organization),
    AwaitingOrigin { organization: Organization, metadata: OpenIdProviderMetadatda },
    Finished,
}

/// What the sign-in endpoint asks the outside to do next.
pub enum LoginAction {
    /// Look up the organization with this name.
    FindOrganization(String),
    /// Fetch the provider's metadata from this URL.
    FetchProviderMetadata(String),
    /// Read the configuration for the service's origin.
    ReadOrigin,
    /// Answer the request.
    Respond(Result<String, ServiceError>),
    /// Give up without an answer: `redirect/` cannot be joined to the
    /// configured origin.
    Abort,
}

/// The sign-in endpoint for the members of an organization: it looks the
/// organization up, fetches its provider's metadata, reads the service's
/// origin, and answers with the URL at which to sign in.
pub struct LoginFlow {
    pub organization_name: String,
    pub stage: LoginStage,
}

impl LoginFlow {
    /// Whether `event` is one the flow waits for in its stage.
    pub open spec fn accepts(&self, event: &LoginEvent) -> bool {
        match self.stage {
            LoginStage::AwaitingOrganization => {
                ||| *event is OrganizationFound
                ||| *event is OrganizationMissing
                ||| *event is DatabaseFailed
            },
            LoginStage::AwaitingMetadata(_) => {
                ||| *event is MetadataFetched
                ||| *event is MetadataFailed
            },
            LoginStage::AwaitingOrigin { .. } => {
                ||| *event is OriginRead
                ||| *event is ConfigurationFailed
            },
            LoginStage::Finished => false,
        }
    }

    /// Whether `event` is one the flow waits for in its stage.
    pub fn accepts_event(&self, event: &LoginEvent) -> (r: bool)
        ensures
            r == self.accepts(event),
    {
        match self.stage {
            LoginStage::AwaitingOrganization => match event {
                LoginEvent::OrganizationFound(_) => true,
                LoginEvent::OrganizationMissing => true,
                LoginEvent::DatabaseFailed => true,
                _ => false,
            },
            LoginStage::AwaitingMetadata(_) => match event {
                LoginEvent::MetadataFetched(_) => true,
                LoginEvent::MetadataFailed(_) => true,
                _ => false,
            },
            LoginStage::AwaitingOrigin { .. } => match event {
                LoginEvent::OriginRead(_) => true,
                LoginEvent::ConfigurationFailed(_) => true,
                _ => false,
            },
            LoginStage::Finished => false,
        }
    }

    /// Starts a sign-in for the organization `organization_name`: the first
    /// thing to do is to look it up.
    pub fn start(organization_name: String) -> (r: (LoginFlow, LoginAction))
        ensures
            r.0.organization_name@ == organization_name@,
            r.0.stage is AwaitingOrganization,
            r.1 matches LoginAction::FindOrganization(name) && name@ == organization_name@,
    {
        let name = organization_name.clone();
        (
            LoginFlow { organization_name, stage: LoginStage::AwaitingOrganization },
            LoginAction::FindOrganization(name),
        )
    }

    /// Whether `r` is where one step with `event` takes the flow, and what
    /// it asks for then.
    pub open spec fn steps_to(self, event: LoginEvent, r: (LoginFlow, LoginAction)) -> bool {
        &&& r.0.organization_name@ == self.organization_name@
        &&& match (self.stage, event) {
            (LoginStage::AwaitingOrganization, LoginEvent::OrganizationFound(organization)) => {
                &&& r.0.stage == LoginStage::AwaitingMetadata(organization)
                &&& r.1 matches LoginAction::FetchProviderMetadata(url) && url@ == metadata_url(
                    organization.authorization_server.issuer_url@,
                )
            },
            (LoginStage::AwaitingOrganization, LoginEvent::OrganizationMissing) => {
                &&& r.0.stage is Finished
                &&& r.1 matches LoginAction::Respond(Err(ServiceError::OrganizationNotFound(name)))
                    && name@ == self.organization_name@
            },
            (_, LoginEvent::DatabaseFailed) => {
                &&& r.0.stage is Finished
                &&& r.1 matches LoginAction::Respond(Err(ServiceError::Database))
            },
            (LoginStage::AwaitingMetadata(organization), LoginEvent::MetadataFetched(metadata)) => {
                &&& r.0.stage == LoginStage::AwaitingOrigin { organization, metadata }
                &&& r.1 is ReadOrigin
            },
            (_, LoginEvent::MetadataFailed(why)) => {
                &&& r.0.stage is Finished
                &&& r.1 matches LoginAction::Respond(Err(ServiceError::ProviderMetadata(w)))
                    && w@ == why@
            },
            (LoginStage::AwaitingOrigin { organization, metadata }, LoginEvent::OriginRead(origin)) => {
                &&& r.0.stage is Finished
                &&& match redirect_base_of(origin@) {
                    None => r.1 is Abort,
                    Some(_) => match login_answer(
                        origin@,
                        metadata.authorization_endpoint@,
                        organization,
                    ) {
                        Some(text) => r.1 matches LoginAction::Respond(Ok(answer)) && answer@
                            == text,
                        None => r.1 matches LoginAction::Respond(Err(ServiceError::InvalidUrl)),
                    },
                }
            },
            (_, LoginEvent::ConfigurationFailed(why)) => {
                &&& r.0.stage is Finished
                &&& r.1 matches LoginAction::Respond(Err(ServiceError::Configuration(w)))
                    && w@ == why@
            },
            _ => false,
        }
    }

    /// Takes the flow one step on with what happened outside.
    pub fn step(self, event: LoginEvent) -> (r: (LoginFlow, LoginAction))
        requires
            self.accepts(&event),
        ensures
            self.steps_to(event, r),
    {
        let LoginFlow { organization_name, stage } = self;
        match event {
            LoginEvent::OrganizationFound(organization) => {
                let url = provider_metadata_url(organization.authorization_server.issuer_url.as_str());
                (
                    LoginFlow { organization_name, stage: LoginStage::AwaitingMetadata(organization) },
                    LoginAction::FetchProviderMetadata(url),
                )
            },
            LoginEvent::OrganizationMissing => {
                let name = organization_name.clone();
                (
                    LoginFlow { organization_name, stage: LoginStage::Finished },
                    LoginAction::Respond(Err(ServiceError::OrganizationNotFound(name))),
                )
            },
            LoginEvent::DatabaseFailed => (
                LoginFlow { organization_name, stage: LoginStage::Finished },
                LoginAction::Respond(Err(ServiceError::Database)),
            ),
            LoginEvent::MetadataFetched(metadata) => match stage {
                LoginStage::AwaitingMetadata(organization) => (
                    LoginFlow {
                        organization_name,
                        stage: LoginStage::AwaitingOrigin { organization, metadata },
                    },
                    LoginAction::ReadOrigin,
                ),
                _ => vstd::pervasive::unreached(),
            },
            LoginEvent::MetadataFailed(why) => (
                LoginFlow { organization_name, stage: LoginStage::Finished },
                LoginAction::Respond(Err(ServiceError::ProviderMetadata(why))),
            ),
            LoginEvent::OriginRead(origin) => {
                let action = match stage {
                    LoginStage::AwaitingOrigin { organization, metadata } => {
                        match redirect_base(origin.as_str()) {
                            None => LoginAction::Abort,
                            Some(base) => match redirect_uri(base.as_str(), Group::User) {
                                Some(uri) => match generate_authorization_request_url(
                                    metadata.authorization_endpoint.as_str(),
                                    &organization,
                                    Group::User,
                                    uri.as_str(),
                                ) {
                                    Some(url) => {
                                        let mut text = String::from_str("Please login at: ");
                                        text.append(url.as_str());
                                        LoginAction::Respond(Ok(text))
                                    },
                                    None => LoginAction::Respond(Err(ServiceError::InvalidUrl)),
                                },
                                None => LoginAction::Respond(Err(ServiceError::InvalidUrl)),
                            },
                        }
                    },
                    _ => vstd::pervasive::unreached(),
                };
                (LoginFlow { organization_name, stage: LoginStage::Finished }, action)
            },
            LoginEvent::ConfigurationFailed(why) => (
                LoginFlow { organization_name, stage: LoginStage::Finished },
                LoginAction::Respond(Err(ServiceError::Configuration(why))),
            ),
        }
    }
}

/// The claims of the token the redirect endpoint issues: the user group and
/// the member's identifier `id`.
pub fn create_sms_groups_jwt(id: ObjectId) -> (r: SmsGroupsJwt)
    ensures
        r.group == Group::User,
        r.id == id,
{
    SmsGroupsJwt { group: Group::User, id }
}

/// What happened outside while the redirect endpoint waited.
pub enum RedirectEvent {
    /// The organization named in the state was found.
    OrganizationFound(Organization),
    /// No organization has the name in the state.
    OrganizationMissing,
    /// The database could not be asked.
    DatabaseFailed,
    /// The provider's metadata was fetched and read.
    MetadataFetched(OpenIdProviderMetadatda),
    /// The provider's metadata could not be fetched or read; the text says why.
    MetadataFailed(String),
    /// The configuration was read; this is the serialization of the
    /// service's origin in it.
    OriginRead(String),
    /// The configuration could not be read; the text says why.
    ConfigurationFailed(String),
    /// The provider answered the token request with this text.
    TokenReceived(String),
    /// The token request could not be sent or its answer not read; the text
    /// says why.
    TokenRequestFailed(String),
    /// The service's own token was signed into this text.
    TokenSigned(String),
    /// The service's own token could not be signed; the text says why.
    SigningFailed(String),
}

/// Where the redirect endpoint stands.
pub enum RedirectStage {
    AwaitingOrganization,
    AwaitingMetadata(Organization),
    AwaitingOrigin { organization: Organization, metadata: OpenIdProviderMetadatda },
    AwaitingToken,
    AwaitingSignature,
    Finished,
}

/// What the redirect endpoint asks the outside to do next.
pub enum RedirectAction {
    /// Look up the organization with this name.
    FindOrganization(String),
    /// Fetch the provider's metadata from this URL.
    FetchProviderMetadata(String),
    /// Read the configuration for the service's origin.
    ReadOrigin,
    /// Post this form to the token endpoint, authenticated with the client's
    /// identifier and password.
    RequestToken {
        token_endpoint: String,
        client_id: String,
        client_password: String,
        form: Vec<(String, String)>,
    },
    /// Sign these claims into the service's own token.
    SignToken(SmsGroupsJwt),
    /// Answer the request.
    Respond(Result<String, ServiceError>),
    /// Give up without an answer: the redirect URI of the token request
    /// cannot be had, because the configuration cannot be read or a join
    /// fails.
    Abort,
}

/// The endpoint the provider redirects a member to after the sign-in: it
/// trades the code for the provider's token and answers with a token of the
/// service's own.
pub struct RedirectFlow {
    /// The name of the organization, carried in the state parameter.
    pub organization_name: String,
    pub code: String,
    pub stage: RedirectStage,
}

impl RedirectFlow {
    /// Whether `event` is one the flow waits for in its stage.
    pub open spec fn accepts(&self, event: &RedirectEvent) -> bool {
        match self.stage {
            RedirectStage::AwaitingOrganization => {
                ||| *event is OrganizationFound
                ||| *event is OrganizationMissing
                ||| *event is DatabaseFailed
            },
            RedirectStage::AwaitingMetadata(_) => {
                ||| *event is MetadataFetched
                ||| *event is MetadataFailed
            },
            RedirectStage::AwaitingOrigin { .. } => {
                ||| *event is OriginRead
                ||| *event is ConfigurationFailed
            },
            RedirectStage::AwaitingToken => {
                ||| *event is TokenReceived
                ||| *event is TokenRequestFailed
            },
            RedirectStage::AwaitingSignature => {
                ||| *event is TokenSigned
                ||| *event is SigningFailed
            },
            RedirectStage::Finished => false,
        }
    }

    /// Whether `event` is one the flow waits for in its stage.
    pub fn accepts_event(&self, event: &RedirectEvent) -> (r: bool)
        ensures
            r == self.accepts(event),
    {
        match self.stage {
            RedirectStage::AwaitingOrganization => match event {
                RedirectEvent::OrganizationFound(_) => true,
                RedirectEvent::OrganizationMissing => true,
                RedirectEvent::DatabaseFailed => true,
                _ => false,
            },
            RedirectStage::AwaitingMetadata(_) => match event {
                RedirectEvent::MetadataFetched(_) => true,
                RedirectEvent::MetadataFailed(_) => true,
                _ => false,
            },
            RedirectStage::AwaitingOrigin { .. } => match event {
                RedirectEvent::OriginRead(_) => true,
                RedirectEvent::ConfigurationFailed(_) => true,
                _ => false,
            },
            RedirectStage::AwaitingToken => match event {
                RedirectEvent::TokenReceived(_) => true,
                RedirectEvent::TokenRequestFailed(_) => true,
                _ => false,
            },
            RedirectStage::AwaitingSignature => match event {
                RedirectEvent::TokenSigned(_) => true,
                RedirectEvent::SigningFailed(_) => true,
                _ => false,
            },
            RedirectStage::Finished => false,
        }
    }

    /// Starts the redirect for the code `code` and the state `state`, which
    /// carries the organization's name: the first thing to do is to look the
    /// organization up.
    pub fn start(code: String, state: String) -> (r: (RedirectFlow, RedirectAction))
        ensures
            r.0.organization_name@ == state@,
            r.0.code@ == code@,
            r.0.stage is AwaitingOrganization,
            r.1 matches RedirectAction::FindOrganization(name) && name@ == state@,
    {
        let name = state.clone();
        (
            RedirectFlow { organization_name: state, code, stage: RedirectStage::AwaitingOrganization },
            RedirectAction::FindOrganization(name),
        )
    }

    /// Whether `r` is where one step with `event` takes the flow, and what
    /// it asks for then; the identifier in issued claims is left open.
    pub open spec fn steps_to(self, event: RedirectEvent, r: (RedirectFlow, RedirectAction)) -> bool {
        &&& r.0.organization_name@ == self.organization_name@
        &&& r.0.code@ == self.code@
        &&& match (self.stage, event) {
            (RedirectStage::AwaitingOrganization, RedirectEvent::OrganizationFound(organization)) => {
                &&& r.0.stage == RedirectStage::AwaitingMetadata(organization)
                &&& r.1 matches RedirectAction::FetchProviderMetadata(url) && url@ == metadata_url(
                    organization.authorization_server.issuer_url@,
                )
            },
            (RedirectStage::AwaitingOrganization, RedirectEvent::OrganizationMissing) => {
                &&& r.0.stage is Finished
                &&& r.1 matches RedirectAction::Respond(
                    Err(ServiceError::OrganizationNotFound(name)),
                ) && name@ == self.organization_name@
            },
            (_, RedirectEvent::DatabaseFailed) => {
                &&& r.0.stage is Finished
                &&& r.1 matches RedirectAction::Respond(Err(ServiceError::Database))
            },
            (RedirectStage::AwaitingMetadata(organization), RedirectEvent::MetadataFetched(metadata)) => {
                &&& r.0.stage == RedirectStage::AwaitingOrigin { organization, metadata }
                &&& r.1 is ReadOrigin
            },
            (_, RedirectEvent::MetadataFailed(why)) => {
                &&& r.0.stage is Finished
                &&& r.1 matches RedirectAction::Respond(Err(ServiceError::ProviderMetadata(w)))
                    && w@ == why@
            },
            (RedirectStage::AwaitingOrigin { organization, metadata }, RedirectEvent::OriginRead(origin)) => {
                match origin_redirect_uri(origin@, Group::User) {
                    Some(uri) => {
                        &&& r.0.stage is AwaitingToken
                        &&& r.1 matches RedirectAction::RequestToken {
                            token_endpoint,
                            client_id,
                            client_password,
                            form,
                        }
                        &&& token_endpoint@ == metadata.token_endpoint@
                        &&& client_id@ == organization.authorization_server.client_id@
                        &&& client_password@ == organization.authorization_server.client_password@
                        &&& form@.len() == 3
                        &&& form@[0].0@ == "grant_type"@
                        &&& form@[0].1@ == "authorization_code"@
                        &&& form@[1].0@ == "code"@
                        &&& form@[1].1@ == self.code@
                        &&& form@[2].0@ == "redirect_uri"@
                        &&& form@[2].1@ == uri
                    },
                    None => {
                        &&& r.0.stage is Finished
                        &&& r.1 is Abort
                    },
                }
            },
            (_, RedirectEvent::ConfigurationFailed(_)) => {
                &&& r.0.stage is Finished
                &&& r.1 is Abort
            },
            (RedirectStage::AwaitingToken, RedirectEvent::TokenReceived(_)) => {
                &&& r.0.stage is AwaitingSignature
                &&& r.1 matches RedirectAction::SignToken(claims) && claims.group == Group::User
            },
            (RedirectStage::AwaitingToken, RedirectEvent::TokenRequestFailed(why)) => {
                &&& r.0.stage is Finished
                &&& r.1 matches RedirectAction::Respond(Err(ServiceError::TokenRequest(w)))
                    && w@ == why@
            },
            (RedirectStage::AwaitingSignature, RedirectEvent::TokenSigned(token)) => {
                &&& r.0.stage is Finished
                &&& r.1 matches RedirectAction::Respond(Ok(answer)) && answer@ == "Bearer token: "@
                    + token@
            },
            (RedirectStage::AwaitingSignature, RedirectEvent::SigningFailed(why)) => {
                &&& r.0.stage is Finished
                &&& r.1 matches RedirectAction::Respond(Err(ServiceError::Signing(w))) && w@ == why@
            },
            _ => false,
        }
    }

    /// Takes the flow one step on with what happened outside. Where the step
    /// issues claims, their identifier is a fresh one from
    /// `ObjectId::generate`.
    pub fn step(self, event: RedirectEvent) -> (r: (RedirectFlow, RedirectAction))
        requires
            self.accepts(&event),
        ensures
            self.steps_to(event, r),
    {
        let fresh_id = match &event {
            RedirectEvent::TokenReceived(_) => ObjectId::generate(),
            _ => ObjectId::from_bytes([0u8; 12]),
        };
        self.step_with_id(event, fresh_id)
    }

    /// Takes the flow one step on with what happened outside; where the step
    /// issues claims, they carry `fresh_id`, which is not used otherwise.
    pub fn step_with_id(self, event: RedirectEvent, fresh_id: ObjectId) -> (r: (RedirectFlow, RedirectAction))
        requires
            self.accepts(&event),
        ensures
            self.steps_to(event, r),
            event is TokenReceived ==> (r.1 matches RedirectAction::SignToken(claims) && claims.id
                == fresh_id),
    {
        let RedirectFlow { organization_name, code, stage } = self;
        match event {
            RedirectEvent::OrganizationFound(organization) => {
                let url = provider_metadata_url(organization.authorization_server.issuer_url.as_str());
                (
                    RedirectFlow { organization_name, code, stage: RedirectStage::AwaitingMetadata(organization) },
                    RedirectAction::FetchProviderMetadata(url),
                )
            },
            RedirectEvent::OrganizationMissing => {
                let name = organization_name.clone();
                (
                    RedirectFlow { organization_name, code, stage: RedirectStage::Finished },
                    RedirectAction::Respond(Err(ServiceError::OrganizationNotFound(name))),
                )
            },
            RedirectEvent::DatabaseFailed => (
                RedirectFlow { organization_name, code, stage: RedirectStage::Finished },
                RedirectAction::Respond(Err(ServiceError::Database)),
            ),
            RedirectEvent::MetadataFetched(metadata) => match stage {
                RedirectStage::AwaitingMetadata(organization) => (
                    RedirectFlow {
                        organization_name,
                        code,
                        stage: RedirectStage::AwaitingOrigin { organization, metadata },
                    },
                    RedirectAction::ReadOrigin,
                ),
                _ => vstd::pervasive::unreached(),
            },
            RedirectEvent::MetadataFailed(why) => (
                RedirectFlow { organization_name, code, stage: RedirectStage::Finished },
                RedirectAction::Respond(Err(ServiceError::ProviderMetadata(why))),
            ),
            RedirectEvent::OriginRead(origin) => match stage {
                RedirectStage::AwaitingOrigin { organization, metadata } => {
                    let uri = match redirect_base(origin.as_str()) {
                        Some(base) => redirect_uri(base.as_str(), Group::User),
                        None => None,
                    };
                    match uri {
                        Some(uri) => {
                            let form = token_request_form(code.clone(), uri);
                            let action = RedirectAction::RequestToken {
                                token_endpoint: metadata.token_endpoint,
                                client_id: organization.authorization_server.client_id,
                                client_password: organization.authorization_server.client_password,
                                form,
                            };
                            (RedirectFlow { organization_name, code, stage: RedirectStage::AwaitingToken }, action)
                        },
                        None => (
                            RedirectFlow { organization_name, code, stage: RedirectStage::Finished },
                            RedirectAction::Abort,
                        ),
                    }
                },
                _ => vstd::pervasive::unreached(),
            },
            RedirectEvent::ConfigurationFailed(_) => (
                RedirectFlow { organization_name, code, stage: RedirectStage::Finished },
                RedirectAction::Abort,
            ),
            RedirectEvent::TokenReceived(response) => {
                match validate_response(response.as_str()) {
                    Ok(()) => {
                        let claims = create_sms_groups_jwt(fresh_id);
                        (
                            RedirectFlow { organization_name, code, stage: RedirectStage::AwaitingSignature },
                            RedirectAction::SignToken(claims),
                        )
                    },
                    Err(e) => (
                        RedirectFlow { organization_name, code, stage: RedirectStage::Finished },
                        RedirectAction::Respond(Err(e)),
                    ),
                }
            },
            RedirectEvent::TokenRequestFailed(why) => (
                RedirectFlow { organization_name, code, stage: RedirectStage::Finished },
                RedirectAction::Respond(Err(ServiceError::TokenRequest(why))),
            ),
            RedirectEvent::TokenSigned(token) => {
                let mut answer = String::from_str("Bearer token: ");
                answer.append(token.as_str());
                (
                    RedirectFlow { organization_name, code, stage: RedirectStage::Finished },
                    RedirectAction::Respond(Ok(answer)),
                )
            },
            RedirectEvent::SigningFailed(why) => (
                RedirectFlow { organization_name, code, stage: RedirectStage::Finished },
                RedirectAction::Respond(Err(ServiceError::Signing(why))),
            ),
        }
    }
}

/// The sign-in answer for every origin: the user's redirect URI is `user`
/// joined to `redirect/` joined to the origin, and the answer is the
/// authorization endpoint with the client's identifier, `response_type=code`,
/// that redirect URI, the scope `openid user` and the organization's whole
/// name as state appended in this order.
pub proof fn lemma_login_answer_from_origin(
    flow: LoginFlow,
    origin: String,
    r: (LoginFlow, LoginAction),
    base: Seq<char>,
    uri: Seq<char>,
    with_client: Seq<char>,
    with_response_type: Seq<char>,
    with_redirect_uri: Seq<char>,
    with_scope: Seq<char>,
    url: Seq<char>,
)
    requires
        flow.stage is AwaitingOrigin,
        flow.steps_to(LoginEvent::OriginRead(origin), r),
        url_join(origin@, "redirect/"@) == Some(base),
        url_join(base, "user"@) == Some(uri),
        url_append_pair(
            flow.stage->metadata.authorization_endpoint@,
            "cliend_it"@,
            flow.stage->organization.authorization_server.client_id@,
        ) == Some(with_client),
        url_append_pair(with_client, "response_type"@, "code"@) == Some(with_response_type),
        url_append_pair(with_response_type, "redirect_uri"@, uri) == Some(with_redirect_uri),
        url_append_pair(with_redirect_uri, "scope"@, "openid user"@) == Some(with_scope),
        url_append_pair(with_scope, "state"@, flow.stage->organization.name@) == Some(url),
    ensures
        r.0.stage is Finished,
        r.1 matches LoginAction::Respond(Ok(answer)) && answer@ == "Please login at: "@ + url,
{
    reveal_strlit("openid user");
    reveal_strlit("openid ");
    reveal_strlit("user");
    assert("openid "@ + group_name(Group::User) =~= "openid user"@);
}

/// The sign-in endpoint gives up exactly where `redirect/` cannot be joined
/// to the origin.
pub proof fn lemma_login_gives_up_without_redirect_base(
    flow: LoginFlow,
    origin: String,
    r: (LoginFlow, LoginAction),
)
    requires
        flow.stage is AwaitingOrigin,
        flow.steps_to(LoginEvent::OriginRead(origin), r),
    ensures
        r.1 is Abort <==> url_join(origin@, "redirect/"@) is None,
{
}

/// The token request for every origin: its form is the grant type, the code
/// of the flow, and as redirect URI `user` joined to `redirect/` joined to
/// the origin; it is posted to the provider's token endpoint with the
/// client's credentials. Where either join fails the endpoint gives up.
pub proof fn lemma_token_request_from_origin(
    flow: RedirectFlow,
    origin: String,
    r: (RedirectFlow, RedirectAction),
)
    requires
        flow.stage is AwaitingOrigin,
        flow.steps_to(RedirectEvent::OriginRead(origin), r),
    ensures
        match url_join(origin@, "redirect/"@) {
            Some(base) => match url_join(base, "user"@) {
                Some(uri) => {
                    &&& r.0.stage is AwaitingToken
                    &&& r.1 matches RedirectAction::RequestToken {
                        token_endpoint,
                        client_id,
                        client_password,
                        form,
                    }
                    &&& token_endpoint@ == flow.stage->metadata.token_endpoint@
                    &&& client_id@ == flow.stage->organization.authorization_server.client_id@
                    &&& client_password@ == flow.stage->organization.authorization_server.client_password@
                    &&& form@.len() == 3
                    &&& form@[0].0@ == "grant_type"@
                    &&& form@[0].1@ == "authorization_code"@
                    &&& form@[1].0@ == "code"@
                    &&& form@[1].1@ == flow.code@
                    &&& form@[2].0@ == "redirect_uri"@
                    &&& form@[2].1@ == uri
                },
                None => r.1 is Abort,
            },
            None => r.1 is Abort,
        },
{
}

/// For one origin, the redirect URI in the token request is the very one
/// the sign-in URL was built with.
pub proof fn lemma_token_request_matches_authorization_request(
    login: LoginFlow,
    redirect: RedirectFlow,
    origin: String,
    login_step: (LoginFlow, LoginAction),
    redirect_step: (RedirectFlow, RedirectAction),
    base: Seq<char>,
    uri: Seq<char>,
    with_client: Seq<char>,
    with_response_type: Seq<char>,
    with_redirect_uri: Seq<char>,
    with_scope: Seq<char>,
    url: Seq<char>,
)
    requires
        login.stage is AwaitingOrigin,
        redirect.stage is AwaitingOrigin,
        login.steps_to(LoginEvent::OriginRead(origin), login_step),
        redirect.steps_to(RedirectEvent::OriginRead(origin), redirect_step),
        url_join(origin@, "redirect/"@) == Some(base),
        url_join(base, "user"@) == Some(uri),
        url_append_pair(
            login.stage->metadata.authorization_endpoint@,
            "cliend_it"@,
            login.stage->organization.authorization_server.client_id@,
        ) == Some(with_client),
        url_append_pair(with_client, "response_type"@, "code"@) == Some(with_response_type),
        url_append_pair(with_response_type, "redirect_uri"@, uri) == Some(with_redirect_uri),
        url_append_pair(with_redirect_uri, "scope"@, "openid user"@) == Some(with_scope),
        url_append_pair(with_scope, "state"@, login.stage->organization.name@) == Some(url),
    ensures
        login_step.1 matches LoginAction::Respond(Ok(answer)) && answer@ == "Please login at: "@ + url,
        redirect_step.1 matches RedirectAction::RequestToken { form, .. } && form@[2].1@ == uri,
{
    lemma_login_answer_from_origin(
        login,
        origin,
        login_step,
        base,
        uri,
        with_client,
        with_response_type,
        with_redirect_uri,
        with_scope,
        url,
    );
    lemma_token_request_from_origin(redirect, origin, redirect_step);
}

} // verus!

