use sms_groups::{
    api_checker, AuthorizationServer, Group, LoginAction, LoginEvent, LoginFlow, ObjectId,
    OpenIdProviderMetadatda, Organization, RedirectAction, RedirectEvent, RedirectFlow,
    ServiceError,
};

const ORIGIN: &str = "http://localhost:3000";

fn organization() -> Organization {
    Organization {
        id: ObjectId::from_bytes([7; 12]),
        parent_id: None,
        name: "acme".to_string(),
        authorization_server: AuthorizationServer {
            issuer_url: "https://idm.acme.org/oauth2/openid/sms_groups".to_string(),
            client_id: "sms_groups".to_string(),
            client_password: "SECRET-REDACTED".to_string(),
        },
    }
}

fn metadata() -> OpenIdProviderMetadatda {
    OpenIdProviderMetadatda {
        issuer: "https://idm.acme.org/oauth2/openid/sms_groups".to_string(),
        authorization_endpoint: "https://idm.acme.org/ui/oauth2".to_string(),
        token_endpoint: "https://idm.acme.org/oauth2/token".to_string(),
        userinfo_endpoint: None,
        jwks_uri: "https://idm.acme.org/oauth2/openid/sms_groups/public_key.jwk".to_string(),
        scopes_supported: vec!["openid".to_string()],
    }
}

fn fetch_login(origin: &str) -> LoginAction {
    let (flow, _) = LoginFlow::start("acme".to_string());
    let (flow, _) = flow.step(LoginEvent::OrganizationFound(organization()));
    let (flow, action) = flow.step(LoginEvent::MetadataFetched(metadata()));
    assert!(matches!(action, LoginAction::ReadOrigin));
    let (_, action) = flow.step(LoginEvent::OriginRead(origin.to_string()));
    action
}

fn redirect_until_origin() -> RedirectFlow {
    let (flow, _) = RedirectFlow::start("code-42".to_string(), "acme".to_string());
    let (flow, _) = flow.step(RedirectEvent::OrganizationFound(organization()));
    let (flow, action) = flow.step(RedirectEvent::MetadataFetched(metadata()));
    assert!(matches!(action, RedirectAction::ReadOrigin));
    flow
}

fn respond_text(action: LoginAction) -> Result<String, ServiceError> {
    match action {
        LoginAction::Respond(answer) => answer,
        _ => panic!("expected an answer"),
    }
}

#[test]
fn login_answers_with_authorization_url() {
    let (flow, action) = LoginFlow::start("acme".to_string());
    assert!(matches!(&action, LoginAction::FindOrganization(name) if name == "acme"));
    let event = LoginEvent::OrganizationFound(organization());
    assert!(flow.accepts_event(&event));
    let (flow, action) = flow.step(event);
    assert!(matches!(&action, LoginAction::FetchProviderMetadata(url)
        if url == "https://idm.acme.org/oauth2/openid/sms_groups/.well-known/openid-configuration"));
    let event = LoginEvent::MetadataFetched(metadata());
    assert!(flow.accepts_event(&event));
    let (flow, action) = flow.step(event);
    assert!(matches!(action, LoginAction::ReadOrigin));
    let event = LoginEvent::OriginRead(ORIGIN.to_string());
    assert!(flow.accepts_event(&event));
    let (flow, action) = flow.step(event);
    assert_eq!(
        respond_text(action).ok().unwrap(),
        "Please login at: https://idm.acme.org/ui/oauth2?cliend_it=sms_groups&response_type=code&redirect_uri=http%3A%2F%2Flocalhost%3A3000%2Fredirect%2Fuser&scope=openid+user&state=acme"
    );
    assert!(!flow.accepts_event(&LoginEvent::OrganizationMissing));
}

#[test]
fn login_refuses_unknown_organization() {
    let (flow, _) = LoginFlow::start("globex".to_string());
    let (flow, action) = flow.step(LoginEvent::OrganizationMissing);
    let error = respond_text(action).unwrap_err();
    assert_eq!(error.message(), "No organization found with name: globex");
    assert!(!flow.accepts_event(&LoginEvent::MetadataFetched(metadata())));
}

#[test]
fn login_reports_failures() {
    let (flow, _) = LoginFlow::start("acme".to_string());
    assert!(!flow.accepts_event(&LoginEvent::MetadataFailed("x".to_string())));
    let (_, action) = flow.step(LoginEvent::DatabaseFailed);
    assert!(matches!(respond_text(action), Err(ServiceError::Database)));

    let (flow, _) = LoginFlow::start("acme".to_string());
    let (flow, _) = flow.step(LoginEvent::OrganizationFound(organization()));
    let (_, action) = flow.step(LoginEvent::MetadataFailed("unable to request provider metadata".to_string()));
    assert_eq!(respond_text(action).unwrap_err().message(), "unable to request provider metadata");

    let (flow, _) = LoginFlow::start("acme".to_string());
    let (flow, _) = flow.step(LoginEvent::OrganizationFound(organization()));
    let (flow, _) = flow.step(LoginEvent::MetadataFetched(metadata()));
    let (_, action) = flow.step(LoginEvent::ConfigurationFailed("Failed to read config from /x".to_string()));
    assert_eq!(respond_text(action).unwrap_err().message(), "Failed to read config from /x");
}

#[test]
fn login_gives_up_on_origin_without_redirect_base() {
    assert!(matches!(fetch_login("mailto:nobody"), LoginAction::Abort));
    assert!(matches!(fetch_login("not a url"), LoginAction::Abort));
}

#[test]
fn redirect_trades_code_for_service_token() {
    let (flow, action) = RedirectFlow::start("code-42".to_string(), "acme".to_string());
    assert!(matches!(&action, RedirectAction::FindOrganization(name) if name == "acme"));
    let (flow, action) = flow.step(RedirectEvent::OrganizationFound(organization()));
    assert!(matches!(&action, RedirectAction::FetchProviderMetadata(url)
        if url == "https://idm.acme.org/oauth2/openid/sms_groups/.well-known/openid-configuration"));
    let (flow, action) = flow.step(RedirectEvent::MetadataFetched(metadata()));
    assert!(matches!(action, RedirectAction::ReadOrigin));
    let (flow, action) = flow.step(RedirectEvent::OriginRead(ORIGIN.to_string()));
    match action {
        RedirectAction::RequestToken { token_endpoint, client_id, client_password, form } => {
            assert_eq!(token_endpoint, "https://idm.acme.org/oauth2/token");
            assert_eq!(client_id, "sms_groups");
            assert_eq!(client_password, "SECRET-REDACTED");
            assert_eq!(
                form,
                vec![
                    ("grant_type".to_string(), "authorization_code".to_string()),
                    ("code".to_string(), "code-42".to_string()),
                    ("redirect_uri".to_string(), "http://localhost:3000/redirect/user".to_string()),
                ]
            );
        }
        _ => panic!("expected a token request"),
    }
    let event = RedirectEvent::TokenReceived("{\"access_token\":\"abc\"}".to_string());
    assert!(flow.accepts_event(&event));
    let (flow, action) = flow.step(event);
    let claims = match action {
        RedirectAction::SignToken(claims) => claims,
        _ => panic!("expected claims to sign"),
    };
    assert_eq!(claims.group, Group::User);
    assert!(matches!(api_checker(Group::User, Some(claims)), Ok(id) if id == claims.id));
    assert!(api_checker(Group::Admin, Some(claims)).is_err());
    let (flow, action) = flow.step(RedirectEvent::TokenSigned("eyJ.abc.def".to_string()));
    match action {
        RedirectAction::Respond(Ok(answer)) => assert_eq!(answer, "Bearer token: eyJ.abc.def"),
        _ => panic!("expected an answer"),
    }
    assert!(!flow.accepts_event(&RedirectEvent::TokenSigned("again".to_string())));
}

#[test]
fn redirect_refuses_unknown_organization() {
    let (flow, _) = RedirectFlow::start("c".to_string(), "globex".to_string());
    let (_, action) = flow.step(RedirectEvent::OrganizationMissing);
    match action {
        RedirectAction::Respond(Err(error)) => assert_eq!(error.message(), "No organization found with name: globex"),
        _ => panic!("expected a refusal"),
    }
}

#[test]
fn redirect_reports_failures() {
    let flow = redirect_until_origin();
    let (flow, _) = flow.step(RedirectEvent::OriginRead(ORIGIN.to_string()));
    assert!(!flow.accepts_event(&RedirectEvent::TokenSigned("t".to_string())));
    let (_, action) = flow.step(RedirectEvent::TokenRequestFailed("unable to send token request".to_string()));
    assert!(matches!(action, RedirectAction::Respond(Err(ServiceError::TokenRequest(why))) if why == "unable to send token request"));

    let (flow, _) = RedirectFlow::start("c".to_string(), "acme".to_string());
    let (_, action) = flow.step(RedirectEvent::DatabaseFailed);
    assert!(matches!(action, RedirectAction::Respond(Err(ServiceError::Database))));

    let flow = redirect_until_origin();
    let (flow, _) = flow.step(RedirectEvent::OriginRead(ORIGIN.to_string()));
    let (flow, _) = flow.step(RedirectEvent::TokenReceived(String::new()));
    let (_, action) = flow.step(RedirectEvent::SigningFailed("bad key".to_string()));
    assert!(matches!(action, RedirectAction::Respond(Err(ServiceError::Signing(why))) if why == "bad key"));
}

#[test]
fn redirect_gives_up_without_redirect_uri() {
    let (flow, action) = redirect_until_origin().step(RedirectEvent::OriginRead("mailto:nobody".to_string()));
    assert!(matches!(action, RedirectAction::Abort));
    assert!(!flow.accepts_event(&RedirectEvent::TokenReceived(String::new())));
    let (_, action) = redirect_until_origin().step(RedirectEvent::ConfigurationFailed("no file".to_string()));
    assert!(matches!(action, RedirectAction::Abort));
}

#[test]
fn login_and_redirect_use_same_redirect_uri() {
    let origin = "https://sms.example.com";
    let answer = respond_text(fetch_login(origin)).ok().unwrap();
    assert!(answer.contains("redirect_uri=https%3A%2F%2Fsms.example.com%2Fredirect%2Fuser&"));

    let (_, action) = redirect_until_origin().step(RedirectEvent::OriginRead(origin.to_string()));
    match action {
        RedirectAction::RequestToken { form, .. } => {
            assert_eq!(form[2], ("redirect_uri".to_string(), "https://sms.example.com/redirect/user".to_string()))
        }
        _ => panic!("expected a token request"),
    }
}

#[test]
fn issued_claims_carry_the_given_id() {
    let id = ObjectId::from_bytes([0x65, 1, 2, 3, 4, 5, 6, 7, 8, 9, 10, 11]);
    let claims = sms_groups::create_sms_groups_jwt(id);
    assert_eq!(claims.group, Group::User);
    assert!(claims.id == id);

    let (flow, _) = redirect_until_origin().step(RedirectEvent::OriginRead(ORIGIN.to_string()));
    let (_, action) = flow.step_with_id(RedirectEvent::TokenReceived("{}".to_string()), id);
    match action {
        RedirectAction::SignToken(claims) => {
            assert_eq!(claims.group, Group::User);
            assert!(claims.id == id);
        }
        _ => panic!("expected claims to sign"),
    }
}

#[test]
fn redirect_draws_a_fresh_id_per_token() {
    let (flow, _) = redirect_until_origin().step(RedirectEvent::OriginRead(ORIGIN.to_string()));
    let (_, first) = flow.step(RedirectEvent::TokenReceived(String::new()));
    let (flow, _) = redirect_until_origin().step(RedirectEvent::OriginRead(ORIGIN.to_string()));
    let (_, second) = flow.step(RedirectEvent::TokenReceived(String::new()));
    match (first, second) {
        (RedirectAction::SignToken(a), RedirectAction::SignToken(b)) => assert!(a.id != b.id),
        _ => panic!("expected claims to sign"),
    }
}
