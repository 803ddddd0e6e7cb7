use sms_groups::{
    generate_authorization_request_url, provider_metadata_url, redirect_base, redirect_uri,
    token_request_form, validate_response, AuthorizationServer, Group, ObjectId, Organization,
};

fn organization() -> Organization {
    Organization {
        id: ObjectId::from_bytes([1; 12]),
        parent_id: None,
        name: "acme".to_string(),
        authorization_server: AuthorizationServer {
            issuer_url: "https://idm.acme.org/oauth2/openid/sms_groups".to_string(),
            client_id: "sms_groups".to_string(),
            client_password: "SECRET-REDACTED".to_string(),
        },
    }
}

#[test]
fn builds_metadata_url_from_issuer() {
    assert_eq!(
        provider_metadata_url("https://idm.acme.org/oauth2/openid/sms_groups"),
        "https://idm.acme.org/oauth2/openid/sms_groups/.well-known/openid-configuration"
    );
    assert_eq!(
        provider_metadata_url("https://idm.acme.org/"),
        "https://idm.acme.org/.well-known/openid-configuration"
    );
    assert_eq!(provider_metadata_url(""), "/.well-known/openid-configuration");
}

#[test]
fn trailing_slash_does_not_change_metadata_url() {
    assert_eq!(provider_metadata_url("https://idm.example.com/issuer"), provider_metadata_url("https://idm.example.com/issuer/"));
}

#[test]
fn builds_redirect_uris_under_origin() {
    let base = redirect_base("http://localhost:3000").unwrap();
    assert_eq!(base, "http://localhost:3000/redirect/");
    assert_eq!(redirect_uri(&base, Group::User).unwrap(), "http://localhost:3000/redirect/user");
    assert_eq!(redirect_uri(&base, Group::Admin).unwrap(), "http://localhost:3000/redirect/admin");
    let base = redirect_base("https://sms.example.com/api/").unwrap();
    assert_eq!(base, "https://sms.example.com/api/redirect/");
}

#[test]
fn refuses_redirect_base_of_non_url() {
    assert_eq!(redirect_base("not a url"), None);
    assert_eq!(redirect_uri("mailto:someone@example.com", Group::User), None);
}

#[test]
fn builds_authorization_request_url() {
    let url = generate_authorization_request_url(
        "https://idm.acme.org/ui/oauth2",
        &organization(),
        Group::User,
        "http://localhost:3000/redirect/user",
    )
    .unwrap();
    assert_eq!(
        url,
        "https://idm.acme.org/ui/oauth2?cliend_it=sms_groups&response_type=code&redirect_uri=http%3A%2F%2Flocalhost%3A3000%2Fredirect%2Fuser&scope=openid+user&state=acme"
    );
    let url = generate_authorization_request_url("https://idm/auth?prompt=login", &organization(), Group::Admin, "r").unwrap();
    assert_eq!(url, "https://idm/auth?prompt=login&cliend_it=sms_groups&response_type=code&redirect_uri=r&scope=openid+admin&state=acme");
}

#[test]
fn refuses_authorization_request_on_invalid_endpoint() {
    assert_eq!(generate_authorization_request_url("no endpoint", &organization(), Group::User, "r"), None);
}

#[test]
fn builds_token_request_form() {
    let form = token_request_form("abc123".to_string(), "http://localhost:3000/redirect/user".to_string());
    assert_eq!(
        form,
        vec![
            ("grant_type".to_string(), "authorization_code".to_string()),
            ("code".to_string(), "abc123".to_string()),
            ("redirect_uri".to_string(), "http://localhost:3000/redirect/user".to_string()),
        ]
    );
}

#[test]
fn accepts_every_token_response() {
    assert!(validate_response("{\"access_token\":\"x\"}").is_ok());
    assert!(validate_response("").is_ok());
}
