//! Verified core of the SMS Groups service: configuration values, the
//! organization and admin documents, the OpenID Connect login flows and
//! the authorization checks of the REST API.

mod text;
pub use text::{decimal, decimal_value, digit_char, digit_value, lemma_decimal_round_trip};

mod config;
pub use config::{
    address, lemma_address_splits_at_last_colon, AdminCredentials, ApiConfig, HostPort, InstrumentationConfig, MongoDbConfig,
    ObservabilityConfig, OpenApiConfig, RootCredentials, SmsGroupsConfig, SurrealDbConfig,
    CONFIG_PATH, TEST_CONTAINER_HOST,
};

mod object_id;
pub use object_id::{hex, hex_digit, lemma_hex_len, ObjectId};

mod documents;
pub use documents::{DbDocument, MongoDbDocument};

mod organization;
pub use organization::{
    lemma_implies_compares_every_field, Admin, AuthorizationServer, CreateOrganization, Organization,
};

mod urls;
pub use urls::{opt_view, url_append_pair, url_join};

mod paths;
pub use paths::{path_join, path_parent, repo_root_of, ProjectPaths};

mod auth;
pub use auth::{
    api_checker, check_result, error_message, group_name, lemma_user_token_checks,
    logged_in_message, logged_in_text, Group, ServiceError, SmsGroupsJwt,
};

mod openid;
pub use openid::{
    authorization_url, generate_authorization_request_url, lemma_authorization_url_pairs,
    lemma_metadata_url_trailing_slash,
    metadata_url, provider_metadata_url, redirect_base, redirect_base_of, redirect_uri,
    redirect_uri_of, scope_of, then_append, token_request_form, validate_response,
    OpenIdProviderMetadatda, OPENID_DISCOVERY_POSTFIX,
};

mod flows;
pub use flows::{
    create_sms_groups_jwt, lemma_login_answer_from_origin,
    lemma_login_gives_up_without_redirect_base, lemma_login_redirect_uri_is_token_redirect_uri,
    lemma_token_request_from_origin, lemma_token_request_matches_authorization_request, login_answer, origin_redirect_uri, LoginAction, LoginEvent,
    LoginFlow, LoginStage, RedirectAction, RedirectEvent, RedirectFlow, RedirectStage,
};
