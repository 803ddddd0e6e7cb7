use sms_groups::{
    Admin, AdminCredentials, AuthorizationServer, CreateOrganization, DbDocument, MongoDbDocument,
    ObjectId, Organization, RootCredentials,
};

fn server(issuer: &str) -> AuthorizationServer {
    AuthorizationServer {
        issuer_url: issuer.to_string(),
        client_id: "sms_groups".to_string(),
        client_password: "SECRET-REDACTED".to_string(),
    }
}

fn id(last: u8) -> ObjectId {
    ObjectId::from_bytes([0x65, 0x9f, 0x1c, 0x2a, 0x01, 0x02, 0x03, 0x04, 0x05, 0xab, 0xcd, last])
}

#[test]
fn writes_object_id_in_hex() {
    assert_eq!(id(0xef).to_hex(), "659f1c2a0102030405abcdef");
    assert_eq!(ObjectId::from_bytes([0; 12]).to_hex(), "000000000000000000000000");
    assert_eq!(ObjectId::from_bytes([255; 12]).to_hex(), "ffffffffffffffffffffffff");
}

#[test]
fn compares_object_ids_by_bytes() {
    assert!(id(1) == id(1));
    assert!(id(1) != id(2));
}

#[test]
fn creation_request_implies_matching_organization() {
    let request = CreateOrganization { name: "acme".to_string(), authorization_server: server("https://idm.acme.org/") };
    let organization = Organization {
        id: id(1),
        parent_id: None,
        name: "acme".to_string(),
        authorization_server: server("https://idm.acme.org/"),
    };
    assert!(request.implies(organization));
}

#[test]
fn creation_request_does_not_imply_other_organization() {
    let request = CreateOrganization { name: "acme".to_string(), authorization_server: server("https://idm.acme.org/") };
    let other_name = Organization {
        id: id(1),
        parent_id: None,
        name: "globex".to_string(),
        authorization_server: server("https://idm.acme.org/"),
    };
    assert!(!request.implies(other_name));
    let other_server = Organization {
        id: id(1),
        parent_id: Some(id(2)),
        name: "acme".to_string(),
        authorization_server: server("https://idm.globex.org/"),
    };
    assert!(!request.implies(other_server));
}

#[test]
fn compares_authorization_servers_by_fields() {
    assert!(server("https://a/") == server("https://a/"));
    assert!(server("https://a/") != server("https://b/"));
    let mut other = server("https://a/");
    other.client_password = "other".to_string();
    assert!(server("https://a/") != other);
}

#[test]
fn builds_root_documents() {
    let request = CreateOrganization { name: "root".to_string(), authorization_server: server("https://idm.example.com/") };
    let organization = RootCredentials::root_organization(request);
    assert_eq!(organization.name, "root");
    assert!(organization.parent_id.is_none());
    assert!(organization.authorization_server == server("https://idm.example.com/"));
    let request = CreateOrganization { name: "root".to_string(), authorization_server: server("https://idm.example.com/") };
    let organization_id = organization.id;
    assert!(request.implies(organization));

    let admin = RootCredentials::root_admin(
        AdminCredentials { idp_id: "7f3c2a".to_string(), name: "root-admin".to_string() },
        organization_id,
    );
    assert_eq!(admin.idp_id, "7f3c2a");
    assert_eq!(admin.name, "root-admin");
    assert!(admin.organization == organization_id);
    let other = RootCredentials::root_admin(
        AdminCredentials { idp_id: "7f3c2a".to_string(), name: "root-admin".to_string() },
        organization_id,
    );
    assert!(admin.id != other.id);
}

#[test]
fn root_admin_with_id_keeps_the_given_id() {
    let admin = RootCredentials::root_admin_with_id(
        AdminCredentials { idp_id: "7f3c2a".to_string(), name: "root-admin".to_string() },
        id(5),
        id(6),
    );
    assert!(admin.id == id(6));
    assert!(admin.organization == id(5));
    assert_eq!(admin.idp_id, "7f3c2a");
    assert_eq!(admin.name, "root-admin");
}

#[test]
fn into_organization_keeps_identifiers() {
    let request = CreateOrganization { name: "branch".to_string(), authorization_server: server("https://idm/") };
    let organization = request.into_organization(id(3), Some(id(4)));
    assert!(organization.id == id(3));
    assert!(organization.parent_id == Some(id(4)));
    assert_eq!(organization.name, "branch");
}

#[test]
fn names_collections() {
    assert_eq!(<Organization as MongoDbDocument>::COLLECTION_NAME, "organization");
    assert_eq!(<Admin as MongoDbDocument>::COLLECTION_NAME, "admin");
    assert_eq!(<Organization as DbDocument>::NAME, "organization");
    let admin = Admin { id: id(9), idp_id: "i".to_string(), name: "a".to_string(), organization: id(8) };
    assert!(DbDocument::id(&admin) == id(9));
}
