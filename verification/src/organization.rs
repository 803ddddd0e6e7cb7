use vstd::prelude::*;
use vstd::std_specs::cmp::PartialEqSpec;

use crate::documents::{DbDocument, MongoDbDocument};
use crate::object_id::ObjectId;

verus! {

/// The OpenID Connect provider through which the members of an organization
/// sign in, and the client credentials the service holds there.
pub struct AuthorizationServer {
    /// The serialization of the issuer's URL.
    pub issuer_url: String,
    pub client_id: String,
    pub client_password: String,
}

impl AuthorizationServer {
    /// The three fields, as character sequences.
    pub open spec fn view_fields(&self) -> (Seq<char>, Seq<char>, Seq<char>) {
        (self.issuer_url@, self.client_id@, self.client_password@)
    }
}

impl PartialEq for AuthorizationServer {
    fn eq(&self, other: &Self) -> (r: bool) {
        self.issuer_url == other.issuer_url && self.client_id == other.client_id
            && self.client_password == other.client_password
    }
}

impl vstd::std_specs::cmp::PartialEqSpecImpl for AuthorizationServer {
    open spec fn obeys_eq_spec() -> bool {
        true
    }

    open spec fn eq_spec(&self, other: &Self) -> bool {
        self.view_fields() == other.view_fields()
    }
}

/// An organization whose members use the service.
pub struct Organization {
    pub id: ObjectId,
    /// `None` for the root organization.
    pub parent_id: Option<ObjectId>,
    pub name: String,
    pub authorization_server: AuthorizationServer,
}

/// What is needed to create an organization.
pub struct CreateOrganization {
    pub name: String,
    pub authorization_server: AuthorizationServer,
}

/// An administrator of an organization.
pub struct Admin {
    pub id: ObjectId,
    /// The administrator's identifier at the organization's identity provider.
    pub idp_id: String,
    pub name: String,
    pub organization: ObjectId,
}

impl CreateOrganization {
    /// Whether `organization` is what this request describes: the same name
    /// and the same authorization server.
    pub open spec fn spec_implies(&self, organization: &Organization) -> bool {
        &&& self.name@ == organization.name@
        &&& self.authorization_server.view_fields() == organization.authorization_server.view_fields()
    }

    /// Whether `organization` carries the name and the authorization server
    /// of this request.
    pub fn implies(&self, organization: Organization) -> (r: bool)
        ensures
            r == self.spec_implies(&organization),
    {
        self.name == organization.name && self.authorization_server == organization.authorization_server
    }
}

/// A creation request implies an organization exactly when the names, the
/// issuer URLs, the client identifiers and the client passwords are all
/// equal.
pub proof fn lemma_implies_compares_every_field(request: CreateOrganization, organization: Organization)
    ensures
        request.spec_implies(&organization) <==> {
            &&& request.name@ == organization.name@
            &&& request.authorization_server.issuer_url@ == organization.authorization_server.issuer_url@
            &&& request.authorization_server.client_id@ == organization.authorization_server.client_id@
            &&& request.authorization_server.client_password@
                == organization.authorization_server.client_password@
        },
        request.spec_implies(&organization) <==> {
            &&& request.name@ == organization.name@
            &&& request.authorization_server.eq_spec(&organization.authorization_server)
        },
{
}

impl MongoDbDocument for Organization {
    const COLLECTION_NAME: &'static str = "organization";

    type Id = ObjectId;
}

impl MongoDbDocument for Admin {
    const COLLECTION_NAME: &'static str = "admin";

    type Id = ObjectId;
}

impl DbDocument for Organization {
    const NAME: &'static str = "organization";

    type Id = ObjectId;

    fn id(&self) -> (r: ObjectId)
        ensures
            r == self.id,
    {
        self.id
    }
}

impl DbDocument for Admin {
    const NAME: &'static str = "admin";

    type Id = ObjectId;

    fn id(&self) -> (r: ObjectId)
        ensures
            r == self.id,
    {
        self.id
    }
}

} // verus!
