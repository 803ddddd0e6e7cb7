use vstd::prelude::*;
use vstd::string::*;

use crate::object_id::ObjectId;
use crate::organization::{Admin, CreateOrganization, Organization};
use crate::paths::{join_path, path_join};
use crate::text::{decimal, decimal_value, lemma_decimal_round_trip, push_decimal};

verus! {

/// The file that holds the configuration, relative to the repository's root.
pub const CONFIG_PATH: &'static str = "sms_groups_config.yaml";

/// The host a test container is reached at.
pub const TEST_CONTAINER_HOST: &'static str = "127.0.0.1";

/// A host name together with a TCP port.
pub struct HostPort {
    pub host: String,
    pub port: u16,
}

/// How the OpenAPI service describes itself and where its Swagger UI lives.
pub struct OpenApiConfig {
    pub service_name: String,
    pub swagger_ui_path: String,
    pub version: String,
}

/// Where the MongoDB server runs, the name the service gives itself there,
/// and the database it uses.
pub struct MongoDbConfig {
    pub host_port: HostPort,
    pub application: String,
    pub database: String,
}

/// Where the SurrealDB server runs and how the service signs in to it.
pub struct SurrealDbConfig {
    pub username: String,
    pub password: String,
    pub host_port: HostPort,
    pub namespace: String,
    pub database: String,
}

/// The administrator that is created together with the root organization.
pub struct AdminCredentials {
    /// The administrator's identifier at the organization's identity provider.
    pub idp_id: String,
    pub name: String,
}

/// The root organization and its administrator.
pub struct RootCredentials {
    pub organization: CreateOrganization,
    pub admin: AdminCredentials,
}

/// The configuration of the REST API.
pub struct ApiConfig {
    /// The serialization of the URL under which the service is reached.
    pub origin: String,
    pub open_api: OpenApiConfig,
    pub server: HostPort,
    pub mongodb: MongoDbConfig,
    pub root_credentials: RootCredentials,
}

/// Where the instrumentation writes its log files.
pub struct InstrumentationConfig {
    pub log_dir: String,
}

/// Where the observability output is written.
pub struct ObservabilityConfig {
    pub log_dir: String,
}

/// The whole configuration of the service.
pub struct SmsGroupsConfig {
    pub observability: InstrumentationConfig,
    pub api: ApiConfig,
}

/// The `host:port` address of a host and a port.
pub open spec fn address(host: Seq<char>, port: u16) -> Seq<char> {
    host + seq![':'] + decimal(port as nat)
}

/// An address splits at its last `:` into the host and the decimal form of
/// the port, also where the host holds a `:` itself.
pub proof fn lemma_address_splits_at_last_colon(host: Seq<char>, port: u16)
    ensures
        address(host, port).len() == host.len() + 1 + decimal(port as nat).len(),
        address(host, port).subrange(0, host.len() as int) == host,
        address(host, port)[host.len() as int] == ':',
        forall|i: int|
            host.len() < i < address(host, port).len() ==> #[trigger] address(host, port)[i] != ':',
        decimal_value(address(host, port).subrange(host.len() as int + 1, address(host, port).len() as int))
            == port,
{
    let a = address(host, port);
    let d = decimal(port as nat);
    lemma_decimal_round_trip(port as nat);
    assert(a.subrange(0, host.len() as int) =~= host);
    assert(a.subrange(host.len() as int + 1, a.len() as int) =~= d);
    assert forall|i: int| host.len() < i < a.len() implies #[trigger] a[i] != ':' by {
        assert(a[i] == d[i - host.len() - 1]);
    }
}

impl HostPort {
    /// The address `host:port`, the port written in decimal.
    pub fn combined_address(&self) -> (r: String)
        ensures
            r@ == address(self.host@, self.port),
    {
        let mut r = self.host.clone();
        r.append(":");
        proof {
            reveal_strlit(":");
        }
        push_decimal(&mut r, self.port);
        r
    }
}

impl ApiConfig {
    /// The address the server listens on.
    pub fn combined_address(&self) -> (r: String)
        ensures
            r@ == address(self.server.host@, self.server.port),
    {
        self.server.combined_address()
    }
}

impl MongoDbConfig {
    /// The connection string `mongodb://host:port`.
    pub fn connection_string(&self) -> (r: String)
        ensures
            r@ == "mongodb://"@ + address(self.host_port.host@, self.host_port.port),
    {
        let mut r = String::from_str("mongodb://");
        let a = self.host_port.combined_address();
        r.append(a.as_str());
        r
    }

    /// The same configuration, pointed at a test container that publishes
    /// the database on `port` of the local host.
    pub fn with_test_container_port(self, port: u16) -> (r: MongoDbConfig)
        ensures
            r.host_port.host@ == TEST_CONTAINER_HOST@,
            r.host_port.port == port,
            r.application@ == self.application@,
            r.database@ == self.database@,
    {
        MongoDbConfig {
            host_port: HostPort { host: String::from_str(TEST_CONTAINER_HOST), port },
            application: self.application,
            database: self.database,
        }
    }
}

impl InstrumentationConfig {
    /// The log file of a service: `<service_name>.log` in the log directory.
    pub fn log_file_path(&self, service_name: &str) -> (r: String)
        ensures
            r@ == path_join(self.log_dir@, service_name@ + ".log"@),
    {
        let mut file_name = String::from_str(service_name);
        file_name.append(".log");
        join_path(self.log_dir.as_str(), file_name.as_str())
    }
}

impl SmsGroupsConfig {
    /// The configuration file's path under the repository's root.
    pub fn config_path(repo_root: &str) -> (r: String)
        ensures
            r@ == path_join(repo_root@, CONFIG_PATH@),
    {
        join_path(repo_root, CONFIG_PATH)
    }
}

impl CreateOrganization {
    /// The organization this request describes, under the identifier `id`
    /// and the parent `parent_id`.
    pub fn into_organization(self, id: ObjectId, parent_id: Option<ObjectId>) -> (r: Organization)
        ensures
            self.spec_implies(&r),
            r.id == id,
            r.parent_id == parent_id,
    {
        Organization {
            id,
            parent_id,
            name: self.name,
            authorization_server: self.authorization_server,
        }
    }
}

impl RootCredentials {
    /// The root organization: a fresh identifier from `ObjectId::generate`,
    /// no parent, and the name and authorization server of the configured
    /// request; `CreateOrganization::into_organization` builds it under a
    /// given identifier.
    pub fn root_organization(organization: CreateOrganization) -> (r: Organization)
        ensures
            organization.spec_implies(&r),
            r.parent_id is None,
    {
        organization.into_organization(ObjectId::generate(), None)
    }

    /// The root administrator: a fresh identifier from `ObjectId::generate`,
    /// the configured identity provider identifier and name, and the
    /// organization `organization`.
    pub fn root_admin(admin: AdminCredentials, organization: ObjectId) -> (r: Admin)
        ensures
            r.idp_id@ == admin.idp_id@,
            r.name@ == admin.name@,
            r.organization == organization,
    {
        Self::root_admin_with_id(admin, organization, ObjectId::generate())
    }

    /// The root administrator under the identifier `id`, with the configured
    /// identity provider identifier and name, and the organization
    /// `organization`.
    pub fn root_admin_with_id(admin: AdminCredentials, organization: ObjectId, id: ObjectId) -> (r: Admin)
        ensures
            r.id == id,
            r.idp_id@ == admin.idp_id@,
            r.name@ == admin.name@,
            r.organization == organization,
    {
        Admin { id, idp_id: admin.idp_id, name: admin.name, organization }
    }
}

} // verus!
