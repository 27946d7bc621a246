//! The infrastructure configuration of a self-hosted application, and its
//! mapping to the deployment descriptor of [`crate::runtime`].
//!
//! A configuration names servers, credentials, topics and buckets. The
//! mapping issues resource identifiers in order from `0`, one to each
//! resource and credential that is referred to by it, stores every
//! credential once and lets the resources that use it refer to it by its
//! identifier.
//!
//! Where the configuration keys entries by name, the entries are kept as a
//! list of pairs, in the order in which they are to be mapped. In a
//! configuration that is well formed, [`InfraConfig::wf`], no such list
//! holds a name twice.
use vstd::prelude::*;
use vstd::string::*;
use vstd::utf8::encode_utf8;
use crate::infracfg::deploy::auth_methods_of;
use crate::infracfg::deploy::cors_of;
use crate::infracfg::deploy::environment_of;
use crate::infracfg::deploy::graceful_shutdown_of;
use crate::infracfg::deploy::hosted_services_of;
use crate::infracfg::deploy::map_auth_methods;
use crate::infracfg::deploy::map_cors;
use crate::infracfg::deploy::map_environment;
use crate::infracfg::deploy::map_graceful_shutdown;
use crate::infracfg::deploy::map_hosted_services;
use crate::infracfg::deploy::map_service_discovery;
use crate::infracfg::deploy::service_discovery_of;
use crate::infracfg::observe::base_url_of;
use crate::infracfg::observe::gateway_rids;
use crate::infracfg::observe::gateways_demand;
use crate::infracfg::observe::gateways_of;
use crate::infracfg::observe::map_base_url;
use crate::infracfg::observe::map_gateways;
use crate::infracfg::observe::map_metrics;
use crate::infracfg::observe::metrics_demand;
use crate::infracfg::observe::metrics_of;
use crate::infracfg::pubsub::map_pubsub;
use crate::infracfg::pubsub::pubsub_total_demand;
use crate::infracfg::pubsub::pubsub_of;
use crate::infracfg::redis::map_redis;
use crate::infracfg::redis::redis_certs;
use crate::infracfg::redis::redis_complete;
use crate::infracfg::redis::redis_of;
use crate::infracfg::redis::redis_roles;
use crate::infracfg::redis::redis_total_demand;
use crate::infracfg::secrets::app_secrets_of;
use crate::infracfg::secrets::env_secrets_listed;
use crate::infracfg::secrets::map_secrets;
use crate::infracfg::secrets::read_env_secrets;
use crate::infracfg::sql::map_sql_servers;
use crate::infracfg::sql::sql_servers_certs;
use crate::infracfg::sql::sql_servers_demand;
use crate::infracfg::sql::sql_servers_of;
use crate::infracfg::sql::sql_servers_roles;
use crate::infracfg::storage::map_object_storage;
use crate::infracfg::storage::object_storage_demand;
use crate::infracfg::storage::object_storage_of;
use crate::rid::RidCounter;
use crate::runtime;
use crate::runtime::ClientCertView;
use crate::runtime::Credentials;
use crate::runtime::CredentialsView;
use crate::runtime::Deployment;
use crate::runtime::DeploymentView;
use crate::runtime::Infrastructure;
use crate::runtime::InfrastructureView;
use crate::runtime::Observability;
use crate::runtime::ObservabilityView;
use crate::runtime::Resources;
use crate::runtime::ResourcesView;
use crate::runtime::RuntimeConfig;
use crate::runtime::RuntimeConfigView;
use crate::runtime::SecretData;
use crate::runtime::SecretDataView;
use crate::runtime::SecretEncoding;
use crate::runtime::SecretSource;
use crate::runtime::SecretSourceView;

pub mod deploy;
pub mod laws;
pub mod observe;
pub mod places;
pub mod pubsub;
pub mod redis;
pub mod secrets;
pub mod sql;
pub mod storage;

verus! {

/// The whole configuration.
#[derive(Debug, Clone, PartialEq, Eq)]
pub struct InfraConfig {
    pub metadata: Option<Metadata>,
    pub graceful_shutdown: Option<GracefulShutdown>,
    pub auth: Option<Vec<Auth>>,
    pub service_discovery: Option<Vec<(String, ServiceDiscovery)>>,
    pub metrics: Option<Metrics>,
    pub sql_servers: Option<Vec<SQLServer>>,
    pub redis: Option<Vec<(String, Redis)>>,
    pub pubsub: Option<Vec<PubSub>>,
    pub secrets: Option<Secrets>,
    pub hosted_services: Option<Vec<String>>,
    pub hosted_gateways: Option<Vec<String>>,
    pub cors: Option<CORS>,
    pub object_storage: Option<Vec<ObjectStorage>>,
    pub worker_threads: Option<i32>,
    pub log_config: Option<String>,
}

/// A provider of object storage with its buckets.
#[derive(Debug, Clone, PartialEq, Eq)]
pub enum ObjectStorage {
    GCS(GCS),
    S3(S3),
}

/// Buckets in Google Cloud Storage, by their names in the application.
#[derive(Debug, Clone, PartialEq, Eq)]
pub struct GCS {
    pub endpoint: Option<String>,
    pub buckets: Vec<(String, Bucket)>,
}

/// Buckets in S3, by their names in the application.
#[derive(Debug, Clone, PartialEq, Eq)]
pub struct S3 {
    pub region: String,
    pub endpoint: Option<String>,
    pub access_key_id: Option<String>,
    pub secret_access_key: Option<EnvString>,
    pub buckets: Vec<(String, Bucket)>,
}

/// A bucket as the provider knows it.
#[derive(Debug, Clone, PartialEq, Eq)]
pub struct Bucket {
    pub name: String,
    pub key_prefix: Option<String>,
    pub public_base_url: Option<String>,
}

/// What the application and its environment are called.
#[derive(Debug, Clone, PartialEq, Eq, Default)]
pub struct Metadata {
    pub app_id: Option<String>,
    pub env_name: Option<String>,
    pub env_type: Option<String>,
    pub cloud: Option<String>,
    pub base_url: Option<String>,
}

/// The cross-origin rules of the gateways.
#[derive(Debug, Clone, PartialEq, Eq)]
pub struct CORS {
    pub debug: Option<bool>,
    pub allow_headers: Option<Vec<String>>,
    pub expose_headers: Option<Vec<String>>,
    pub allow_origins_without_credentials: Option<Vec<String>>,
    pub allow_origins_with_credentials: Option<Vec<String>>,
}

/// How many seconds each stage of a shutdown may take.
#[derive(Debug, Clone, PartialEq, Eq)]
pub struct GracefulShutdown {
    pub total: Option<i32>,
    pub shutdown_hooks: Option<i32>,
    pub handlers: Option<i32>,
}

/// A way to authenticate calls between services.
#[derive(Debug, Clone, PartialEq, Eq)]
pub enum Auth {
    Key(KeyAuth),
}

/// A numbered signing key.
#[derive(Debug, Clone, PartialEq, Eq)]
pub struct KeyAuth {
    pub id: i32,
    pub key: EnvString,
}

/// Where a service hosted elsewhere is reached.
#[derive(Debug, Clone, PartialEq, Eq)]
pub struct ServiceDiscovery {
    pub base_url: String,
    pub auth: Option<Vec<Auth>>,
}

/// Where metrics are sent.
#[derive(Debug, Clone, PartialEq, Eq)]
pub enum Metrics {
    Prometheus(PrometheusMetrics),
    Datadog(DatadogMetrics),
    GCPCloudMonitoring(GCPCloudMonitoringMetrics),
    AWSCloudWatch(AWSCloudWatchMetrics),
}

/// Metrics are written to a Prometheus remote-write endpoint.
#[derive(Debug, Clone, PartialEq, Eq)]
pub struct PrometheusMetrics {
    pub collection_interval: Option<i32>,
    pub remote_write_url: EnvString,
}

/// Metrics are sent to Datadog.
#[derive(Debug, Clone, PartialEq, Eq)]
pub struct DatadogMetrics {
    pub collection_interval: Option<i32>,
    pub site: String,
    pub api_key: EnvString,
}

/// Metrics are sent to Google Cloud Monitoring.
#[derive(Debug, Clone, PartialEq, Eq)]
pub struct GCPCloudMonitoringMetrics {
    pub collection_interval: Option<i32>,
    pub project_id: String,
    pub monitored_resource_type: String,
    pub monitored_resource_labels: Option<Vec<(String, String)>>,
    pub metric_names: Option<Vec<(String, String)>>,
}

/// Metrics are sent to AWS CloudWatch.
#[derive(Debug, Clone, PartialEq, Eq)]
pub struct AWSCloudWatchMetrics {
    pub collection_interval: Option<i32>,
    pub namespace: String,
}

/// The application's secrets: given one by one, or all of them in one
/// environment variable that holds a JSON object of strings.
#[derive(Debug, Clone, PartialEq, Eq)]
pub enum Secrets {
    Values(Vec<(String, EnvString)>),
    EnvRef(EnvRef),
}

/// The name of an environment variable.
#[derive(Debug, Clone, PartialEq, Eq)]
pub struct EnvRef {
    pub env: String,
}

/// A string given in place, or the environment variable that holds it.
#[derive(Debug, Clone, PartialEq, Eq)]
pub enum EnvString {
    String(String),
    EnvRef(EnvRef),
}

/// A SQL server with its databases, by their names in the application.
#[derive(Debug, Clone, PartialEq, Eq)]
pub struct SQLServer {
    pub host: String,
    pub tls_config: Option<TLSConfig>,
    pub databases: Vec<(String, SQLDatabase)>,
}

/// How to reach a server over TLS.
#[derive(Debug, Clone, PartialEq, Eq)]
pub struct TLSConfig {
    pub disabled: bool,
    pub ca: Option<String>,
    pub client_cert: Option<ClientCert>,
    pub disable_tls_hostname_verification: bool,
    pub disable_ca_validation: bool,
}

/// A database on a SQL server, and the role to connect to it with.
#[derive(Debug, Clone, PartialEq, Eq)]
pub struct SQLDatabase {
    pub name: Option<String>,
    pub max_connections: Option<i32>,
    pub min_connections: Option<i32>,
    pub username: String,
    pub password: EnvString,
    pub client_cert: Option<ClientCert>,
}

/// A Redis database and the server that holds it.
#[derive(Debug, Clone, PartialEq, Eq)]
pub struct Redis {
    pub host: String,
    pub database_index: i32,
    pub auth: Option<RedisAuth>,
    pub key_prefix: Option<String>,
    pub tls_config: Option<TLSConfig>,
    pub max_connections: Option<i32>,
    pub min_connections: Option<i32>,
}

/// How to authenticate with Redis. The mode `"acl"` uses the user name and
/// the password; `"auth_string"`, and any other mode, uses the shared string.
#[derive(Debug, Clone, PartialEq, Eq)]
pub struct RedisAuth {
    pub auth_type: String,
    pub username: Option<String>,
    pub password: Option<EnvString>,
    pub auth_string: Option<EnvString>,
}

/// A client certificate with its private key.
#[derive(Debug, Clone, PartialEq, Eq)]
pub struct ClientCert {
    pub cert: String,
    pub key: EnvString,
}

/// A provider of publish-subscribe messaging with its topics.
#[derive(Debug, Clone, PartialEq, Eq)]
pub enum PubSub {
    GCPPubsub(GCPPubsub),
    AWSSnsSqs(AWSSnsSqs),
    NSQ(NSQPubsub),
}

/// Topics in Google Cloud Pub/Sub, by their names in the application.
#[derive(Debug, Clone, PartialEq, Eq)]
pub struct GCPPubsub {
    pub project_id: String,
    pub topics: Vec<(String, GCPTopic)>,
}

/// A topic in Google Cloud Pub/Sub with its subscriptions, by their names in
/// the application.
#[derive(Debug, Clone, PartialEq, Eq)]
pub struct GCPTopic {
    pub name: String,
    pub project_id: Option<String>,
    pub subscriptions: Vec<(String, GCPSub)>,
}

/// A subscription in Google Cloud Pub/Sub.
#[derive(Debug, Clone, PartialEq, Eq)]
pub struct GCPSub {
    pub name: String,
    pub project_id: Option<String>,
    pub push_config: Option<PushConfig>,
}

/// How Google Cloud Pub/Sub pushes the messages of a subscription.
#[derive(Debug, Clone, PartialEq, Eq)]
pub struct PushConfig {
    pub service_account: String,
    pub jwt_audience: String,
    pub id: String,
}

/// Topics in AWS SNS, by their names in the application.
#[derive(Debug, Clone, PartialEq, Eq)]
pub struct AWSSnsSqs {
    pub topics: Vec<(String, AWSTopic)>,
}

/// A topic in AWS SNS with its subscriptions, by their names in the
/// application.
#[derive(Debug, Clone, PartialEq, Eq)]
pub struct AWSTopic {
    pub arn: String,
    pub subscriptions: Vec<(String, AWSSub)>,
}

/// A subscription in AWS SQS.
#[derive(Debug, Clone, PartialEq, Eq)]
pub struct AWSSub {
    pub arn: String,
}

/// Topics in NSQ, by their names in the application.
#[derive(Debug, Clone, PartialEq, Eq)]
pub struct NSQPubsub {
    pub hosts: String,
    pub topics: Vec<(String, NSQTopic)>,
}

/// A topic in NSQ with its subscriptions, by their names in the
/// application.
#[derive(Debug, Clone, PartialEq, Eq)]
pub struct NSQTopic {
    pub name: String,
    pub subscriptions: Vec<(String, NSQSub)>,
}

/// A subscription in NSQ: a channel.
#[derive(Debug, Clone, PartialEq, Eq)]
pub struct NSQSub {
    pub name: String,
}

/// Whether no name occurs twice among the entries of a list that is
/// keyed by name.
pub open spec fn names_distinct<T>(entries: Seq<(String, T)>) -> bool {
    forall|i: int, j: int| 0 <= i < j < entries.len() ==> (#[trigger] entries[i]).0@ != (#[trigger] entries[j]).0@
}

/// Whether no name occurs twice among the entries of an optional list.
pub open spec fn optional_names_distinct<T>(entries: Option<Vec<(String, T)>>) -> bool {
    match entries {
        Some(entries) => names_distinct(entries@),
        None => true,
    }
}

impl ObjectStorage {
    /// Whether no two buckets go by the same name.
    pub open spec fn wf(self) -> bool {
        match self {
            ObjectStorage::GCS(gcs) => names_distinct(gcs.buckets@),
            ObjectStorage::S3(s3) => names_distinct(s3.buckets@),
        }
    }
}

impl Metrics {
    /// Whether no label and no metric is named twice.
    pub open spec fn wf(self) -> bool {
        match self {
            Metrics::GCPCloudMonitoring(m) => optional_names_distinct(m.monitored_resource_labels)
                && optional_names_distinct(m.metric_names),
            _ => true,
        }
    }
}

impl PubSub {
    /// Whether no two topics go by the same name, nor two subscriptions of
    /// one topic.
    pub open spec fn wf(self) -> bool {
        match self {
            PubSub::GCPPubsub(gcp) => names_distinct(gcp.topics@) && forall|t: int|
                0 <= t < gcp.topics@.len() ==> names_distinct((#[trigger] gcp.topics@[t]).1.subscriptions@),
            PubSub::AWSSnsSqs(aws) => names_distinct(aws.topics@) && forall|t: int|
                0 <= t < aws.topics@.len() ==> names_distinct((#[trigger] aws.topics@[t]).1.subscriptions@),
            PubSub::NSQ(nsq) => names_distinct(nsq.topics@) && forall|t: int|
                0 <= t < nsq.topics@.len() ==> names_distinct((#[trigger] nsq.topics@[t]).1.subscriptions@),
        }
    }
}

impl InfraConfig {
    /// Whether every list that is keyed by name has each name once: the
    /// services, the Redis databases, the secrets, the buckets of each
    /// provider, the databases of each server, the labels and the names of
    /// the metrics, and the topics and subscriptions of each provider.
    pub open spec fn wf(self) -> bool {
        &&& optional_names_distinct(self.service_discovery)
        &&& optional_names_distinct(self.redis)
        &&& match self.secrets {
            Some(Secrets::Values(entries)) => names_distinct(entries@),
            _ => true,
        }
        &&& match self.object_storage {
            Some(storages) => forall|k: int| 0 <= k < storages@.len() ==> (#[trigger] storages@[k]).wf(),
            None => true,
        }
        &&& match self.sql_servers {
            Some(servers) => forall|k: int|
                0 <= k < servers@.len() ==> names_distinct((#[trigger] servers@[k]).databases@),
            None => true,
        }
        &&& match self.metrics {
            Some(metrics) => metrics.wf(),
            None => true,
        }
        &&& match self.pubsub {
            Some(pubsubs) => forall|k: int| 0 <= k < pubsubs@.len() ==> (#[trigger] pubsubs@[k]).wf(),
            None => true,
        }
    }
}

/// The secret that an [`EnvString`] stands for: the bytes of a string given
/// in place, or a reference to the environment variable.
pub open spec fn secret_data_of(env_string: EnvString) -> SecretDataView {
    SecretDataView {
        encoding: SecretEncoding::Plain,
        source: match env_string {
            EnvString::String(s) => SecretSourceView::Embedded(encode_utf8(s@)),
            EnvString::EnvRef(env_ref) => SecretSourceView::Env(env_ref.env@),
        },
        sub_path: None,
    }
}

/// Turns a string of the configuration into a secret of the descriptor.
pub fn map_env_string_to_secret_data(env_string: &EnvString) -> (secret: SecretData)
    ensures
        secret.deep_view() == secret_data_of(*env_string),
{
    match env_string {
        EnvString::String(s) => {
            let bytes = s.as_str().as_bytes_vec();
            assert(bytes.deep_view() =~= encode_utf8(s@));
            SecretData {
                encoding: SecretEncoding::Plain,
                source: SecretSource::Embedded(bytes),
                sub_path: None,
            }
        },
        EnvString::EnvRef(env_ref) => SecretData {
            encoding: SecretEncoding::Plain,
            source: SecretSource::Env(env_ref.env.clone()),
            sub_path: None,
        },
    }
}

/// The number of the first identifier of each part of the descriptor.
/// Identifiers go to the bucket clusters first, then to the metrics, the
/// gateways, the SQL servers, Redis, Pub/Sub and the secrets.
pub struct RidPlan {
    pub metrics: nat,
    pub gateways: nat,
    pub sql: nat,
    pub redis: nat,
    pub pubsub: nat,
    pub secrets: nat,
}

/// Where each part's identifiers start; the bucket clusters start at `0`.
pub open spec fn rid_plan_of(infra: InfraConfig) -> RidPlan {
    let metrics = object_storage_demand(infra.object_storage);
    let gateways = metrics + metrics_demand(infra.metrics);
    let sql = gateways + gateways_demand(infra.hosted_gateways);
    let redis = sql + sql_servers_demand(infra.sql_servers);
    let pubsub = redis + redis_total_demand(infra.redis);
    let secrets = pubsub + pubsub_total_demand(infra.pubsub);
    RidPlan { metrics, gateways, sql, redis, pubsub, secrets }
}

/// The resources of the descriptor.
pub open spec fn resources_of(infra: InfraConfig, env_entries: Seq<(Seq<char>, Seq<char>)>) -> ResourcesView {
    let plan = rid_plan_of(infra);
    ResourcesView {
        gateways: gateways_of(
            infra.hosted_gateways,
            plan.gateways,
            base_url_of(infra.metadata),
            cors_of(infra.cors),
        ),
        sql_clusters: sql_servers_of(infra.sql_servers, plan.sql),
        pubsub_clusters: pubsub_of(infra.pubsub, plan.pubsub),
        redis_clusters: redis_of(infra.redis, plan.redis),
        app_secrets: app_secrets_of(infra.secrets, env_entries, plan.secrets),
        bucket_clusters: object_storage_of(infra.object_storage, 0),
    }
}

/// The credentials of the descriptor: the certificates of the SQL servers
/// and then those of Redis, and the roles of each.
pub open spec fn credentials_of(infra: InfraConfig) -> CredentialsView {
    let plan = rid_plan_of(infra);
    CredentialsView {
        client_certs: sql_servers_certs(infra.sql_servers, plan.sql) + redis_certs(infra.redis, plan.redis),
        sql_roles: sql_servers_roles(infra.sql_servers, plan.sql),
        redis_roles: redis_roles(infra.redis, plan.redis),
    }
}

/// What the deployment runs.
pub open spec fn deployment_of(infra: InfraConfig) -> DeploymentView {
    let plan = rid_plan_of(infra);
    DeploymentView {
        deploy_id: Seq::empty(),
        dynamic_experiments: Seq::empty(),
        hosted_gateways: gateway_rids(infra.hosted_gateways, plan.gateways),
        hosted_services: hosted_services_of(infra.hosted_services, infra.worker_threads, infra.log_config),
        auth_methods: auth_methods_of(infra.auth),
        observability: ObservabilityView { metrics: metrics_of(infra.metrics, plan.metrics) },
        service_discovery: service_discovery_of(infra.service_discovery, auth_methods_of(infra.auth)),
        graceful_shutdown: graceful_shutdown_of(infra.graceful_shutdown),
    }
}

/// The deployment descriptor of a configuration. Where the configuration
/// takes its secrets from an environment variable, they are `env_entries`.
pub open spec fn runtime_config_of(
    infra: InfraConfig,
    env_entries: Seq<(Seq<char>, Seq<char>)>,
) -> RuntimeConfigView {
    RuntimeConfigView {
        environment: environment_of(infra.metadata),
        infra: InfrastructureView {
            resources: resources_of(infra, env_entries),
            credentials: credentials_of(infra),
        },
        deployment: deployment_of(infra),
    }
}

/// Whether `entries` are the secrets that the configuration takes from the
/// environment, when `env_value` is what the variable it names holds: none
/// unless the configuration refers to a variable.
pub open spec fn env_entries_of(
    secrets: Option<Secrets>,
    env_value: Option<String>,
    entries: Seq<(Seq<char>, Seq<char>)>,
) -> bool {
    match secrets {
        Some(Secrets::EnvRef(_)) => env_secrets_listed(env_value, entries),
        _ => entries.len() == 0,
    }
}

/// Maps a configuration to its deployment descriptor, with the secrets
/// from the environment, if the configuration asks for them, already read.
///
/// Every Redis database of the configuration that authenticates has to
/// name what its mode needs; [`redis::redis_is_complete`] tells.
pub fn map_infra_with_secrets(infra: InfraConfig, env_entries: Vec<(String, String)>) -> (config:
    RuntimeConfig)
    requires
        redis_complete(infra.redis),
    ensures
        config.deep_view() == runtime_config_of(infra, env_entries.deep_view()),
{
    let mut rids = RidCounter::new();
    let environment = map_environment(&infra.metadata);
    let graceful_shutdown = map_graceful_shutdown(&infra.graceful_shutdown);
    let auth_methods = map_auth_methods(&infra.auth);
    let service_discovery = map_service_discovery(&infra.service_discovery, &auth_methods);
    let bucket_clusters = map_object_storage(&infra.object_storage, &mut rids);
    let metrics = map_metrics(&infra.metrics, &mut rids);
    let cors = map_cors(&infra.cors);
    let base_url = map_base_url(&infra.metadata);
    let (gateways, hosted_gateways) = map_gateways(&infra.hosted_gateways, &base_url, &cors, &mut rids);
    let hosted_services = map_hosted_services(&infra.hosted_services, infra.worker_threads, &infra.log_config);
    let dynamic_experiments: Vec<String> = Vec::new();
    assert(dynamic_experiments.deep_view() =~= Seq::<Seq<char>>::empty());
    let deployment = Deployment {
        deploy_id: String::new(),
        dynamic_experiments,
        hosted_gateways,
        hosted_services,
        auth_methods,
        observability: Observability { metrics },
        service_discovery,
        graceful_shutdown,
    };
    let mut client_certs: Vec<runtime::ClientCert> = Vec::new();
    let mut sql_roles: Vec<runtime::SqlRole> = Vec::new();
    assert(client_certs.deep_view() =~= Seq::<ClientCertView>::empty());
    assert(sql_roles.deep_view() =~= Seq::<runtime::SqlRoleView>::empty());
    let sql_clusters = map_sql_servers(&infra.sql_servers, &mut rids, &mut client_certs, &mut sql_roles);
    let (redis_clusters, redis_roles) = map_redis(&infra.redis, &mut rids, &mut client_certs);
    let pubsub_clusters = map_pubsub(&infra.pubsub, &mut rids);
    let app_secrets = map_secrets(&infra.secrets, &env_entries, &mut rids);
    proof {
        assert(client_certs.deep_view() =~= credentials_of(infra).client_certs);
        assert(sql_roles.deep_view() =~= credentials_of(infra).sql_roles);
    }
    RuntimeConfig {
        environment,
        infra: Infrastructure {
            resources: Resources {
                gateways,
                sql_clusters,
                pubsub_clusters,
                redis_clusters,
                app_secrets,
                bucket_clusters,
            },
            credentials: Credentials { client_certs, sql_roles, redis_roles },
        },
        deployment,
    }
}

/// Maps a configuration to its deployment descriptor.
///
/// `env_value` is what the environment variable holds that the
/// configuration names for its secrets, or nothing where that variable is
/// not set; it is read only if the configuration names one. Its value is
/// parsed as a JSON object of strings, whose members become the secrets, in
/// the order in which the parsed map hands them out. A value that is no such
/// object gives no secrets.
///
/// Every Redis database of the configuration that authenticates has to
/// name what its mode needs; [`redis::redis_is_complete`] tells.
pub fn map_infra_to_runtime(infra: InfraConfig, env_value: Option<String>) -> (config: RuntimeConfig)
    requires
        redis_complete(infra.redis),
    ensures
        exists|entries: Seq<(Seq<char>, Seq<char>)>|
            env_entries_of(infra.secrets, env_value, entries) && config.deep_view() == runtime_config_of(
                infra,
                entries,
            ),
{
    let env_entries = match &infra.secrets {
        Some(Secrets::EnvRef(_)) => read_env_secrets(&env_value),
        _ => Vec::new(),
    };
    let ghost entries = env_entries.deep_view();
    let config = map_infra_with_secrets(infra, env_entries);
    assert(env_entries_of(infra.secrets, env_value, entries) && config.deep_view() == runtime_config_of(
        infra,
        entries,
    ));
    config
}

} // verus!
