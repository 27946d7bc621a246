//! The deployment descriptor: what a running application is told about its
//! environment, the infrastructure it may reach and the credentials it
//! reaches it with.
//!
//! Every type here has a deep view, a value of the matching `...View` type
//! made of sequences and integers only. Contracts speak of those views.
//! Addressable resources and credentials carry an `rid`, a resource
//! identifier, and refer to one another by it.
use vstd::prelude::*;

verus! {

/// The kind of environment an application runs in.
#[derive(Debug, Clone, Copy, PartialEq, Eq, Structural)]
pub enum EnvironmentType {
    /// No kind was given, or the given one is not known.
    Unspecified,
    /// A development environment.
    Development,
    /// A production environment.
    Production,
    /// A short-lived environment, such as a preview.
    Ephemeral,
    /// An environment that runs automated tests.
    Test,
}

impl DeepView for EnvironmentType {
    type V = EnvironmentType;

    open spec fn deep_view(&self) -> EnvironmentType {
        *self
    }
}

/// The cloud an environment is hosted in.
#[derive(Debug, Clone, Copy, PartialEq, Eq, Structural)]
pub enum Cloud {
    /// No cloud was given, or the given one is not known.
    Unspecified,
    /// The developer's own machine.
    Local,
    /// The Encore cloud.
    Encore,
    /// Amazon Web Services.
    Aws,
    /// Google Cloud Platform.
    Gcp,
    /// Microsoft Azure.
    Azure,
}

impl DeepView for Cloud {
    type V = Cloud;

    open spec fn deep_view(&self) -> Cloud {
        *self
    }
}

/// The role a database or cache server plays in its cluster.
#[derive(Debug, Clone, Copy, PartialEq, Eq, Structural)]
pub enum ServerKind {
    /// The role is not known.
    Unspecified,
    /// The server that takes writes.
    Primary,
    /// A standby that can take over from the primary.
    HotStandby,
    /// A replica that serves reads only.
    ReadReplica,
}

impl DeepView for ServerKind {
    type V = ServerKind;

    open spec fn deep_view(&self) -> ServerKind {
        *self
    }
}

/// How often a topic may deliver one message.
#[derive(Debug, Clone, Copy, PartialEq, Eq, Structural)]
pub enum DeliveryGuarantee {
    /// The guarantee is not known.
    Unspecified,
    /// Every message is delivered once or more.
    AtLeastOnce,
    /// Every message is delivered once.
    ExactlyOnce,
}

impl DeepView for DeliveryGuarantee {
    type V = DeliveryGuarantee;

    open spec fn deep_view(&self) -> DeliveryGuarantee {
        *self
    }
}

/// How the bytes of a secret are encoded.
#[derive(Debug, Clone, Copy, PartialEq, Eq, Structural)]
pub enum SecretEncoding {
    /// The bytes are the secret itself.
    Plain,
    /// The bytes are the secret in base64.
    Base64,
}

impl DeepView for SecretEncoding {
    type V = SecretEncoding;

    open spec fn deep_view(&self) -> SecretEncoding {
        *self
    }
}

/// A span of time, in whole seconds and nanoseconds.
#[derive(Debug, Clone, Copy, PartialEq, Eq, Structural)]
pub struct Duration {
    pub seconds: i64,
    pub nanos: i32,
}

impl DeepView for Duration {
    type V = Duration;

    open spec fn deep_view(&self) -> Duration {
        *self
    }
}

/// Where the value of a secret comes from.
#[derive(Debug, PartialEq, Eq)]
pub enum SecretSource {
    /// The value itself, as bytes.
    Embedded(Vec<u8>),
    /// The name of an environment variable that holds the value.
    Env(String),
}

/// What a [`SecretSource`] holds, as mathematical values.
pub enum SecretSourceView {
    Embedded(Seq<u8>),
    Env(Seq<char>),
}

impl DeepView for SecretSource {
    type V = SecretSourceView;

    open spec fn deep_view(&self) -> SecretSourceView {
        match self {
            SecretSource::Embedded(x) => SecretSourceView::Embedded(x.deep_view()),
            SecretSource::Env(x) => SecretSourceView::Env(x.deep_view()),
        }
    }
}

impl Clone for SecretSource {
    fn clone(&self) -> (r: Self)
        ensures
            r.deep_view() == self.deep_view(),
    {
        match self {
            SecretSource::Embedded(x) => {
                let y = x.clone();
                proof {
                    assert(y.deep_view() =~= x.deep_view());
                }
                SecretSource::Embedded(y)
            },
            SecretSource::Env(x) => SecretSource::Env(x.clone()),
        }
    }
}

/// A part of a structured secret.
#[derive(Debug, PartialEq, Eq)]
pub enum SecretSubPath {
    /// The key under which the value stands in a JSON object.
    JsonKey(String),
}

/// What a [`SecretSubPath`] holds, as mathematical values.
pub enum SecretSubPathView {
    JsonKey(Seq<char>),
}

impl DeepView for SecretSubPath {
    type V = SecretSubPathView;

    open spec fn deep_view(&self) -> SecretSubPathView {
        match self {
            SecretSubPath::JsonKey(x) => SecretSubPathView::JsonKey(x.deep_view()),
        }
    }
}

impl Clone for SecretSubPath {
    fn clone(&self) -> (r: Self)
        ensures
            r.deep_view() == self.deep_view(),
    {
        match self {
            SecretSubPath::JsonKey(x) => SecretSubPath::JsonKey(x.clone()),
        }
    }
}

/// A secret value, or where to find it.
#[derive(Debug, PartialEq, Eq)]
pub struct SecretData {
    /// How the value is encoded.
    pub encoding: SecretEncoding,
    /// Where the value comes from.
    pub source: SecretSource,
    /// The part of the value that is meant, if not all of it.
    pub sub_path: Option<SecretSubPath>,
}

/// What a [`SecretData`] holds, as mathematical values.
pub struct SecretDataView {
    pub encoding: SecretEncoding,
    pub source: SecretSourceView,
    pub sub_path: Option<SecretSubPathView>,
}

impl DeepView for SecretData {
    type V = SecretDataView;

    open spec fn deep_view(&self) -> SecretDataView {
        SecretDataView {
            encoding: self.encoding.deep_view(),
            source: self.source.deep_view(),
            sub_path: self.sub_path.deep_view(),
        }
    }
}

impl Clone for SecretData {
    fn clone(&self) -> (r: Self)
        ensures
            r.deep_view() == self.deep_view(),
    {
        let source = self.source.clone();
        let sub_path = self.sub_path.clone();
        SecretData {
            encoding: self.encoding,
            source,
            sub_path,
        }
    }
}

/// The environment an application is deployed to.
#[derive(Debug, PartialEq, Eq)]
pub struct Environment {
    /// The application's identifier on the platform.
    pub app_id: String,
    /// The application's name.
    pub app_slug: String,
    /// The environment's identifier on the platform.
    pub env_id: String,
    /// The environment's name.
    pub env_name: String,
    /// The kind of environment.
    pub env_type: EnvironmentType,
    /// The cloud the environment is hosted in.
    pub cloud: Cloud,
}

/// What a [`Environment`] holds, as mathematical values.
pub struct EnvironmentView {
    pub app_id: Seq<char>,
    pub app_slug: Seq<char>,
    pub env_id: Seq<char>,
    pub env_name: Seq<char>,
    pub env_type: EnvironmentType,
    pub cloud: Cloud,
}

impl DeepView for Environment {
    type V = EnvironmentView;

    open spec fn deep_view(&self) -> EnvironmentView {
        EnvironmentView {
            app_id: self.app_id.deep_view(),
            app_slug: self.app_slug.deep_view(),
            env_id: self.env_id.deep_view(),
            env_name: self.env_name.deep_view(),
            env_type: self.env_type.deep_view(),
            cloud: self.cloud.deep_view(),
        }
    }
}

impl Clone for Environment {
    fn clone(&self) -> (r: Self)
        ensures
            r.deep_view() == self.deep_view(),
    {
        let app_id = self.app_id.clone();
        let app_slug = self.app_slug.clone();
        let env_id = self.env_id.clone();
        let env_name = self.env_name.clone();
        Environment {
            app_id,
            app_slug,
            env_id,
            env_name,
            env_type: self.env_type,
            cloud: self.cloud,
        }
    }
}

/// A key that signs calls between services.
#[derive(Debug, PartialEq, Eq)]
pub struct EncoreAuthKey {
    /// The key's number.
    pub id: u32,
    /// The key material.
    pub data: SecretData,
}

/// What a [`EncoreAuthKey`] holds, as mathematical values.
pub struct EncoreAuthKeyView {
    pub id: u32,
    pub data: SecretDataView,
}

impl DeepView for EncoreAuthKey {
    type V = EncoreAuthKeyView;

    open spec fn deep_view(&self) -> EncoreAuthKeyView {
        EncoreAuthKeyView {
            id: self.id.deep_view(),
            data: self.data.deep_view(),
        }
    }
}

impl Clone for EncoreAuthKey {
    fn clone(&self) -> (r: Self)
        ensures
            r.deep_view() == self.deep_view(),
    {
        let data = self.data.clone();
        EncoreAuthKey {
            id: self.id,
            data,
        }
    }
}

/// Authentication of calls between services by signing keys.
#[derive(Debug, PartialEq, Eq)]
pub struct EncoreAuth {
    /// The keys that are accepted.
    pub auth_keys: Vec<EncoreAuthKey>,
}

/// What a [`EncoreAuth`] holds, as mathematical values.
pub struct EncoreAuthView {
    pub auth_keys: Seq<EncoreAuthKeyView>,
}

impl DeepView for EncoreAuth {
    type V = EncoreAuthView;

    open spec fn deep_view(&self) -> EncoreAuthView {
        EncoreAuthView {
            auth_keys: self.auth_keys.deep_view(),
        }
    }
}

impl Clone for EncoreAuth {
    fn clone(&self) -> (r: Self)
        ensures
            r.deep_view() == self.deep_view(),
    {
        let auth_keys = self.auth_keys.clone();
        proof {
            assert(auth_keys.deep_view() =~= self.auth_keys.deep_view());
        }
        EncoreAuth {
            auth_keys,
        }
    }
}

/// A way to authenticate calls between services.
#[derive(Debug, PartialEq, Eq)]
pub enum AuthMethod {
    /// Calls are not authenticated.
    Noop,
    /// Calls are signed.
    EncoreAuth(EncoreAuth),
}

/// What a [`AuthMethod`] holds, as mathematical values.
pub enum AuthMethodView {
    Noop,
    EncoreAuth(EncoreAuthView),
}

impl DeepView for AuthMethod {
    type V = AuthMethodView;

    open spec fn deep_view(&self) -> AuthMethodView {
        match self {
            AuthMethod::Noop => AuthMethodView::Noop,
            AuthMethod::EncoreAuth(x) => AuthMethodView::EncoreAuth(x.deep_view()),
        }
    }
}

impl Clone for AuthMethod {
    fn clone(&self) -> (r: Self)
        ensures
            r.deep_view() == self.deep_view(),
    {
        match self {
            AuthMethod::Noop => AuthMethod::Noop,
            AuthMethod::EncoreAuth(x) => AuthMethod::EncoreAuth(x.clone()),
        }
    }
}

/// One accepted way to authenticate calls between services.
#[derive(Debug, PartialEq, Eq)]
pub struct ServiceAuth {
    /// The way itself.
    pub auth_method: AuthMethod,
}

/// What a [`ServiceAuth`] holds, as mathematical values.
pub struct ServiceAuthView {
    pub auth_method: AuthMethodView,
}

impl DeepView for ServiceAuth {
    type V = ServiceAuthView;

    open spec fn deep_view(&self) -> ServiceAuthView {
        ServiceAuthView {
            auth_method: self.auth_method.deep_view(),
        }
    }
}

impl Clone for ServiceAuth {
    fn clone(&self) -> (r: Self)
        ensures
            r.deep_view() == self.deep_view(),
    {
        let auth_method = self.auth_method.clone();
        ServiceAuth {
            auth_method,
        }
    }
}

/// Where a service is reached.
#[derive(Debug, PartialEq, Eq)]
pub struct Location {
    /// The address of the service.
    pub base_url: String,
    /// How calls to it are authenticated.
    pub auth_methods: Vec<ServiceAuth>,
}

/// What a [`Location`] holds, as mathematical values.
pub struct LocationView {
    pub base_url: Seq<char>,
    pub auth_methods: Seq<ServiceAuthView>,
}

impl DeepView for Location {
    type V = LocationView;

    open spec fn deep_view(&self) -> LocationView {
        LocationView {
            base_url: self.base_url.deep_view(),
            auth_methods: self.auth_methods.deep_view(),
        }
    }
}

impl Clone for Location {
    fn clone(&self) -> (r: Self)
        ensures
            r.deep_view() == self.deep_view(),
    {
        let base_url = self.base_url.clone();
        let auth_methods = self.auth_methods.clone();
        proof {
            assert(auth_methods.deep_view() =~= self.auth_methods.deep_view());
        }
        Location {
            base_url,
            auth_methods,
        }
    }
}

/// Where the services that are hosted elsewhere are reached.
#[derive(Debug, PartialEq, Eq)]
pub struct ServiceDiscovery {
    /// Each service's name with its location.
    pub services: Vec<(String, Location)>,
}

/// What a [`ServiceDiscovery`] holds, as mathematical values.
pub struct ServiceDiscoveryView {
    pub services: Seq<(Seq<char>, LocationView)>,
}

impl DeepView for ServiceDiscovery {
    type V = ServiceDiscoveryView;

    open spec fn deep_view(&self) -> ServiceDiscoveryView {
        ServiceDiscoveryView {
            services: self.services.deep_view(),
        }
    }
}

impl Clone for ServiceDiscovery {
    fn clone(&self) -> (r: Self)
        ensures
            r.deep_view() == self.deep_view(),
    {
        let mut services: Vec<(String, Location)> = Vec::new();
        let mut i: usize = 0;
        while i < self.services.len()
            invariant
                i <= self.services.len(),
                services.len() == i,
                forall|j: int|
                    0 <= j < i ==> (#[trigger] services@[j]).deep_view() == self.services@[j].deep_view(),
            decreases self.services.len() - i,
        {
            let entry = &self.services[i];
            services.push((entry.0.clone(), entry.1.clone()));
            i += 1;
        }
        proof {
            assert(services.deep_view() =~= self.services.deep_view());
        }
        ServiceDiscovery {
            services,
        }
    }
}

/// How long each stage of a shutdown may take.
#[derive(Debug, PartialEq, Eq)]
pub struct GracefulShutdown {
    /// The time allowed for the whole shutdown.
    pub total: Option<Duration>,
    /// The time allowed for shutdown hooks.
    pub shutdown_hooks: Option<Duration>,
    /// The time allowed for running handlers to finish.
    pub handlers: Option<Duration>,
}

/// What a [`GracefulShutdown`] holds, as mathematical values.
pub struct GracefulShutdownView {
    pub total: Option<Duration>,
    pub shutdown_hooks: Option<Duration>,
    pub handlers: Option<Duration>,
}

impl DeepView for GracefulShutdown {
    type V = GracefulShutdownView;

    open spec fn deep_view(&self) -> GracefulShutdownView {
        GracefulShutdownView {
            total: self.total.deep_view(),
            shutdown_hooks: self.shutdown_hooks.deep_view(),
            handlers: self.handlers.deep_view(),
        }
    }
}

impl Clone for GracefulShutdown {
    fn clone(&self) -> (r: Self)
        ensures
            r.deep_view() == self.deep_view(),
    {
        let total = self.total.clone();
        let shutdown_hooks = self.shutdown_hooks.clone();
        let handlers = self.handlers.clone();
        GracefulShutdown {
            total,
            shutdown_hooks,
            handlers,
        }
    }
}

/// Metrics are written to a Prometheus remote-write endpoint.
#[derive(Debug, PartialEq, Eq)]
pub struct PrometheusRemoteWrite {
    /// The endpoint's address.
    pub remote_write_url: SecretData,
}

/// What a [`PrometheusRemoteWrite`] holds, as mathematical values.
pub struct PrometheusRemoteWriteView {
    pub remote_write_url: SecretDataView,
}

impl DeepView for PrometheusRemoteWrite {
    type V = PrometheusRemoteWriteView;

    open spec fn deep_view(&self) -> PrometheusRemoteWriteView {
        PrometheusRemoteWriteView {
            remote_write_url: self.remote_write_url.deep_view(),
        }
    }
}

impl Clone for PrometheusRemoteWrite {
    fn clone(&self) -> (r: Self)
        ensures
            r.deep_view() == self.deep_view(),
    {
        let remote_write_url = self.remote_write_url.clone();
        PrometheusRemoteWrite {
            remote_write_url,
        }
    }
}

/// Metrics are sent to Datadog.
#[derive(Debug, PartialEq, Eq)]
pub struct Datadog {
    /// The Datadog site.
    pub site: String,
    /// The key to send with.
    pub api_key: SecretData,
}

/// What a [`Datadog`] holds, as mathematical values.
pub struct DatadogView {
    pub site: Seq<char>,
    pub api_key: SecretDataView,
}

impl DeepView for Datadog {
    type V = DatadogView;

    open spec fn deep_view(&self) -> DatadogView {
        DatadogView {
            site: self.site.deep_view(),
            api_key: self.api_key.deep_view(),
        }
    }
}

impl Clone for Datadog {
    fn clone(&self) -> (r: Self)
        ensures
            r.deep_view() == self.deep_view(),
    {
        let site = self.site.clone();
        let api_key = self.api_key.clone();
        Datadog {
            site,
            api_key,
        }
    }
}

/// Metrics are sent to Google Cloud Monitoring.
#[derive(Debug, PartialEq, Eq)]
pub struct GcpCloudMonitoring {
    /// The project that receives the metrics.
    pub project_id: String,
    /// The type of the monitored resource.
    pub monitored_resource_type: String,
    /// The labels of the monitored resource.
    pub monitored_resource_labels: Vec<(String, String)>,
    /// The names under which metrics are exported.
    pub metric_names: Vec<(String, String)>,
}

/// What a [`GcpCloudMonitoring`] holds, as mathematical values.
pub struct GcpCloudMonitoringView {
    pub project_id: Seq<char>,
    pub monitored_resource_type: Seq<char>,
    pub monitored_resource_labels: Seq<(Seq<char>, Seq<char>)>,
    pub metric_names: Seq<(Seq<char>, Seq<char>)>,
}

impl DeepView for GcpCloudMonitoring {
    type V = GcpCloudMonitoringView;

    open spec fn deep_view(&self) -> GcpCloudMonitoringView {
        GcpCloudMonitoringView {
            project_id: self.project_id.deep_view(),
            monitored_resource_type: self.monitored_resource_type.deep_view(),
            monitored_resource_labels: self.monitored_resource_labels.deep_view(),
            metric_names: self.metric_names.deep_view(),
        }
    }
}

impl Clone for GcpCloudMonitoring {
    fn clone(&self) -> (r: Self)
        ensures
            r.deep_view() == self.deep_view(),
    {
        let project_id = self.project_id.clone();
        let monitored_resource_type = self.monitored_resource_type.clone();
        let mut monitored_resource_labels: Vec<(String, String)> = Vec::new();
        let mut i: usize = 0;
        while i < self.monitored_resource_labels.len()
            invariant
                i <= self.monitored_resource_labels.len(),
                monitored_resource_labels.len() == i,
                forall|j: int|
                    0 <= j < i ==> (#[trigger] monitored_resource_labels@[j]).deep_view() == self.monitored_resource_labels@[j].deep_view(),
            decreases self.monitored_resource_labels.len() - i,
        {
            let entry = &self.monitored_resource_labels[i];
            monitored_resource_labels.push((entry.0.clone(), entry.1.clone()));
            i += 1;
        }
        let mut metric_names: Vec<(String, String)> = Vec::new();
        let mut i: usize = 0;
        while i < self.metric_names.len()
            invariant
                i <= self.metric_names.len(),
                metric_names.len() == i,
                forall|j: int|
                    0 <= j < i ==> (#[trigger] metric_names@[j]).deep_view() == self.metric_names@[j].deep_view(),
            decreases self.metric_names.len() - i,
        {
            let entry = &self.metric_names[i];
            metric_names.push((entry.0.clone(), entry.1.clone()));
            i += 1;
        }
        proof {
            assert(monitored_resource_labels.deep_view() =~= self.monitored_resource_labels.deep_view());
            assert(metric_names.deep_view() =~= self.metric_names.deep_view());
        }
        GcpCloudMonitoring {
            project_id,
            monitored_resource_type,
            monitored_resource_labels,
            metric_names,
        }
    }
}

/// Metrics are sent to AWS CloudWatch.
#[derive(Debug, PartialEq, Eq)]
pub struct AwsCloudWatch {
    /// The namespace that receives the metrics.
    pub namespace: String,
}

/// What a [`AwsCloudWatch`] holds, as mathematical values.
pub struct AwsCloudWatchView {
    pub namespace: Seq<char>,
}

impl DeepView for AwsCloudWatch {
    type V = AwsCloudWatchView;

    open spec fn deep_view(&self) -> AwsCloudWatchView {
        AwsCloudWatchView {
            namespace: self.namespace.deep_view(),
        }
    }
}

impl Clone for AwsCloudWatch {
    fn clone(&self) -> (r: Self)
        ensures
            r.deep_view() == self.deep_view(),
    {
        let namespace = self.namespace.clone();
        AwsCloudWatch {
            namespace,
        }
    }
}

/// The service that collects metrics.
#[derive(Debug, PartialEq, Eq)]
pub enum MetricsBackend {
    /// A Prometheus remote-write endpoint.
    PromRemoteWrite(PrometheusRemoteWrite),
    /// Datadog.
    Datadog(Datadog),
    /// Google Cloud Monitoring.
    Gcp(GcpCloudMonitoring),
    /// AWS CloudWatch.
    Aws(AwsCloudWatch),
}

/// What a [`MetricsBackend`] holds, as mathematical values.
pub enum MetricsBackendView {
    PromRemoteWrite(PrometheusRemoteWriteView),
    Datadog(DatadogView),
    Gcp(GcpCloudMonitoringView),
    Aws(AwsCloudWatchView),
}

impl DeepView for MetricsBackend {
    type V = MetricsBackendView;

    open spec fn deep_view(&self) -> MetricsBackendView {
        match self {
            MetricsBackend::PromRemoteWrite(x) => MetricsBackendView::PromRemoteWrite(x.deep_view()),
            MetricsBackend::Datadog(x) => MetricsBackendView::Datadog(x.deep_view()),
            MetricsBackend::Gcp(x) => MetricsBackendView::Gcp(x.deep_view()),
            MetricsBackend::Aws(x) => MetricsBackendView::Aws(x.deep_view()),
        }
    }
}

impl Clone for MetricsBackend {
    fn clone(&self) -> (r: Self)
        ensures
            r.deep_view() == self.deep_view(),
    {
        match self {
            MetricsBackend::PromRemoteWrite(x) => MetricsBackend::PromRemoteWrite(x.clone()),
            MetricsBackend::Datadog(x) => MetricsBackend::Datadog(x.clone()),
            MetricsBackend::Gcp(x) => MetricsBackend::Gcp(x.clone()),
            MetricsBackend::Aws(x) => MetricsBackend::Aws(x.clone()),
        }
    }
}

/// A destination for metrics.
#[derive(Debug, PartialEq, Eq)]
pub struct MetricsProvider {
    /// The provider's resource identifier.
    pub rid: String,
    /// How often metrics are collected.
    pub collection_interval: Option<Duration>,
    /// The service that collects them.
    pub provider: MetricsBackend,
}

/// What a [`MetricsProvider`] holds, as mathematical values.
pub struct MetricsProviderView {
    pub rid: Seq<char>,
    pub collection_interval: Option<Duration>,
    pub provider: MetricsBackendView,
}

impl DeepView for MetricsProvider {
    type V = MetricsProviderView;

    open spec fn deep_view(&self) -> MetricsProviderView {
        MetricsProviderView {
            rid: self.rid.deep_view(),
            collection_interval: self.collection_interval.deep_view(),
            provider: self.provider.deep_view(),
        }
    }
}

impl Clone for MetricsProvider {
    fn clone(&self) -> (r: Self)
        ensures
            r.deep_view() == self.deep_view(),
    {
        let rid = self.rid.clone();
        let collection_interval = self.collection_interval.clone();
        let provider = self.provider.clone();
        MetricsProvider {
            rid,
            collection_interval,
            provider,
        }
    }
}

/// What is observed of a deployment.
#[derive(Debug, PartialEq, Eq)]
pub struct Observability {
    /// Where metrics go.
    pub metrics: Vec<MetricsProvider>,
}

/// What a [`Observability`] holds, as mathematical values.
pub struct ObservabilityView {
    pub metrics: Seq<MetricsProviderView>,
}

impl DeepView for Observability {
    type V = ObservabilityView;

    open spec fn deep_view(&self) -> ObservabilityView {
        ObservabilityView {
            metrics: self.metrics.deep_view(),
        }
    }
}

impl Clone for Observability {
    fn clone(&self) -> (r: Self)
        ensures
            r.deep_view() == self.deep_view(),
    {
        let metrics = self.metrics.clone();
        proof {
            assert(metrics.deep_view() =~= self.metrics.deep_view());
        }
        Observability {
            metrics,
        }
    }
}

/// A service that this deployment runs.
#[derive(Debug, PartialEq, Eq)]
pub struct HostedService {
    /// The service's name.
    pub name: String,
    /// The number of worker threads, if set.
    pub worker_threads: Option<i32>,
    /// The logging configuration, if set.
    pub log_config: Option<String>,
}

/// What a [`HostedService`] holds, as mathematical values.
pub struct HostedServiceView {
    pub name: Seq<char>,
    pub worker_threads: Option<i32>,
    pub log_config: Option<Seq<char>>,
}

impl DeepView for HostedService {
    type V = HostedServiceView;

    open spec fn deep_view(&self) -> HostedServiceView {
        HostedServiceView {
            name: self.name.deep_view(),
            worker_threads: self.worker_threads.deep_view(),
            log_config: self.log_config.deep_view(),
        }
    }
}

impl Clone for HostedService {
    fn clone(&self) -> (r: Self)
        ensures
            r.deep_view() == self.deep_view(),
    {
        let name = self.name.clone();
        let worker_threads = self.worker_threads.clone();
        let log_config = self.log_config.clone();
        HostedService {
            name,
            worker_threads,
            log_config,
        }
    }
}

/// What one deployment runs and how it is reached.
#[derive(Debug, PartialEq, Eq)]
pub struct Deployment {
    /// The deployment's identifier.
    pub deploy_id: String,
    /// The experiments that are switched on.
    pub dynamic_experiments: Vec<String>,
    /// The resource identifiers of the gateways it runs.
    pub hosted_gateways: Vec<String>,
    /// The services it runs.
    pub hosted_services: Vec<HostedService>,
    /// How calls between services are authenticated.
    pub auth_methods: Vec<ServiceAuth>,
    /// What is observed of it.
    pub observability: Observability,
    /// Where services hosted elsewhere are reached.
    pub service_discovery: Option<ServiceDiscovery>,
    /// How long a shutdown may take.
    pub graceful_shutdown: Option<GracefulShutdown>,
}

/// What a [`Deployment`] holds, as mathematical values.
pub struct DeploymentView {
    pub deploy_id: Seq<char>,
    pub dynamic_experiments: Seq<Seq<char>>,
    pub hosted_gateways: Seq<Seq<char>>,
    pub hosted_services: Seq<HostedServiceView>,
    pub auth_methods: Seq<ServiceAuthView>,
    pub observability: ObservabilityView,
    pub service_discovery: Option<ServiceDiscoveryView>,
    pub graceful_shutdown: Option<GracefulShutdownView>,
}

impl DeepView for Deployment {
    type V = DeploymentView;

    open spec fn deep_view(&self) -> DeploymentView {
        DeploymentView {
            deploy_id: self.deploy_id.deep_view(),
            dynamic_experiments: self.dynamic_experiments.deep_view(),
            hosted_gateways: self.hosted_gateways.deep_view(),
            hosted_services: self.hosted_services.deep_view(),
            auth_methods: self.auth_methods.deep_view(),
            observability: self.observability.deep_view(),
            service_discovery: self.service_discovery.deep_view(),
            graceful_shutdown: self.graceful_shutdown.deep_view(),
        }
    }
}

impl Clone for Deployment {
    fn clone(&self) -> (r: Self)
        ensures
            r.deep_view() == self.deep_view(),
    {
        let deploy_id = self.deploy_id.clone();
        let dynamic_experiments = self.dynamic_experiments.clone();
        let hosted_gateways = self.hosted_gateways.clone();
        let hosted_services = self.hosted_services.clone();
        let auth_methods = self.auth_methods.clone();
        let observability = self.observability.clone();
        let service_discovery = self.service_discovery.clone();
        let graceful_shutdown = self.graceful_shutdown.clone();
        proof {
            assert(dynamic_experiments.deep_view() =~= self.dynamic_experiments.deep_view());
            assert(hosted_gateways.deep_view() =~= self.hosted_gateways.deep_view());
            assert(hosted_services.deep_view() =~= self.hosted_services.deep_view());
            assert(auth_methods.deep_view() =~= self.auth_methods.deep_view());
        }
        Deployment {
            deploy_id,
            dynamic_experiments,
            hosted_gateways,
            hosted_services,
            auth_methods,
            observability,
            service_discovery,
            graceful_shutdown,
        }
    }
}

/// A list of origins that may make cross-origin requests.
#[derive(Debug, PartialEq, Eq)]
pub struct CorsAllowedOrigins {
    /// The origins.
    pub allowed_origins: Vec<String>,
}

/// What a [`CorsAllowedOrigins`] holds, as mathematical values.
pub struct CorsAllowedOriginsView {
    pub allowed_origins: Seq<Seq<char>>,
}

impl DeepView for CorsAllowedOrigins {
    type V = CorsAllowedOriginsView;

    open spec fn deep_view(&self) -> CorsAllowedOriginsView {
        CorsAllowedOriginsView {
            allowed_origins: self.allowed_origins.deep_view(),
        }
    }
}

impl Clone for CorsAllowedOrigins {
    fn clone(&self) -> (r: Self)
        ensures
            r.deep_view() == self.deep_view(),
    {
        let allowed_origins = self.allowed_origins.clone();
        proof {
            assert(allowed_origins.deep_view() =~= self.allowed_origins.deep_view());
        }
        CorsAllowedOrigins {
            allowed_origins,
        }
    }
}

/// The origins that may make cross-origin requests with credentials.
#[derive(Debug, PartialEq, Eq)]
pub enum AllowedOriginsWithCredentials {
    /// The listed origins.
    AllowedOrigins(CorsAllowedOrigins),
    /// Every origin, if the flag is set.
    UnsafeAllowAllOriginsWithCredentials(bool),
}

/// What a [`AllowedOriginsWithCredentials`] holds, as mathematical values.
pub enum AllowedOriginsWithCredentialsView {
    AllowedOrigins(CorsAllowedOriginsView),
    UnsafeAllowAllOriginsWithCredentials(bool),
}

impl DeepView for AllowedOriginsWithCredentials {
    type V = AllowedOriginsWithCredentialsView;

    open spec fn deep_view(&self) -> AllowedOriginsWithCredentialsView {
        match self {
            AllowedOriginsWithCredentials::AllowedOrigins(x) => AllowedOriginsWithCredentialsView::AllowedOrigins(x.deep_view()),
            AllowedOriginsWithCredentials::UnsafeAllowAllOriginsWithCredentials(x) => AllowedOriginsWithCredentialsView::UnsafeAllowAllOriginsWithCredentials(x.deep_view()),
        }
    }
}

impl Clone for AllowedOriginsWithCredentials {
    fn clone(&self) -> (r: Self)
        ensures
            r.deep_view() == self.deep_view(),
    {
        match self {
            AllowedOriginsWithCredentials::AllowedOrigins(x) => AllowedOriginsWithCredentials::AllowedOrigins(x.clone()),
            AllowedOriginsWithCredentials::UnsafeAllowAllOriginsWithCredentials(x) => AllowedOriginsWithCredentials::UnsafeAllowAllOriginsWithCredentials(*x),
        }
    }
}

/// The cross-origin rules of a gateway.
#[derive(Debug, PartialEq, Eq)]
pub struct Cors {
    /// Whether decisions are logged.
    pub debug: bool,
    /// Whether requests with credentials are refused.
    pub disable_credentials: bool,
    /// The origins that may send credentials.
    pub allowed_origins_with_credentials: Option<AllowedOriginsWithCredentials>,
    /// The origins that may make requests without credentials.
    pub allowed_origins_without_credentials: Option<CorsAllowedOrigins>,
    /// Further request headers that are allowed.
    pub extra_allowed_headers: Vec<String>,
    /// Further response headers that are exposed.
    pub extra_exposed_headers: Vec<String>,
    /// Whether requests from private networks are allowed.
    pub allow_private_network_access: bool,
}

/// What a [`Cors`] holds, as mathematical values.
pub struct CorsView {
    pub debug: bool,
    pub disable_credentials: bool,
    pub allowed_origins_with_credentials: Option<AllowedOriginsWithCredentialsView>,
    pub allowed_origins_without_credentials: Option<CorsAllowedOriginsView>,
    pub extra_allowed_headers: Seq<Seq<char>>,
    pub extra_exposed_headers: Seq<Seq<char>>,
    pub allow_private_network_access: bool,
}

impl DeepView for Cors {
    type V = CorsView;

    open spec fn deep_view(&self) -> CorsView {
        CorsView {
            debug: self.debug.deep_view(),
            disable_credentials: self.disable_credentials.deep_view(),
            allowed_origins_with_credentials: self.allowed_origins_with_credentials.deep_view(),
            allowed_origins_without_credentials: self.allowed_origins_without_credentials.deep_view(),
            extra_allowed_headers: self.extra_allowed_headers.deep_view(),
            extra_exposed_headers: self.extra_exposed_headers.deep_view(),
            allow_private_network_access: self.allow_private_network_access.deep_view(),
        }
    }
}

impl Clone for Cors {
    fn clone(&self) -> (r: Self)
        ensures
            r.deep_view() == self.deep_view(),
    {
        let allowed_origins_with_credentials = self.allowed_origins_with_credentials.clone();
        let allowed_origins_without_credentials = self.allowed_origins_without_credentials.clone();
        let extra_allowed_headers = self.extra_allowed_headers.clone();
        let extra_exposed_headers = self.extra_exposed_headers.clone();
        proof {
            assert(extra_allowed_headers.deep_view() =~= self.extra_allowed_headers.deep_view());
            assert(extra_exposed_headers.deep_view() =~= self.extra_exposed_headers.deep_view());
        }
        Cors {
            debug: self.debug,
            disable_credentials: self.disable_credentials,
            allowed_origins_with_credentials,
            allowed_origins_without_credentials,
            extra_allowed_headers,
            extra_exposed_headers,
            allow_private_network_access: self.allow_private_network_access,
        }
    }
}

/// An entry point for requests from outside.
#[derive(Debug, PartialEq, Eq)]
pub struct Gateway {
    /// The gateway's resource identifier.
    pub rid: String,
    /// The gateway's name in the application.
    pub encore_name: String,
    /// The address the gateway is reached at.
    pub base_url: String,
    /// The host names the gateway answers to.
    pub hostnames: Vec<String>,
    /// The gateway's cross-origin rules.
    pub cors: Option<Cors>,
}

/// What a [`Gateway`] holds, as mathematical values.
pub struct GatewayView {
    pub rid: Seq<char>,
    pub encore_name: Seq<char>,
    pub base_url: Seq<char>,
    pub hostnames: Seq<Seq<char>>,
    pub cors: Option<CorsView>,
}

impl DeepView for Gateway {
    type V = GatewayView;

    open spec fn deep_view(&self) -> GatewayView {
        GatewayView {
            rid: self.rid.deep_view(),
            encore_name: self.encore_name.deep_view(),
            base_url: self.base_url.deep_view(),
            hostnames: self.hostnames.deep_view(),
            cors: self.cors.deep_view(),
        }
    }
}

impl Clone for Gateway {
    fn clone(&self) -> (r: Self)
        ensures
            r.deep_view() == self.deep_view(),
    {
        let rid = self.rid.clone();
        let encore_name = self.encore_name.clone();
        let base_url = self.base_url.clone();
        let hostnames = self.hostnames.clone();
        let cors = self.cors.clone();
        proof {
            assert(hostnames.deep_view() =~= self.hostnames.deep_view());
        }
        Gateway {
            rid,
            encore_name,
            base_url,
            hostnames,
            cors,
        }
    }
}

/// Buckets are kept in Google Cloud Storage.
#[derive(Debug, PartialEq, Eq)]
pub struct GcsProvider {
    /// The endpoint to use in place of the default one.
    pub endpoint: Option<String>,
    /// Whether requests are made without credentials.
    pub anonymous: bool,
}

/// What a [`GcsProvider`] holds, as mathematical values.
pub struct GcsProviderView {
    pub endpoint: Option<Seq<char>>,
    pub anonymous: bool,
}

impl DeepView for GcsProvider {
    type V = GcsProviderView;

    open spec fn deep_view(&self) -> GcsProviderView {
        GcsProviderView {
            endpoint: self.endpoint.deep_view(),
            anonymous: self.anonymous.deep_view(),
        }
    }
}

impl Clone for GcsProvider {
    fn clone(&self) -> (r: Self)
        ensures
            r.deep_view() == self.deep_view(),
    {
        let endpoint = self.endpoint.clone();
        GcsProvider {
            endpoint,
            anonymous: self.anonymous,
        }
    }
}

/// Buckets are kept in S3 or a service that speaks its protocol.
#[derive(Debug, PartialEq, Eq)]
pub struct S3Provider {
    /// The region of the buckets.
    pub region: String,
    /// The endpoint to use in place of the default one.
    pub endpoint: Option<String>,
    /// The access key's identifier.
    pub access_key_id: Option<String>,
    /// The access key's secret.
    pub secret_access_key: Option<SecretData>,
}

/// What a [`S3Provider`] holds, as mathematical values.
pub struct S3ProviderView {
    pub region: Seq<char>,
    pub endpoint: Option<Seq<char>>,
    pub access_key_id: Option<Seq<char>>,
    pub secret_access_key: Option<SecretDataView>,
}

impl DeepView for S3Provider {
    type V = S3ProviderView;

    open spec fn deep_view(&self) -> S3ProviderView {
        S3ProviderView {
            region: self.region.deep_view(),
            endpoint: self.endpoint.deep_view(),
            access_key_id: self.access_key_id.deep_view(),
            secret_access_key: self.secret_access_key.deep_view(),
        }
    }
}

impl Clone for S3Provider {
    fn clone(&self) -> (r: Self)
        ensures
            r.deep_view() == self.deep_view(),
    {
        let region = self.region.clone();
        let endpoint = self.endpoint.clone();
        let access_key_id = self.access_key_id.clone();
        let secret_access_key = self.secret_access_key.clone();
        S3Provider {
            region,
            endpoint,
            access_key_id,
            secret_access_key,
        }
    }
}

/// The service that keeps a cluster's buckets.
#[derive(Debug, PartialEq, Eq)]
pub enum BucketProvider {
    /// Google Cloud Storage.
    Gcs(GcsProvider),
    /// S3.
    S3(S3Provider),
}

/// What a [`BucketProvider`] holds, as mathematical values.
pub enum BucketProviderView {
    Gcs(GcsProviderView),
    S3(S3ProviderView),
}

impl DeepView for BucketProvider {
    type V = BucketProviderView;

    open spec fn deep_view(&self) -> BucketProviderView {
        match self {
            BucketProvider::Gcs(x) => BucketProviderView::Gcs(x.deep_view()),
            BucketProvider::S3(x) => BucketProviderView::S3(x.deep_view()),
        }
    }
}

impl Clone for BucketProvider {
    fn clone(&self) -> (r: Self)
        ensures
            r.deep_view() == self.deep_view(),
    {
        match self {
            BucketProvider::Gcs(x) => BucketProvider::Gcs(x.clone()),
            BucketProvider::S3(x) => BucketProvider::S3(x.clone()),
        }
    }
}

/// A bucket of objects.
#[derive(Debug, PartialEq, Eq)]
pub struct Bucket {
    /// The bucket's resource identifier.
    pub rid: String,
    /// The bucket's name in the application.
    pub encore_name: String,
    /// The bucket's name at the provider.
    pub cloud_name: String,
    /// A prefix put before every object key.
    pub key_prefix: Option<String>,
    /// The address under which objects are public.
    pub public_base_url: Option<String>,
}

/// What a [`Bucket`] holds, as mathematical values.
pub struct BucketView {
    pub rid: Seq<char>,
    pub encore_name: Seq<char>,
    pub cloud_name: Seq<char>,
    pub key_prefix: Option<Seq<char>>,
    pub public_base_url: Option<Seq<char>>,
}

impl DeepView for Bucket {
    type V = BucketView;

    open spec fn deep_view(&self) -> BucketView {
        BucketView {
            rid: self.rid.deep_view(),
            encore_name: self.encore_name.deep_view(),
            cloud_name: self.cloud_name.deep_view(),
            key_prefix: self.key_prefix.deep_view(),
            public_base_url: self.public_base_url.deep_view(),
        }
    }
}

impl Clone for Bucket {
    fn clone(&self) -> (r: Self)
        ensures
            r.deep_view() == self.deep_view(),
    {
        let rid = self.rid.clone();
        let encore_name = self.encore_name.clone();
        let cloud_name = self.cloud_name.clone();
        let key_prefix = self.key_prefix.clone();
        let public_base_url = self.public_base_url.clone();
        Bucket {
            rid,
            encore_name,
            cloud_name,
            key_prefix,
            public_base_url,
        }
    }
}

/// The buckets kept by one provider.
#[derive(Debug, PartialEq, Eq)]
pub struct BucketCluster {
    /// The cluster's resource identifier.
    pub rid: String,
    /// The service that keeps the buckets.
    pub provider: BucketProvider,
    /// The buckets.
    pub buckets: Vec<Bucket>,
}

/// What a [`BucketCluster`] holds, as mathematical values.
pub struct BucketClusterView {
    pub rid: Seq<char>,
    pub provider: BucketProviderView,
    pub buckets: Seq<BucketView>,
}

impl DeepView for BucketCluster {
    type V = BucketClusterView;

    open spec fn deep_view(&self) -> BucketClusterView {
        BucketClusterView {
            rid: self.rid.deep_view(),
            provider: self.provider.deep_view(),
            buckets: self.buckets.deep_view(),
        }
    }
}

impl Clone for BucketCluster {
    fn clone(&self) -> (r: Self)
        ensures
            r.deep_view() == self.deep_view(),
    {
        let rid = self.rid.clone();
        let provider = self.provider.clone();
        let buckets = self.buckets.clone();
        proof {
            assert(buckets.deep_view() =~= self.buckets.deep_view());
        }
        BucketCluster {
            rid,
            provider,
            buckets,
        }
    }
}

/// A client certificate.
#[derive(Debug, PartialEq, Eq)]
pub struct ClientCert {
    /// The certificate's resource identifier.
    pub rid: String,
    /// The certificate.
    pub cert: String,
    /// The certificate's private key.
    pub key: SecretData,
}

/// What a [`ClientCert`] holds, as mathematical values.
pub struct ClientCertView {
    pub rid: Seq<char>,
    pub cert: Seq<char>,
    pub key: SecretDataView,
}

impl DeepView for ClientCert {
    type V = ClientCertView;

    open spec fn deep_view(&self) -> ClientCertView {
        ClientCertView {
            rid: self.rid.deep_view(),
            cert: self.cert.deep_view(),
            key: self.key.deep_view(),
        }
    }
}

impl Clone for ClientCert {
    fn clone(&self) -> (r: Self)
        ensures
            r.deep_view() == self.deep_view(),
    {
        let rid = self.rid.clone();
        let cert = self.cert.clone();
        let key = self.key.clone();
        ClientCert {
            rid,
            cert,
            key,
        }
    }
}

/// How a server's TLS certificate is checked.
#[derive(Debug, PartialEq, Eq)]
pub struct TlsConfig {
    /// The authority that signed the server's certificate.
    pub server_ca_cert: Option<String>,
    /// Whether the host name is left unchecked.
    pub disable_tls_hostname_verification: bool,
    /// Whether the signing authority is left unchecked.
    pub disable_ca_validation: bool,
}

/// What a [`TlsConfig`] holds, as mathematical values.
pub struct TlsConfigView {
    pub server_ca_cert: Option<Seq<char>>,
    pub disable_tls_hostname_verification: bool,
    pub disable_ca_validation: bool,
}

impl DeepView for TlsConfig {
    type V = TlsConfigView;

    open spec fn deep_view(&self) -> TlsConfigView {
        TlsConfigView {
            server_ca_cert: self.server_ca_cert.deep_view(),
            disable_tls_hostname_verification: self.disable_tls_hostname_verification.deep_view(),
            disable_ca_validation: self.disable_ca_validation.deep_view(),
        }
    }
}

impl Clone for TlsConfig {
    fn clone(&self) -> (r: Self)
        ensures
            r.deep_view() == self.deep_view(),
    {
        let server_ca_cert = self.server_ca_cert.clone();
        TlsConfig {
            server_ca_cert,
            disable_tls_hostname_verification: self.disable_tls_hostname_verification,
            disable_ca_validation: self.disable_ca_validation,
        }
    }
}

/// A role to connect to a SQL database with.
#[derive(Debug, PartialEq, Eq)]
pub struct SqlRole {
    /// The role's resource identifier.
    pub rid: String,
    /// The resource identifier of the client certificate to present.
    pub client_cert_rid: Option<String>,
    /// The user name.
    pub username: String,
    /// The password.
    pub password: SecretData,
}

/// What a [`SqlRole`] holds, as mathematical values.
pub struct SqlRoleView {
    pub rid: Seq<char>,
    pub client_cert_rid: Option<Seq<char>>,
    pub username: Seq<char>,
    pub password: SecretDataView,
}

impl DeepView for SqlRole {
    type V = SqlRoleView;

    open spec fn deep_view(&self) -> SqlRoleView {
        SqlRoleView {
            rid: self.rid.deep_view(),
            client_cert_rid: self.client_cert_rid.deep_view(),
            username: self.username.deep_view(),
            password: self.password.deep_view(),
        }
    }
}

impl Clone for SqlRole {
    fn clone(&self) -> (r: Self)
        ensures
            r.deep_view() == self.deep_view(),
    {
        let rid = self.rid.clone();
        let client_cert_rid = self.client_cert_rid.clone();
        let username = self.username.clone();
        let password = self.password.clone();
        SqlRole {
            rid,
            client_cert_rid,
            username,
            password,
        }
    }
}

/// A pool of connections to a SQL database.
#[derive(Debug, PartialEq, Eq)]
pub struct SqlConnectionPool {
    /// Whether the connections only read.
    pub is_readonly: bool,
    /// The resource identifier of the role to connect with.
    pub role_rid: String,
    /// The fewest connections kept open.
    pub min_connections: i32,
    /// The most connections opened.
    pub max_connections: i32,
}

/// What a [`SqlConnectionPool`] holds, as mathematical values.
pub struct SqlConnectionPoolView {
    pub is_readonly: bool,
    pub role_rid: Seq<char>,
    pub min_connections: i32,
    pub max_connections: i32,
}

impl DeepView for SqlConnectionPool {
    type V = SqlConnectionPoolView;

    open spec fn deep_view(&self) -> SqlConnectionPoolView {
        SqlConnectionPoolView {
            is_readonly: self.is_readonly.deep_view(),
            role_rid: self.role_rid.deep_view(),
            min_connections: self.min_connections.deep_view(),
            max_connections: self.max_connections.deep_view(),
        }
    }
}

impl Clone for SqlConnectionPool {
    fn clone(&self) -> (r: Self)
        ensures
            r.deep_view() == self.deep_view(),
    {
        let role_rid = self.role_rid.clone();
        SqlConnectionPool {
            is_readonly: self.is_readonly,
            role_rid,
            min_connections: self.min_connections,
            max_connections: self.max_connections,
        }
    }
}

/// A SQL database.
#[derive(Debug, PartialEq, Eq)]
pub struct SqlDatabase {
    /// The database's resource identifier.
    pub rid: String,
    /// The database's name in the application.
    pub encore_name: String,
    /// The database's name on the server.
    pub cloud_name: String,
    /// The pools that connect to it.
    pub conn_pools: Vec<SqlConnectionPool>,
}

/// What a [`SqlDatabase`] holds, as mathematical values.
pub struct SqlDatabaseView {
    pub rid: Seq<char>,
    pub encore_name: Seq<char>,
    pub cloud_name: Seq<char>,
    pub conn_pools: Seq<SqlConnectionPoolView>,
}

impl DeepView for SqlDatabase {
    type V = SqlDatabaseView;

    open spec fn deep_view(&self) -> SqlDatabaseView {
        SqlDatabaseView {
            rid: self.rid.deep_view(),
            encore_name: self.encore_name.deep_view(),
            cloud_name: self.cloud_name.deep_view(),
            conn_pools: self.conn_pools.deep_view(),
        }
    }
}

impl Clone for SqlDatabase {
    fn clone(&self) -> (r: Self)
        ensures
            r.deep_view() == self.deep_view(),
    {
        let rid = self.rid.clone();
        let encore_name = self.encore_name.clone();
        let cloud_name = self.cloud_name.clone();
        let conn_pools = self.conn_pools.clone();
        proof {
            assert(conn_pools.deep_view() =~= self.conn_pools.deep_view());
        }
        SqlDatabase {
            rid,
            encore_name,
            cloud_name,
            conn_pools,
        }
    }
}

/// A SQL server.
#[derive(Debug, PartialEq, Eq)]
pub struct SqlServer {
    /// The server's resource identifier.
    pub rid: String,
    /// The server's address.
    pub host: String,
    /// The server's role in the cluster.
    pub kind: ServerKind,
    /// How to check the server's certificate; absent when TLS is off.
    pub tls_config: Option<TlsConfig>,
}

/// What a [`SqlServer`] holds, as mathematical values.
pub struct SqlServerView {
    pub rid: Seq<char>,
    pub host: Seq<char>,
    pub kind: ServerKind,
    pub tls_config: Option<TlsConfigView>,
}

impl DeepView for SqlServer {
    type V = SqlServerView;

    open spec fn deep_view(&self) -> SqlServerView {
        SqlServerView {
            rid: self.rid.deep_view(),
            host: self.host.deep_view(),
            kind: self.kind.deep_view(),
            tls_config: self.tls_config.deep_view(),
        }
    }
}

impl Clone for SqlServer {
    fn clone(&self) -> (r: Self)
        ensures
            r.deep_view() == self.deep_view(),
    {
        let rid = self.rid.clone();
        let host = self.host.clone();
        let tls_config = self.tls_config.clone();
        SqlServer {
            rid,
            host,
            kind: self.kind,
            tls_config,
        }
    }
}

/// A group of SQL servers with the databases they hold.
#[derive(Debug, PartialEq, Eq)]
pub struct SqlCluster {
    /// The cluster's resource identifier.
    pub rid: String,
    /// The servers.
    pub servers: Vec<SqlServer>,
    /// The databases.
    pub databases: Vec<SqlDatabase>,
}

/// What a [`SqlCluster`] holds, as mathematical values.
pub struct SqlClusterView {
    pub rid: Seq<char>,
    pub servers: Seq<SqlServerView>,
    pub databases: Seq<SqlDatabaseView>,
}

impl DeepView for SqlCluster {
    type V = SqlClusterView;

    open spec fn deep_view(&self) -> SqlClusterView {
        SqlClusterView {
            rid: self.rid.deep_view(),
            servers: self.servers.deep_view(),
            databases: self.databases.deep_view(),
        }
    }
}

impl Clone for SqlCluster {
    fn clone(&self) -> (r: Self)
        ensures
            r.deep_view() == self.deep_view(),
    {
        let rid = self.rid.clone();
        let servers = self.servers.clone();
        let databases = self.databases.clone();
        proof {
            assert(servers.deep_view() =~= self.servers.deep_view());
            assert(databases.deep_view() =~= self.databases.deep_view());
        }
        SqlCluster {
            rid,
            servers,
            databases,
        }
    }
}

/// A Redis user with a password.
#[derive(Debug, PartialEq, Eq)]
pub struct AuthAcl {
    /// The user name.
    pub username: String,
    /// The password.
    pub password: SecretData,
}

/// What a [`AuthAcl`] holds, as mathematical values.
pub struct AuthAclView {
    pub username: Seq<char>,
    pub password: SecretDataView,
}

impl DeepView for AuthAcl {
    type V = AuthAclView;

    open spec fn deep_view(&self) -> AuthAclView {
        AuthAclView {
            username: self.username.deep_view(),
            password: self.password.deep_view(),
        }
    }
}

impl Clone for AuthAcl {
    fn clone(&self) -> (r: Self)
        ensures
            r.deep_view() == self.deep_view(),
    {
        let username = self.username.clone();
        let password = self.password.clone();
        AuthAcl {
            username,
            password,
        }
    }
}

/// How a Redis role authenticates.
#[derive(Debug, PartialEq, Eq)]
pub enum RedisRoleAuth {
    /// With a user name and a password.
    Acl(AuthAcl),
    /// With a shared string.
    AuthString(SecretData),
}

/// What a [`RedisRoleAuth`] holds, as mathematical values.
pub enum RedisRoleAuthView {
    Acl(AuthAclView),
    AuthString(SecretDataView),
}

impl DeepView for RedisRoleAuth {
    type V = RedisRoleAuthView;

    open spec fn deep_view(&self) -> RedisRoleAuthView {
        match self {
            RedisRoleAuth::Acl(x) => RedisRoleAuthView::Acl(x.deep_view()),
            RedisRoleAuth::AuthString(x) => RedisRoleAuthView::AuthString(x.deep_view()),
        }
    }
}

impl Clone for RedisRoleAuth {
    fn clone(&self) -> (r: Self)
        ensures
            r.deep_view() == self.deep_view(),
    {
        match self {
            RedisRoleAuth::Acl(x) => RedisRoleAuth::Acl(x.clone()),
            RedisRoleAuth::AuthString(x) => RedisRoleAuth::AuthString(x.clone()),
        }
    }
}

/// A role to connect to Redis with.
#[derive(Debug, PartialEq, Eq)]
pub struct RedisRole {
    /// The role's resource identifier.
    pub rid: String,
    /// The resource identifier of the client certificate to present.
    pub client_cert_rid: Option<String>,
    /// How the role authenticates, if it does.
    pub auth: Option<RedisRoleAuth>,
}

/// What a [`RedisRole`] holds, as mathematical values.
pub struct RedisRoleView {
    pub rid: Seq<char>,
    pub client_cert_rid: Option<Seq<char>>,
    pub auth: Option<RedisRoleAuthView>,
}

impl DeepView for RedisRole {
    type V = RedisRoleView;

    open spec fn deep_view(&self) -> RedisRoleView {
        RedisRoleView {
            rid: self.rid.deep_view(),
            client_cert_rid: self.client_cert_rid.deep_view(),
            auth: self.auth.deep_view(),
        }
    }
}

impl Clone for RedisRole {
    fn clone(&self) -> (r: Self)
        ensures
            r.deep_view() == self.deep_view(),
    {
        let rid = self.rid.clone();
        let client_cert_rid = self.client_cert_rid.clone();
        let auth = self.auth.clone();
        RedisRole {
            rid,
            client_cert_rid,
            auth,
        }
    }
}

/// A pool of connections to a Redis database.
#[derive(Debug, PartialEq, Eq)]
pub struct RedisConnectionPool {
    /// Whether the connections only read.
    pub is_readonly: bool,
    /// The resource identifier of the role to connect with.
    pub role_rid: String,
    /// The fewest connections kept open.
    pub min_connections: i32,
    /// The most connections opened.
    pub max_connections: i32,
}

/// What a [`RedisConnectionPool`] holds, as mathematical values.
pub struct RedisConnectionPoolView {
    pub is_readonly: bool,
    pub role_rid: Seq<char>,
    pub min_connections: i32,
    pub max_connections: i32,
}

impl DeepView for RedisConnectionPool {
    type V = RedisConnectionPoolView;

    open spec fn deep_view(&self) -> RedisConnectionPoolView {
        RedisConnectionPoolView {
            is_readonly: self.is_readonly.deep_view(),
            role_rid: self.role_rid.deep_view(),
            min_connections: self.min_connections.deep_view(),
            max_connections: self.max_connections.deep_view(),
        }
    }
}

impl Clone for RedisConnectionPool {
    fn clone(&self) -> (r: Self)
        ensures
            r.deep_view() == self.deep_view(),
    {
        let role_rid = self.role_rid.clone();
        RedisConnectionPool {
            is_readonly: self.is_readonly,
            role_rid,
            min_connections: self.min_connections,
            max_connections: self.max_connections,
        }
    }
}

/// A Redis database.
#[derive(Debug, PartialEq, Eq)]
pub struct RedisDatabase {
    /// The database's resource identifier.
    pub rid: String,
    /// The database's name in the application.
    pub encore_name: String,
    /// The database's index on the server.
    pub database_idx: i32,
    /// A prefix put before every key.
    pub key_prefix: Option<String>,
    /// The pools that connect to it.
    pub conn_pools: Vec<RedisConnectionPool>,
}

/// What a [`RedisDatabase`] holds, as mathematical values.
pub struct RedisDatabaseView {
    pub rid: Seq<char>,
    pub encore_name: Seq<char>,
    pub database_idx: i32,
    pub key_prefix: Option<Seq<char>>,
    pub conn_pools: Seq<RedisConnectionPoolView>,
}

impl DeepView for RedisDatabase {
    type V = RedisDatabaseView;

    open spec fn deep_view(&self) -> RedisDatabaseView {
        RedisDatabaseView {
            rid: self.rid.deep_view(),
            encore_name: self.encore_name.deep_view(),
            database_idx: self.database_idx.deep_view(),
            key_prefix: self.key_prefix.deep_view(),
            conn_pools: self.conn_pools.deep_view(),
        }
    }
}

impl Clone for RedisDatabase {
    fn clone(&self) -> (r: Self)
        ensures
            r.deep_view() == self.deep_view(),
    {
        let rid = self.rid.clone();
        let encore_name = self.encore_name.clone();
        let key_prefix = self.key_prefix.clone();
        let conn_pools = self.conn_pools.clone();
        proof {
            assert(conn_pools.deep_view() =~= self.conn_pools.deep_view());
        }
        RedisDatabase {
            rid,
            encore_name,
            database_idx: self.database_idx,
            key_prefix,
            conn_pools,
        }
    }
}

/// A Redis server.
#[derive(Debug, PartialEq, Eq)]
pub struct RedisServer {
    /// The server's resource identifier.
    pub rid: String,
    /// The server's address.
    pub host: String,
    /// The server's role in the cluster.
    pub kind: ServerKind,
    /// How to check the server's certificate; absent when TLS is off.
    pub tls_config: Option<TlsConfig>,
}

/// What a [`RedisServer`] holds, as mathematical values.
pub struct RedisServerView {
    pub rid: Seq<char>,
    pub host: Seq<char>,
    pub kind: ServerKind,
    pub tls_config: Option<TlsConfigView>,
}

impl DeepView for RedisServer {
    type V = RedisServerView;

    open spec fn deep_view(&self) -> RedisServerView {
        RedisServerView {
            rid: self.rid.deep_view(),
            host: self.host.deep_view(),
            kind: self.kind.deep_view(),
            tls_config: self.tls_config.deep_view(),
        }
    }
}

impl Clone for RedisServer {
    fn clone(&self) -> (r: Self)
        ensures
            r.deep_view() == self.deep_view(),
    {
        let rid = self.rid.clone();
        let host = self.host.clone();
        let tls_config = self.tls_config.clone();
        RedisServer {
            rid,
            host,
            kind: self.kind,
            tls_config,
        }
    }
}

/// A group of Redis servers with the databases they hold.
#[derive(Debug, PartialEq, Eq)]
pub struct RedisCluster {
    /// The cluster's resource identifier.
    pub rid: String,
    /// The servers.
    pub servers: Vec<RedisServer>,
    /// The databases.
    pub databases: Vec<RedisDatabase>,
}

/// What a [`RedisCluster`] holds, as mathematical values.
pub struct RedisClusterView {
    pub rid: Seq<char>,
    pub servers: Seq<RedisServerView>,
    pub databases: Seq<RedisDatabaseView>,
}

impl DeepView for RedisCluster {
    type V = RedisClusterView;

    open spec fn deep_view(&self) -> RedisClusterView {
        RedisClusterView {
            rid: self.rid.deep_view(),
            servers: self.servers.deep_view(),
            databases: self.databases.deep_view(),
        }
    }
}

impl Clone for RedisCluster {
    fn clone(&self) -> (r: Self)
        ensures
            r.deep_view() == self.deep_view(),
    {
        let rid = self.rid.clone();
        let servers = self.servers.clone();
        let databases = self.databases.clone();
        proof {
            assert(servers.deep_view() =~= self.servers.deep_view());
            assert(databases.deep_view() =~= self.databases.deep_view());
        }
        RedisCluster {
            rid,
            servers,
            databases,
        }
    }
}

/// Messages are carried by NSQ.
#[derive(Debug, PartialEq, Eq)]
pub struct NsqProvider {
    /// The addresses of the NSQ daemons.
    pub hosts: Vec<String>,
}

/// What a [`NsqProvider`] holds, as mathematical values.
pub struct NsqProviderView {
    pub hosts: Seq<Seq<char>>,
}

impl DeepView for NsqProvider {
    type V = NsqProviderView;

    open spec fn deep_view(&self) -> NsqProviderView {
        NsqProviderView {
            hosts: self.hosts.deep_view(),
        }
    }
}

impl Clone for NsqProvider {
    fn clone(&self) -> (r: Self)
        ensures
            r.deep_view() == self.deep_view(),
    {
        let hosts = self.hosts.clone();
        proof {
            assert(hosts.deep_view() =~= self.hosts.deep_view());
        }
        NsqProvider {
            hosts,
        }
    }
}

/// The service that carries a cluster's messages.
#[derive(Debug, PartialEq, Eq)]
pub enum PubSubProvider {
    /// Google Cloud Pub/Sub.
    Gcp,
    /// AWS SNS and SQS.
    Aws,
    /// NSQ.
    Nsq(NsqProvider),
}

/// What a [`PubSubProvider`] holds, as mathematical values.
pub enum PubSubProviderView {
    Gcp,
    Aws,
    Nsq(NsqProviderView),
}

impl DeepView for PubSubProvider {
    type V = PubSubProviderView;

    open spec fn deep_view(&self) -> PubSubProviderView {
        match self {
            PubSubProvider::Gcp => PubSubProviderView::Gcp,
            PubSubProvider::Aws => PubSubProviderView::Aws,
            PubSubProvider::Nsq(x) => PubSubProviderView::Nsq(x.deep_view()),
        }
    }
}

impl Clone for PubSubProvider {
    fn clone(&self) -> (r: Self)
        ensures
            r.deep_view() == self.deep_view(),
    {
        match self {
            PubSubProvider::Gcp => PubSubProvider::Gcp,
            PubSubProvider::Aws => PubSubProvider::Aws,
            PubSubProvider::Nsq(x) => PubSubProvider::Nsq(x.clone()),
        }
    }
}

/// What Google Cloud Pub/Sub needs to know of a topic.
#[derive(Debug, PartialEq, Eq)]
pub struct TopicGcpConfig {
    /// The project that holds the topic.
    pub project_id: String,
}

/// What a [`TopicGcpConfig`] holds, as mathematical values.
pub struct TopicGcpConfigView {
    pub project_id: Seq<char>,
}

impl DeepView for TopicGcpConfig {
    type V = TopicGcpConfigView;

    open spec fn deep_view(&self) -> TopicGcpConfigView {
        TopicGcpConfigView {
            project_id: self.project_id.deep_view(),
        }
    }
}

impl Clone for TopicGcpConfig {
    fn clone(&self) -> (r: Self)
        ensures
            r.deep_view() == self.deep_view(),
    {
        let project_id = self.project_id.clone();
        TopicGcpConfig {
            project_id,
        }
    }
}

/// What a provider needs to know of a topic.
#[derive(Debug, PartialEq, Eq)]
pub enum TopicProviderConfig {
    /// For Google Cloud Pub/Sub.
    GcpConfig(TopicGcpConfig),
}

/// What a [`TopicProviderConfig`] holds, as mathematical values.
pub enum TopicProviderConfigView {
    GcpConfig(TopicGcpConfigView),
}

impl DeepView for TopicProviderConfig {
    type V = TopicProviderConfigView;

    open spec fn deep_view(&self) -> TopicProviderConfigView {
        match self {
            TopicProviderConfig::GcpConfig(x) => TopicProviderConfigView::GcpConfig(x.deep_view()),
        }
    }
}

impl Clone for TopicProviderConfig {
    fn clone(&self) -> (r: Self)
        ensures
            r.deep_view() == self.deep_view(),
    {
        match self {
            TopicProviderConfig::GcpConfig(x) => TopicProviderConfig::GcpConfig(x.clone()),
        }
    }
}

/// A topic that messages are published to.
#[derive(Debug, PartialEq, Eq)]
pub struct PubSubTopic {
    /// The topic's resource identifier.
    pub rid: String,
    /// The topic's name in the application.
    pub encore_name: String,
    /// The topic's name at the provider.
    pub cloud_name: String,
    /// How often one message may be delivered.
    pub delivery_guarantee: DeliveryGuarantee,
    /// The attribute that messages are ordered by.
    pub ordering_attr: Option<String>,
    /// What the provider needs to know.
    pub provider_config: Option<TopicProviderConfig>,
}

/// What a [`PubSubTopic`] holds, as mathematical values.
pub struct PubSubTopicView {
    pub rid: Seq<char>,
    pub encore_name: Seq<char>,
    pub cloud_name: Seq<char>,
    pub delivery_guarantee: DeliveryGuarantee,
    pub ordering_attr: Option<Seq<char>>,
    pub provider_config: Option<TopicProviderConfigView>,
}

impl DeepView for PubSubTopic {
    type V = PubSubTopicView;

    open spec fn deep_view(&self) -> PubSubTopicView {
        PubSubTopicView {
            rid: self.rid.deep_view(),
            encore_name: self.encore_name.deep_view(),
            cloud_name: self.cloud_name.deep_view(),
            delivery_guarantee: self.delivery_guarantee.deep_view(),
            ordering_attr: self.ordering_attr.deep_view(),
            provider_config: self.provider_config.deep_view(),
        }
    }
}

impl Clone for PubSubTopic {
    fn clone(&self) -> (r: Self)
        ensures
            r.deep_view() == self.deep_view(),
    {
        let rid = self.rid.clone();
        let encore_name = self.encore_name.clone();
        let cloud_name = self.cloud_name.clone();
        let ordering_attr = self.ordering_attr.clone();
        let provider_config = self.provider_config.clone();
        PubSubTopic {
            rid,
            encore_name,
            cloud_name,
            delivery_guarantee: self.delivery_guarantee,
            ordering_attr,
            provider_config,
        }
    }
}

/// What Google Cloud Pub/Sub needs to know of a subscription.
#[derive(Debug, PartialEq, Eq)]
pub struct SubscriptionGcpConfig {
    /// The project that holds the subscription.
    pub project_id: String,
    /// The service account that pushes messages.
    pub push_service_account: Option<String>,
    /// The audience of the tokens sent with pushed messages.
    pub push_jwt_audience: Option<String>,
}

/// What a [`SubscriptionGcpConfig`] holds, as mathematical values.
pub struct SubscriptionGcpConfigView {
    pub project_id: Seq<char>,
    pub push_service_account: Option<Seq<char>>,
    pub push_jwt_audience: Option<Seq<char>>,
}

impl DeepView for SubscriptionGcpConfig {
    type V = SubscriptionGcpConfigView;

    open spec fn deep_view(&self) -> SubscriptionGcpConfigView {
        SubscriptionGcpConfigView {
            project_id: self.project_id.deep_view(),
            push_service_account: self.push_service_account.deep_view(),
            push_jwt_audience: self.push_jwt_audience.deep_view(),
        }
    }
}

impl Clone for SubscriptionGcpConfig {
    fn clone(&self) -> (r: Self)
        ensures
            r.deep_view() == self.deep_view(),
    {
        let project_id = self.project_id.clone();
        let push_service_account = self.push_service_account.clone();
        let push_jwt_audience = self.push_jwt_audience.clone();
        SubscriptionGcpConfig {
            project_id,
            push_service_account,
            push_jwt_audience,
        }
    }
}

/// What a provider needs to know of a subscription.
#[derive(Debug, PartialEq, Eq)]
pub enum SubscriptionProviderConfig {
    /// For Google Cloud Pub/Sub.
    GcpConfig(SubscriptionGcpConfig),
}

/// What a [`SubscriptionProviderConfig`] holds, as mathematical values.
pub enum SubscriptionProviderConfigView {
    GcpConfig(SubscriptionGcpConfigView),
}

impl DeepView for SubscriptionProviderConfig {
    type V = SubscriptionProviderConfigView;

    open spec fn deep_view(&self) -> SubscriptionProviderConfigView {
        match self {
            SubscriptionProviderConfig::GcpConfig(x) => SubscriptionProviderConfigView::GcpConfig(x.deep_view()),
        }
    }
}

impl Clone for SubscriptionProviderConfig {
    fn clone(&self) -> (r: Self)
        ensures
            r.deep_view() == self.deep_view(),
    {
        match self {
            SubscriptionProviderConfig::GcpConfig(x) => SubscriptionProviderConfig::GcpConfig(x.clone()),
        }
    }
}

/// A subscription to a topic.
#[derive(Debug, PartialEq, Eq)]
pub struct PubSubSubscription {
    /// The subscription's resource identifier.
    pub rid: String,
    /// The topic's name in the application.
    pub topic_encore_name: String,
    /// The subscription's name in the application.
    pub subscription_encore_name: String,
    /// The topic's name at the provider.
    pub topic_cloud_name: String,
    /// The subscription's name at the provider.
    pub subscription_cloud_name: String,
    /// Whether messages are only pushed, never pulled.
    pub push_only: bool,
    /// What the provider needs to know.
    pub provider_config: Option<SubscriptionProviderConfig>,
}

/// What a [`PubSubSubscription`] holds, as mathematical values.
pub struct PubSubSubscriptionView {
    pub rid: Seq<char>,
    pub topic_encore_name: Seq<char>,
    pub subscription_encore_name: Seq<char>,
    pub topic_cloud_name: Seq<char>,
    pub subscription_cloud_name: Seq<char>,
    pub push_only: bool,
    pub provider_config: Option<SubscriptionProviderConfigView>,
}

impl DeepView for PubSubSubscription {
    type V = PubSubSubscriptionView;

    open spec fn deep_view(&self) -> PubSubSubscriptionView {
        PubSubSubscriptionView {
            rid: self.rid.deep_view(),
            topic_encore_name: self.topic_encore_name.deep_view(),
            subscription_encore_name: self.subscription_encore_name.deep_view(),
            topic_cloud_name: self.topic_cloud_name.deep_view(),
            subscription_cloud_name: self.subscription_cloud_name.deep_view(),
            push_only: self.push_only.deep_view(),
            provider_config: self.provider_config.deep_view(),
        }
    }
}

impl Clone for PubSubSubscription {
    fn clone(&self) -> (r: Self)
        ensures
            r.deep_view() == self.deep_view(),
    {
        let rid = self.rid.clone();
        let topic_encore_name = self.topic_encore_name.clone();
        let subscription_encore_name = self.subscription_encore_name.clone();
        let topic_cloud_name = self.topic_cloud_name.clone();
        let subscription_cloud_name = self.subscription_cloud_name.clone();
        let provider_config = self.provider_config.clone();
        PubSubSubscription {
            rid,
            topic_encore_name,
            subscription_encore_name,
            topic_cloud_name,
            subscription_cloud_name,
            push_only: self.push_only,
            provider_config,
        }
    }
}

/// The topics and subscriptions carried by one provider.
#[derive(Debug, PartialEq, Eq)]
pub struct PubSubCluster {
    /// The cluster's resource identifier.
    pub rid: String,
    /// The topics.
    pub topics: Vec<PubSubTopic>,
    /// The subscriptions, topic by topic.
    pub subscriptions: Vec<PubSubSubscription>,
    /// The service that carries the messages.
    pub provider: PubSubProvider,
}

/// What a [`PubSubCluster`] holds, as mathematical values.
pub struct PubSubClusterView {
    pub rid: Seq<char>,
    pub topics: Seq<PubSubTopicView>,
    pub subscriptions: Seq<PubSubSubscriptionView>,
    pub provider: PubSubProviderView,
}

impl DeepView for PubSubCluster {
    type V = PubSubClusterView;

    open spec fn deep_view(&self) -> PubSubClusterView {
        PubSubClusterView {
            rid: self.rid.deep_view(),
            topics: self.topics.deep_view(),
            subscriptions: self.subscriptions.deep_view(),
            provider: self.provider.deep_view(),
        }
    }
}

impl Clone for PubSubCluster {
    fn clone(&self) -> (r: Self)
        ensures
            r.deep_view() == self.deep_view(),
    {
        let rid = self.rid.clone();
        let topics = self.topics.clone();
        let subscriptions = self.subscriptions.clone();
        let provider = self.provider.clone();
        proof {
            assert(topics.deep_view() =~= self.topics.deep_view());
            assert(subscriptions.deep_view() =~= self.subscriptions.deep_view());
        }
        PubSubCluster {
            rid,
            topics,
            subscriptions,
            provider,
        }
    }
}

/// A secret of the application.
#[derive(Debug, PartialEq, Eq)]
pub struct AppSecret {
    /// The secret's resource identifier.
    pub rid: String,
    /// The secret's name in the application.
    pub encore_name: String,
    /// The secret's value.
    pub data: SecretData,
}

/// What a [`AppSecret`] holds, as mathematical values.
pub struct AppSecretView {
    pub rid: Seq<char>,
    pub encore_name: Seq<char>,
    pub data: SecretDataView,
}

impl DeepView for AppSecret {
    type V = AppSecretView;

    open spec fn deep_view(&self) -> AppSecretView {
        AppSecretView {
            rid: self.rid.deep_view(),
            encore_name: self.encore_name.deep_view(),
            data: self.data.deep_view(),
        }
    }
}

impl Clone for AppSecret {
    fn clone(&self) -> (r: Self)
        ensures
            r.deep_view() == self.deep_view(),
    {
        let rid = self.rid.clone();
        let encore_name = self.encore_name.clone();
        let data = self.data.clone();
        AppSecret {
            rid,
            encore_name,
            data,
        }
    }
}

/// The infrastructure resources an application may reach.
#[derive(Debug, PartialEq, Eq)]
pub struct Resources {
    /// The gateways.
    pub gateways: Vec<Gateway>,
    /// The SQL clusters.
    pub sql_clusters: Vec<SqlCluster>,
    /// The Pub/Sub clusters.
    pub pubsub_clusters: Vec<PubSubCluster>,
    /// The Redis clusters.
    pub redis_clusters: Vec<RedisCluster>,
    /// The application's secrets.
    pub app_secrets: Vec<AppSecret>,
    /// The bucket clusters.
    pub bucket_clusters: Vec<BucketCluster>,
}

/// What a [`Resources`] holds, as mathematical values.
pub struct ResourcesView {
    pub gateways: Seq<GatewayView>,
    pub sql_clusters: Seq<SqlClusterView>,
    pub pubsub_clusters: Seq<PubSubClusterView>,
    pub redis_clusters: Seq<RedisClusterView>,
    pub app_secrets: Seq<AppSecretView>,
    pub bucket_clusters: Seq<BucketClusterView>,
}

impl DeepView for Resources {
    type V = ResourcesView;

    open spec fn deep_view(&self) -> ResourcesView {
        ResourcesView {
            gateways: self.gateways.deep_view(),
            sql_clusters: self.sql_clusters.deep_view(),
            pubsub_clusters: self.pubsub_clusters.deep_view(),
            redis_clusters: self.redis_clusters.deep_view(),
            app_secrets: self.app_secrets.deep_view(),
            bucket_clusters: self.bucket_clusters.deep_view(),
        }
    }
}

impl Clone for Resources {
    fn clone(&self) -> (r: Self)
        ensures
            r.deep_view() == self.deep_view(),
    {
        let gateways = self.gateways.clone();
        let sql_clusters = self.sql_clusters.clone();
        let pubsub_clusters = self.pubsub_clusters.clone();
        let redis_clusters = self.redis_clusters.clone();
        let app_secrets = self.app_secrets.clone();
        let bucket_clusters = self.bucket_clusters.clone();
        proof {
            assert(gateways.deep_view() =~= self.gateways.deep_view());
            assert(sql_clusters.deep_view() =~= self.sql_clusters.deep_view());
            assert(pubsub_clusters.deep_view() =~= self.pubsub_clusters.deep_view());
            assert(redis_clusters.deep_view() =~= self.redis_clusters.deep_view());
            assert(app_secrets.deep_view() =~= self.app_secrets.deep_view());
            assert(bucket_clusters.deep_view() =~= self.bucket_clusters.deep_view());
        }
        Resources {
            gateways,
            sql_clusters,
            pubsub_clusters,
            redis_clusters,
            app_secrets,
            bucket_clusters,
        }
    }
}

/// The credentials that resources are reached with; each is stored once.
#[derive(Debug, PartialEq, Eq)]
pub struct Credentials {
    /// The client certificates.
    pub client_certs: Vec<ClientCert>,
    /// The SQL roles.
    pub sql_roles: Vec<SqlRole>,
    /// The Redis roles.
    pub redis_roles: Vec<RedisRole>,
}

/// What a [`Credentials`] holds, as mathematical values.
pub struct CredentialsView {
    pub client_certs: Seq<ClientCertView>,
    pub sql_roles: Seq<SqlRoleView>,
    pub redis_roles: Seq<RedisRoleView>,
}

impl DeepView for Credentials {
    type V = CredentialsView;

    open spec fn deep_view(&self) -> CredentialsView {
        CredentialsView {
            client_certs: self.client_certs.deep_view(),
            sql_roles: self.sql_roles.deep_view(),
            redis_roles: self.redis_roles.deep_view(),
        }
    }
}

impl Clone for Credentials {
    fn clone(&self) -> (r: Self)
        ensures
            r.deep_view() == self.deep_view(),
    {
        let client_certs = self.client_certs.clone();
        let sql_roles = self.sql_roles.clone();
        let redis_roles = self.redis_roles.clone();
        proof {
            assert(client_certs.deep_view() =~= self.client_certs.deep_view());
            assert(sql_roles.deep_view() =~= self.sql_roles.deep_view());
            assert(redis_roles.deep_view() =~= self.redis_roles.deep_view());
        }
        Credentials {
            client_certs,
            sql_roles,
            redis_roles,
        }
    }
}

/// Resources together with the credentials to reach them.
#[derive(Debug, PartialEq, Eq)]
pub struct Infrastructure {
    /// The resources.
    pub resources: Resources,
    /// The credentials.
    pub credentials: Credentials,
}

/// What a [`Infrastructure`] holds, as mathematical values.
pub struct InfrastructureView {
    pub resources: ResourcesView,
    pub credentials: CredentialsView,
}

impl DeepView for Infrastructure {
    type V = InfrastructureView;

    open spec fn deep_view(&self) -> InfrastructureView {
        InfrastructureView {
            resources: self.resources.deep_view(),
            credentials: self.credentials.deep_view(),
        }
    }
}

impl Clone for Infrastructure {
    fn clone(&self) -> (r: Self)
        ensures
            r.deep_view() == self.deep_view(),
    {
        let resources = self.resources.clone();
        let credentials = self.credentials.clone();
        Infrastructure {
            resources,
            credentials,
        }
    }
}

/// Everything a running application is told about its deployment.
#[derive(Debug, PartialEq, Eq)]
pub struct RuntimeConfig {
    /// The environment it runs in.
    pub environment: Environment,
    /// The infrastructure it may reach.
    pub infra: Infrastructure,
    /// What this deployment runs.
    pub deployment: Deployment,
}

/// What a [`RuntimeConfig`] holds, as mathematical values.
pub struct RuntimeConfigView {
    pub environment: EnvironmentView,
    pub infra: InfrastructureView,
    pub deployment: DeploymentView,
}

impl DeepView for RuntimeConfig {
    type V = RuntimeConfigView;

    open spec fn deep_view(&self) -> RuntimeConfigView {
        RuntimeConfigView {
            environment: self.environment.deep_view(),
            infra: self.infra.deep_view(),
            deployment: self.deployment.deep_view(),
        }
    }
}

impl Clone for RuntimeConfig {
    fn clone(&self) -> (r: Self)
        ensures
            r.deep_view() == self.deep_view(),
    {
        let environment = self.environment.clone();
        let infra = self.infra.clone();
        let deployment = self.deployment.clone();
        RuntimeConfig {
            environment,
            infra,
            deployment,
        }
    }
}

} // verus!
