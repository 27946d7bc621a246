//! The parts of the descriptor that issue no resource identifier: the
//! environment, shutdown times, authentication between services, service
//! discovery, cross-origin rules and hosted services.
use vstd::prelude::*;
use crate::infracfg::secret_data_of;
use crate::infracfg::map_env_string_to_secret_data;
use crate::infracfg::Auth;
use crate::infracfg::GracefulShutdown;
use crate::infracfg::Metadata;
use crate::infracfg::ServiceDiscovery;
use crate::infracfg::CORS;
use crate::runtime;
use crate::runtime::AllowedOriginsWithCredentials;
use crate::runtime::AllowedOriginsWithCredentialsView;
use crate::runtime::AuthMethod;
use crate::runtime::AuthMethodView;
use crate::runtime::Cloud;
use crate::runtime::Cors;
use crate::runtime::CorsAllowedOrigins;
use crate::runtime::CorsAllowedOriginsView;
use crate::runtime::CorsView;
use crate::runtime::Duration;
use crate::runtime::EncoreAuth;
use crate::runtime::EncoreAuthKey;
use crate::runtime::EncoreAuthKeyView;
use crate::runtime::EncoreAuthView;
use crate::runtime::Environment;
use crate::runtime::EnvironmentType;
use crate::runtime::EnvironmentView;
use crate::runtime::GracefulShutdownView;
use crate::runtime::HostedService;
use crate::runtime::HostedServiceView;
use crate::runtime::Location;
use crate::runtime::LocationView;
use crate::runtime::ServiceAuth;
use crate::runtime::ServiceAuthView;
use crate::runtime::ServiceDiscoveryView;
use crate::text::str_eq;

verus! {

/// The characters of an optional string; none when it is absent.
pub open spec fn text_or_empty(s: Option<String>) -> Seq<char> {
    match s {
        Some(s) => s@,
        None => Seq::empty(),
    }
}

/// The strings of an optional list; none when it is absent.
pub open spec fn texts_or_empty(list: Option<Vec<String>>) -> Seq<Seq<char>> {
    match list {
        Some(list) => list.deep_view(),
        None => Seq::empty(),
    }
}

/// The kind of environment that a name stands for.
pub open spec fn environment_type_of(name: Option<String>) -> EnvironmentType {
    match name {
        Some(name) => if name@ == "development"@ {
            EnvironmentType::Development
        } else if name@ == "production"@ {
            EnvironmentType::Production
        } else if name@ == "ephemeral"@ {
            EnvironmentType::Ephemeral
        } else if name@ == "test"@ {
            EnvironmentType::Test
        } else {
            EnvironmentType::Unspecified
        },
        None => EnvironmentType::Unspecified,
    }
}

/// The cloud that a name stands for.
pub open spec fn cloud_of(name: Option<String>) -> Cloud {
    match name {
        Some(name) => if name@ == "local"@ {
            Cloud::Local
        } else if name@ == "encore"@ {
            Cloud::Encore
        } else if name@ == "aws"@ {
            Cloud::Aws
        } else if name@ == "gcp"@ {
            Cloud::Gcp
        } else if name@ == "azure"@ {
            Cloud::Azure
        } else {
            Cloud::Unspecified
        },
        None => Cloud::Unspecified,
    }
}

/// The environment that the metadata describes. Absent metadata describes
/// an unnamed environment of no known kind.
pub open spec fn environment_of(metadata: Option<Metadata>) -> EnvironmentView {
    match metadata {
        Some(m) => EnvironmentView {
            app_id: Seq::empty(),
            app_slug: text_or_empty(m.app_id),
            env_id: Seq::empty(),
            env_name: text_or_empty(m.env_name),
            env_type: environment_type_of(m.env_type),
            cloud: cloud_of(m.cloud),
        },
        None => EnvironmentView {
            app_id: Seq::empty(),
            app_slug: Seq::empty(),
            env_id: Seq::empty(),
            env_name: Seq::empty(),
            env_type: EnvironmentType::Unspecified,
            cloud: Cloud::Unspecified,
        },
    }
}

/// A copy of an optional string, or the empty string.
pub fn clone_or_empty(s: &Option<String>) -> (r: String)
    ensures
        r@ == text_or_empty(*s),
{
    match s {
        Some(s) => s.clone(),
        None => String::new(),
    }
}

/// A copy of an optional list of strings, or the empty list.
pub fn clone_list_or_empty(list: &Option<Vec<String>>) -> (r: Vec<String>)
    ensures
        r.deep_view() == texts_or_empty(*list),
{
    match list {
        Some(list) => {
            let r = list.clone();
            assert(r.deep_view() =~= list.deep_view());
            r
        },
        None => {
            let r: Vec<String> = Vec::new();
            assert(r.deep_view() =~= Seq::<Seq<char>>::empty());
            r
        },
    }
}

/// The kind of environment that a name stands for.
pub fn map_environment_type(name: &Option<String>) -> (t: EnvironmentType)
    ensures
        t == environment_type_of(*name),
{
    match name {
        Some(name) => {
            let name = name.as_str();
            if str_eq(name, "development") {
                EnvironmentType::Development
            } else if str_eq(name, "production") {
                EnvironmentType::Production
            } else if str_eq(name, "ephemeral") {
                EnvironmentType::Ephemeral
            } else if str_eq(name, "test") {
                EnvironmentType::Test
            } else {
                EnvironmentType::Unspecified
            }
        },
        None => EnvironmentType::Unspecified,
    }
}

/// The cloud that a name stands for.
pub fn map_cloud(name: &Option<String>) -> (c: Cloud)
    ensures
        c == cloud_of(*name),
{
    match name {
        Some(name) => {
            let name = name.as_str();
            if str_eq(name, "local") {
                Cloud::Local
            } else if str_eq(name, "encore") {
                Cloud::Encore
            } else if str_eq(name, "aws") {
                Cloud::Aws
            } else if str_eq(name, "gcp") {
                Cloud::Gcp
            } else if str_eq(name, "azure") {
                Cloud::Azure
            } else {
                Cloud::Unspecified
            }
        },
        None => Cloud::Unspecified,
    }
}

/// Maps the metadata to the environment.
pub fn map_environment(metadata: &Option<Metadata>) -> (env: Environment)
    ensures
        env.deep_view() == environment_of(*metadata),
{
    match metadata {
        Some(m) => Environment {
            app_id: String::new(),
            app_slug: clone_or_empty(&m.app_id),
            env_id: String::new(),
            env_name: clone_or_empty(&m.env_name),
            env_type: map_environment_type(&m.env_type),
            cloud: map_cloud(&m.cloud),
        },
        None => Environment {
            app_id: String::new(),
            app_slug: String::new(),
            env_id: String::new(),
            env_name: String::new(),
            env_type: EnvironmentType::Unspecified,
            cloud: Cloud::Unspecified,
        },
    }
}

/// A number of whole seconds as a span of time.
pub open spec fn seconds_of(seconds: Option<i32>) -> Option<Duration> {
    match seconds {
        Some(s) => Some(Duration { seconds: s as i64, nanos: 0 }),
        None => None,
    }
}

/// A number of whole seconds as a span of time.
pub fn map_seconds(seconds: Option<i32>) -> (d: Option<Duration>)
    ensures
        d == seconds_of(seconds),
{
    match seconds {
        Some(s) => Some(Duration { seconds: s as i64, nanos: 0 }),
        None => None,
    }
}

/// The shutdown times of the descriptor.
pub open spec fn graceful_shutdown_of(gs: Option<GracefulShutdown>) -> Option<GracefulShutdownView> {
    match gs {
        Some(gs) => Some(
            GracefulShutdownView {
                total: seconds_of(gs.total),
                shutdown_hooks: seconds_of(gs.shutdown_hooks),
                handlers: seconds_of(gs.handlers),
            },
        ),
        None => None,
    }
}

/// Maps the shutdown times.
pub fn map_graceful_shutdown(gs: &Option<GracefulShutdown>) -> (r: Option<runtime::GracefulShutdown>)
    ensures
        r.deep_view() == graceful_shutdown_of(*gs),
{
    match gs {
        Some(gs) => Some(
            runtime::GracefulShutdown {
                total: map_seconds(gs.total),
                shutdown_hooks: map_seconds(gs.shutdown_hooks),
                handlers: map_seconds(gs.handlers),
            },
        ),
        None => None,
    }
}

/// One configured way to authenticate, in the descriptor: signing with the
/// one key it names. A negative key number wraps around.
pub open spec fn service_auth_of(auth: Auth) -> ServiceAuthView {
    match auth {
        Auth::Key(k) => ServiceAuthView {
            auth_method: AuthMethodView::EncoreAuth(
                EncoreAuthView {
                    auth_keys: seq![EncoreAuthKeyView { id: k.id as u32, data: secret_data_of(k.key) }],
                },
            ),
        },
    }
}

/// A list of configured ways to authenticate, in the descriptor.
pub open spec fn service_auths_of(auths: Seq<Auth>) -> Seq<ServiceAuthView> {
    Seq::new(auths.len(), |i: int| service_auth_of(auths[i]))
}

/// The ways a deployment authenticates calls between services: those that
/// are configured or, with none configured, no authentication.
pub open spec fn auth_methods_of(auth: Option<Vec<Auth>>) -> Seq<ServiceAuthView> {
    match auth {
        Some(auths) => service_auths_of(auths@),
        None => seq![ServiceAuthView { auth_method: AuthMethodView::Noop }],
    }
}

/// Maps one way to authenticate.
pub fn map_service_auth(auth: &Auth) -> (r: ServiceAuth)
    ensures
        r.deep_view() == service_auth_of(*auth),
{
    match auth {
        Auth::Key(k) => {
            let mut auth_keys: Vec<EncoreAuthKey> = Vec::new();
            auth_keys.push(
                EncoreAuthKey {
                    id: #[verifier::truncate]
                    (k.id as u32),
                    data: map_env_string_to_secret_data(&k.key),
                },
            );
            assert(auth_keys.deep_view() =~= seq![
                EncoreAuthKeyView { id: k.id as u32, data: secret_data_of(k.key) },
            ]);
            ServiceAuth { auth_method: AuthMethod::EncoreAuth(EncoreAuth { auth_keys }) }
        },
    }
}

/// Maps a list of ways to authenticate.
pub fn map_service_auths(auths: &Vec<Auth>) -> (r: Vec<ServiceAuth>)
    ensures
        r.deep_view() == service_auths_of(auths@),
{
    let mut out: Vec<ServiceAuth> = Vec::new();
    let mut i: usize = 0;
    while i < auths.len()
        invariant
            i <= auths.len(),
            out.len() == i,
            forall|j: int| 0 <= j < i ==> (#[trigger] out@[j]).deep_view() == service_auth_of(auths@[j]),
        decreases auths.len() - i,
    {
        out.push(map_service_auth(&auths[i]));
        i += 1;
    }
    assert(out.deep_view() =~= service_auths_of(auths@));
    out
}

/// Maps the ways in which the deployment authenticates calls between
/// services.
pub fn map_auth_methods(auth: &Option<Vec<Auth>>) -> (r: Vec<ServiceAuth>)
    ensures
        r.deep_view() == auth_methods_of(*auth),
{
    match auth {
        Some(auths) => map_service_auths(auths),
        None => {
            let mut out: Vec<ServiceAuth> = Vec::new();
            out.push(ServiceAuth { auth_method: AuthMethod::Noop });
            assert(out.deep_view() =~= seq![ServiceAuthView { auth_method: AuthMethodView::Noop }]);
            out
        },
    }
}

/// Where one service is reached. A service that configures no
/// authentication of its own takes the deployment's.
pub open spec fn location_of(sd: ServiceDiscovery, fallback: Seq<ServiceAuthView>) -> LocationView {
    LocationView {
        base_url: sd.base_url@,
        auth_methods: match sd.auth {
            Some(auths) => service_auths_of(auths@),
            None => fallback,
        },
    }
}

/// The service discovery of the descriptor: every configured service with
/// its location, in the configured order.
pub open spec fn service_discovery_of(
    services: Option<Vec<(String, ServiceDiscovery)>>,
    fallback: Seq<ServiceAuthView>,
) -> Option<ServiceDiscoveryView> {
    match services {
        Some(services) => Some(
            ServiceDiscoveryView {
                services: Seq::new(
                    services@.len(),
                    |i: int| (services@[i].0@, location_of(services@[i].1, fallback)),
                ),
            },
        ),
        None => None,
    }
}

/// Maps the service discovery. `fallback` is how the deployment
/// authenticates.
pub fn map_service_discovery(
    services: &Option<Vec<(String, ServiceDiscovery)>>,
    fallback: &Vec<ServiceAuth>,
) -> (r: Option<runtime::ServiceDiscovery>)
    ensures
        r.deep_view() == service_discovery_of(*services, fallback.deep_view()),
{
    match services {
        Some(services) => {
            let mut out: Vec<(String, Location)> = Vec::new();
            let mut i: usize = 0;
            while i < services.len()
                invariant
                    i <= services.len(),
                    out.len() == i,
                    forall|j: int|
                        0 <= j < i ==> (#[trigger] out@[j]).deep_view() == (
                            services@[j].0@,
                            location_of(services@[j].1, fallback.deep_view()),
                        ),
                decreases services.len() - i,
            {
                let entry = &services[i];
                let auth_methods = match &entry.1.auth {
                    Some(auths) => map_service_auths(auths),
                    None => {
                        let copy = fallback.clone();
                        assert(copy.deep_view() =~= fallback.deep_view());
                        copy
                    },
                };
                out.push((entry.0.clone(), Location { base_url: entry.1.base_url.clone(), auth_methods }));
                i += 1;
            }
            let r = runtime::ServiceDiscovery { services: out };
            assert(r.deep_view().services =~= service_discovery_of(
                Some(*services),
                fallback.deep_view(),
            )->0.services);
            Some(r)
        },
        None => None,
    }
}

/// A list of origins, in the descriptor.
pub open spec fn allowed_origins_of(origins: Option<Vec<String>>) -> Option<CorsAllowedOriginsView> {
    match origins {
        Some(origins) => Some(CorsAllowedOriginsView { allowed_origins: origins.deep_view() }),
        None => None,
    }
}

/// The cross-origin rules of the descriptor. Credentials stay enabled and
/// requests from private networks are allowed.
pub open spec fn cors_of(cors: Option<CORS>) -> Option<CorsView> {
    match cors {
        Some(cors) => Some(
            CorsView {
                debug: match cors.debug {
                    Some(debug) => debug,
                    None => false,
                },
                disable_credentials: false,
                allowed_origins_with_credentials: match allowed_origins_of(
                    cors.allow_origins_with_credentials,
                ) {
                    Some(origins) => Some(AllowedOriginsWithCredentialsView::AllowedOrigins(origins)),
                    None => None,
                },
                allowed_origins_without_credentials: allowed_origins_of(
                    cors.allow_origins_without_credentials,
                ),
                extra_allowed_headers: texts_or_empty(cors.allow_headers),
                extra_exposed_headers: texts_or_empty(cors.expose_headers),
                allow_private_network_access: true,
            },
        ),
        None => None,
    }
}

/// Maps a list of origins.
pub fn map_allowed_origins(origins: &Option<Vec<String>>) -> (r: Option<CorsAllowedOrigins>)
    ensures
        r.deep_view() == allowed_origins_of(*origins),
{
    match origins {
        Some(origins) => {
            let allowed_origins = origins.clone();
            assert(allowed_origins.deep_view() =~= origins.deep_view());
            Some(CorsAllowedOrigins { allowed_origins })
        },
        None => None,
    }
}

/// Maps the cross-origin rules.
pub fn map_cors(cors: &Option<CORS>) -> (r: Option<Cors>)
    ensures
        r.deep_view() == cors_of(*cors),
{
    match cors {
        Some(cors) => Some(
            Cors {
                debug: match cors.debug {
                    Some(debug) => debug,
                    None => false,
                },
                disable_credentials: false,
                allowed_origins_with_credentials: match map_allowed_origins(
                    &cors.allow_origins_with_credentials,
                ) {
                    Some(origins) => Some(AllowedOriginsWithCredentials::AllowedOrigins(origins)),
                    None => None,
                },
                allowed_origins_without_credentials: map_allowed_origins(
                    &cors.allow_origins_without_credentials,
                ),
                extra_allowed_headers: clone_list_or_empty(&cors.allow_headers),
                extra_exposed_headers: clone_list_or_empty(&cors.expose_headers),
                allow_private_network_access: true,
            },
        ),
        None => None,
    }
}

/// The services that the deployment runs, each with the same number of
/// worker threads and the same logging configuration.
pub open spec fn hosted_services_of(
    services: Option<Vec<String>>,
    worker_threads: Option<i32>,
    log_config: Option<String>,
) -> Seq<HostedServiceView> {
    match services {
        Some(services) => Seq::new(
            services@.len(),
            |i: int|
                HostedServiceView {
                    name: services@[i]@,
                    worker_threads,
                    log_config: log_config.deep_view(),
                },
        ),
        None => Seq::empty(),
    }
}

/// Maps the hosted services.
pub fn map_hosted_services(
    services: &Option<Vec<String>>,
    worker_threads: Option<i32>,
    log_config: &Option<String>,
) -> (r: Vec<HostedService>)
    ensures
        r.deep_view() == hosted_services_of(*services, worker_threads, *log_config),
{
    let mut out: Vec<HostedService> = Vec::new();
    match services {
        Some(services) => {
            let mut i: usize = 0;
            while i < services.len()
                invariant
                    i <= services.len(),
                    out.len() == i,
                    forall|j: int|
                        0 <= j < i ==> (#[trigger] out@[j]).deep_view() == (HostedServiceView {
                            name: services@[j]@,
                            worker_threads,
                            log_config: log_config.deep_view(),
                        }),
                decreases services.len() - i,
            {
                out.push(
                    HostedService {
                        name: services[i].clone(),
                        worker_threads,
                        log_config: log_config.clone(),
                    },
                );
                i += 1;
            }
            assert(out.deep_view() =~= hosted_services_of(Some(*services), worker_threads, *log_config));
        },
        None => {
            assert(out.deep_view() =~= Seq::<HostedServiceView>::empty());
        },
    }
    out
}

} // verus!
