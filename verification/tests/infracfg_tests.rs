use tsparser::infracfg::map_env_string_to_secret_data;
use tsparser::infracfg::map_infra_to_runtime;
use tsparser::infracfg::map_infra_with_secrets;
use tsparser::infracfg::redis::redis_is_complete;
use tsparser::infracfg::redis::redis_unknown_modes;
use tsparser::infracfg::AWSSnsSqs;
use tsparser::infracfg::AWSSub;
use tsparser::infracfg::AWSTopic;
use tsparser::infracfg::Auth;
use tsparser::infracfg::Bucket;
use tsparser::infracfg::ClientCert;
use tsparser::infracfg::DatadogMetrics;
use tsparser::infracfg::EnvRef;
use tsparser::infracfg::EnvString;
use tsparser::infracfg::GCPPubsub;
use tsparser::infracfg::GCPSub;
use tsparser::infracfg::GCPTopic;
use tsparser::infracfg::GracefulShutdown;
use tsparser::infracfg::InfraConfig;
use tsparser::infracfg::KeyAuth;
use tsparser::infracfg::Metadata;
use tsparser::infracfg::Metrics;
use tsparser::infracfg::NSQPubsub;
use tsparser::infracfg::NSQSub;
use tsparser::infracfg::NSQTopic;
use tsparser::infracfg::ObjectStorage;
use tsparser::infracfg::PubSub;
use tsparser::infracfg::PushConfig;
use tsparser::infracfg::Redis;
use tsparser::infracfg::RedisAuth;
use tsparser::infracfg::SQLDatabase;
use tsparser::infracfg::SQLServer;
use tsparser::infracfg::Secrets;
use tsparser::infracfg::ServiceDiscovery;
use tsparser::infracfg::TLSConfig;
use tsparser::infracfg::CORS;
use tsparser::infracfg::GCS;
use tsparser::infracfg::S3;
use tsparser::runtime;
use tsparser::runtime::AuthMethod;
use tsparser::runtime::BucketProvider;
use tsparser::runtime::Cloud;
use tsparser::runtime::DeliveryGuarantee;
use tsparser::runtime::Duration;
use tsparser::runtime::EnvironmentType;
use tsparser::runtime::MetricsBackend;
use tsparser::runtime::PubSubProvider;
use tsparser::runtime::RedisRoleAuth;
use tsparser::runtime::SecretData;
use tsparser::runtime::SecretEncoding;
use tsparser::runtime::SecretSource;
use tsparser::runtime::ServerKind;
use tsparser::runtime::SubscriptionProviderConfig;
use tsparser::runtime::TopicProviderConfig;

fn empty() -> InfraConfig {
    InfraConfig {
        metadata: None,
        graceful_shutdown: None,
        auth: None,
        service_discovery: None,
        metrics: None,
        sql_servers: None,
        redis: None,
        pubsub: None,
        secrets: None,
        hosted_services: None,
        hosted_gateways: None,
        cors: None,
        object_storage: None,
        worker_threads: None,
        log_config: None,
    }
}

fn s(text: &str) -> String {
    text.to_string()
}

fn embedded(text: &str) -> SecretData {
    SecretData {
        encoding: SecretEncoding::Plain,
        source: SecretSource::Embedded(text.as_bytes().to_vec()),
        sub_path: None,
    }
}

fn from_env(name: &str) -> SecretData {
    SecretData { encoding: SecretEncoding::Plain, source: SecretSource::Env(s(name)), sub_path: None }
}

fn bucket(name: &str) -> Bucket {
    Bucket { name: s(name), key_prefix: None, public_base_url: None }
}

fn cert(text: &str) -> ClientCert {
    ClientCert { cert: s(text), key: EnvString::EnvRef(EnvRef { env: s("CERT_KEY") }) }
}

fn database(username: &str, client_cert: Option<ClientCert>) -> SQLDatabase {
    SQLDatabase {
        name: None,
        max_connections: None,
        min_connections: None,
        username: s(username),
        password: EnvString::String(s("pw")),
        client_cert,
    }
}

fn tls(client_cert: Option<ClientCert>) -> TLSConfig {
    TLSConfig {
        disabled: false,
        ca: Some(s("ca")),
        client_cert,
        disable_tls_hostname_verification: true,
        disable_ca_validation: false,
    }
}

fn redis(auth: Option<RedisAuth>, tls_config: Option<TLSConfig>) -> Redis {
    Redis {
        host: s("redis:6379"),
        database_index: 3,
        auth,
        key_prefix: Some(s("app:")),
        tls_config,
        max_connections: Some(7),
        min_connections: None,
    }
}

#[test]
fn an_env_string_becomes_a_secret() {
    assert_eq!(map_env_string_to_secret_data(&EnvString::String(s("héllo"))), embedded("héllo"));
    assert_eq!(
        map_env_string_to_secret_data(&EnvString::EnvRef(EnvRef { env: s("TOKEN") })),
        from_env("TOKEN")
    );
}

#[test]
fn an_empty_config_gives_an_empty_descriptor() {
    let config = map_infra_to_runtime(empty(), None);
    assert_eq!(config.environment.app_slug, "");
    assert_eq!(config.environment.env_type, EnvironmentType::Unspecified);
    assert_eq!(config.environment.cloud, Cloud::Unspecified);
    assert_eq!(
        config.deployment.auth_methods,
        vec![runtime::ServiceAuth { auth_method: AuthMethod::Noop }]
    );
    assert!(config.deployment.hosted_gateways.is_empty());
    assert!(config.deployment.hosted_services.is_empty());
    assert!(config.deployment.observability.metrics.is_empty());
    assert_eq!(config.deployment.service_discovery, None);
    assert_eq!(config.deployment.graceful_shutdown, None);
    let resources = &config.infra.resources;
    assert!(resources.gateways.is_empty());
    assert!(resources.sql_clusters.is_empty());
    assert!(resources.pubsub_clusters.is_empty());
    assert!(resources.redis_clusters.is_empty());
    assert!(resources.app_secrets.is_empty());
    assert!(resources.bucket_clusters.is_empty());
    assert!(config.infra.credentials.client_certs.is_empty());
    assert!(config.infra.credentials.sql_roles.is_empty());
    assert!(config.infra.credentials.redis_roles.is_empty());
}

#[test]
fn the_environment_is_named_after_the_metadata() {
    let mut infra = empty();
    infra.metadata = Some(Metadata {
        app_id: Some(s("shop")),
        env_name: Some(s("staging")),
        env_type: Some(s("production")),
        cloud: Some(s("gcp")),
        base_url: Some(s("https://shop.example")),
    });
    let env = map_infra_to_runtime(infra, None).environment;
    assert_eq!(env.app_id, "");
    assert_eq!(env.app_slug, "shop");
    assert_eq!(env.env_id, "");
    assert_eq!(env.env_name, "staging");
    assert_eq!(env.env_type, EnvironmentType::Production);
    assert_eq!(env.cloud, Cloud::Gcp);
}

#[test]
fn environment_kinds_and_clouds_go_by_name() {
    let kinds = [
        ("development", EnvironmentType::Development),
        ("production", EnvironmentType::Production),
        ("ephemeral", EnvironmentType::Ephemeral),
        ("test", EnvironmentType::Test),
        ("Production", EnvironmentType::Unspecified),
        ("", EnvironmentType::Unspecified),
    ];
    for (name, kind) in kinds {
        let mut infra = empty();
        infra.metadata = Some(Metadata { env_type: Some(s(name)), ..Metadata::default() });
        assert_eq!(map_infra_to_runtime(infra, None).environment.env_type, kind);
    }
    let clouds = [
        ("local", Cloud::Local),
        ("encore", Cloud::Encore),
        ("aws", Cloud::Aws),
        ("gcp", Cloud::Gcp),
        ("azure", Cloud::Azure),
        ("moon", Cloud::Unspecified),
    ];
    for (name, cloud) in clouds {
        let mut infra = empty();
        infra.metadata = Some(Metadata { cloud: Some(s(name)), ..Metadata::default() });
        assert_eq!(map_infra_to_runtime(infra, None).environment.cloud, cloud);
    }
}

#[test]
fn shutdown_times_are_whole_seconds() {
    let mut infra = empty();
    infra.graceful_shutdown = Some(GracefulShutdown { total: Some(30), shutdown_hooks: None, handlers: Some(-1) });
    let shutdown = map_infra_to_runtime(infra, None).deployment.graceful_shutdown.unwrap();
    assert_eq!(shutdown.total, Some(Duration { seconds: 30, nanos: 0 }));
    assert_eq!(shutdown.shutdown_hooks, None);
    assert_eq!(shutdown.handlers, Some(Duration { seconds: -1, nanos: 0 }));
}

#[test]
fn services_without_auth_take_the_deployments() {
    let key = |id: i32| Auth::Key(KeyAuth { id, key: EnvString::String(s("k")) });
    let signed = |id: u32| runtime::ServiceAuth {
        auth_method: AuthMethod::EncoreAuth(runtime::EncoreAuth {
            auth_keys: vec![runtime::EncoreAuthKey { id, data: embedded("k") }],
        }),
    };
    let mut infra = empty();
    infra.auth = Some(vec![key(1), key(-1)]);
    infra.service_discovery = Some(vec![
        (s("orders"), ServiceDiscovery { base_url: s("http://orders"), auth: None }),
        (s("users"), ServiceDiscovery { base_url: s("http://users"), auth: Some(vec![key(9)]) }),
    ]);
    let deployment = map_infra_to_runtime(infra, None).deployment;
    // A negative key number wraps around.
    assert_eq!(deployment.auth_methods, vec![signed(1), signed(u32::MAX)]);
    let services = deployment.service_discovery.unwrap().services;
    assert_eq!(services.len(), 2);
    assert_eq!(services[0].0, "orders");
    assert_eq!(services[0].1.base_url, "http://orders");
    assert_eq!(services[0].1.auth_methods, vec![signed(1), signed(u32::MAX)]);
    assert_eq!(services[1].0, "users");
    assert_eq!(services[1].1.auth_methods, vec![signed(9)]);
}

#[test]
fn identifiers_are_issued_in_order() {
    let mut infra = empty();
    infra.metadata = Some(Metadata { base_url: Some(s("https://api")), ..Metadata::default() });
    infra.object_storage = Some(vec![
        ObjectStorage::GCS(GCS {
            endpoint: Some(s("http://gcs")),
            buckets: vec![(s("images"), bucket("img-prod")), (s("docs"), bucket("docs-prod"))],
        }),
        ObjectStorage::S3(S3 {
            region: s("eu-west-1"),
            endpoint: None,
            access_key_id: Some(s("AK")),
            secret_access_key: Some(EnvString::EnvRef(EnvRef { env: s("S3_SECRET") })),
            buckets: vec![(s("logs"), bucket("logs-prod"))],
        }),
    ]);
    infra.metrics = Some(Metrics::Datadog(DatadogMetrics {
        collection_interval: Some(15),
        site: s("datadoghq.eu"),
        api_key: EnvString::String(s("dd")),
    }));
    infra.hosted_gateways = Some(vec![s("api"), s("admin")]);
    infra.hosted_services = Some(vec![s("orders")]);
    infra.worker_threads = Some(4);
    infra.cors = Some(CORS {
        debug: None,
        allow_headers: Some(vec![s("X-A")]),
        expose_headers: None,
        allow_origins_without_credentials: Some(vec![s("*")]),
        allow_origins_with_credentials: Some(vec![s("https://shop")]),
    });
    infra.sql_servers = Some(vec![SQLServer {
        host: s("db:5432"),
        tls_config: Some(tls(Some(cert("server-cert")))),
        databases: vec![
            (s("orders"), database("o", None)),
            (s("users"), database("u", Some(cert("users-cert")))),
        ],
    }]);
    infra.redis = Some(vec![(s("cache"), redis(None, Some(tls(Some(cert("redis-cert"))))))]);
    infra.pubsub = Some(vec![PubSub::NSQ(NSQPubsub { hosts: s("nsq:4150"), topics: vec![] })]);
    infra.secrets =
        Some(Secrets::Values(vec![(s("A"), EnvString::String(s("1"))), (s("B"), EnvString::String(s("2")))]));

    let config = map_infra_to_runtime(infra, None);
    let resources = &config.infra.resources;
    let credentials = &config.infra.credentials;

    // Buckets: 0 to 4.
    assert_eq!(resources.bucket_clusters.len(), 2);
    assert_eq!(resources.bucket_clusters[0].rid, "0");
    assert_eq!(
        resources.bucket_clusters[0].provider,
        BucketProvider::Gcs(runtime::GcsProvider { endpoint: Some(s("http://gcs")), anonymous: false })
    );
    assert_eq!(
        resources.bucket_clusters[0].buckets,
        vec![
            runtime::Bucket {
                rid: s("1"),
                encore_name: s("images"),
                cloud_name: s("img-prod"),
                key_prefix: None,
                public_base_url: None,
            },
            runtime::Bucket {
                rid: s("2"),
                encore_name: s("docs"),
                cloud_name: s("docs-prod"),
                key_prefix: None,
                public_base_url: None,
            },
        ]
    );
    assert_eq!(resources.bucket_clusters[1].rid, "3");
    assert_eq!(
        resources.bucket_clusters[1].provider,
        BucketProvider::S3(runtime::S3Provider {
            region: s("eu-west-1"),
            endpoint: None,
            access_key_id: Some(s("AK")),
            secret_access_key: Some(from_env("S3_SECRET")),
        })
    );
    assert_eq!(resources.bucket_clusters[1].buckets[0].rid, "4");

    // Metrics: 5.
    let metrics = &config.deployment.observability.metrics;
    assert_eq!(metrics.len(), 1);
    assert_eq!(metrics[0].rid, "5");
    assert_eq!(metrics[0].collection_interval, Some(Duration { seconds: 15, nanos: 0 }));
    assert_eq!(
        metrics[0].provider,
        MetricsBackend::Datadog(runtime::Datadog { site: s("datadoghq.eu"), api_key: embedded("dd") })
    );

    // Gateways: 6 and 7.
    assert_eq!(resources.gateways.len(), 2);
    assert_eq!(resources.gateways[0].rid, "6");
    assert_eq!(resources.gateways[0].encore_name, "api");
    assert_eq!(resources.gateways[0].base_url, "https://api");
    assert_eq!(resources.gateways[1].rid, "7");
    assert_eq!(config.deployment.hosted_gateways, vec![s("6"), s("7")]);
    let cors = resources.gateways[1].cors.as_ref().unwrap();
    assert!(!cors.debug);
    assert!(!cors.disable_credentials);
    assert!(cors.allow_private_network_access);
    assert_eq!(cors.extra_allowed_headers, vec![s("X-A")]);
    assert!(cors.extra_exposed_headers.is_empty());
    assert_eq!(
        cors.allowed_origins_without_credentials,
        Some(runtime::CorsAllowedOrigins { allowed_origins: vec![s("*")] })
    );
    assert_eq!(
        cors.allowed_origins_with_credentials,
        Some(runtime::AllowedOriginsWithCredentials::AllowedOrigins(runtime::CorsAllowedOrigins {
            allowed_origins: vec![s("https://shop")]
        }))
    );
    assert_eq!(
        config.deployment.hosted_services,
        vec![runtime::HostedService { name: s("orders"), worker_threads: Some(4), log_config: None }]
    );

    // SQL: server certificate 8; orders: role 9, database 10; users:
    // certificate 11, role 12, database 13; cluster 14, server 15.
    assert_eq!(resources.sql_clusters.len(), 1);
    let cluster = &resources.sql_clusters[0];
    assert_eq!(cluster.rid, "14");
    assert_eq!(
        cluster.servers,
        vec![runtime::SqlServer {
            rid: s("15"),
            host: s("db:5432"),
            kind: ServerKind::Primary,
            tls_config: Some(runtime::TlsConfig {
                server_ca_cert: Some(s("ca")),
                disable_tls_hostname_verification: true,
                disable_ca_validation: false,
            }),
        }]
    );
    assert_eq!(
        cluster.databases,
        vec![
            runtime::SqlDatabase {
                rid: s("10"),
                encore_name: s("orders"),
                cloud_name: s("orders"),
                conn_pools: vec![runtime::SqlConnectionPool {
                    is_readonly: false,
                    role_rid: s("9"),
                    min_connections: 0,
                    max_connections: 100,
                }],
            },
            runtime::SqlDatabase {
                rid: s("13"),
                encore_name: s("users"),
                cloud_name: s("users"),
                conn_pools: vec![runtime::SqlConnectionPool {
                    is_readonly: false,
                    role_rid: s("12"),
                    min_connections: 0,
                    max_connections: 100,
                }],
            },
        ]
    );
    assert_eq!(
        credentials.sql_roles,
        vec![
            runtime::SqlRole {
                rid: s("9"),
                client_cert_rid: Some(s("8")),
                username: s("o"),
                password: embedded("pw"),
            },
            runtime::SqlRole {
                rid: s("12"),
                client_cert_rid: Some(s("11")),
                username: s("u"),
                password: embedded("pw"),
            },
        ]
    );

    // Redis: certificate 16, role 17, database 18, cluster 19, server 20.
    assert_eq!(resources.redis_clusters.len(), 1);
    let cache = &resources.redis_clusters[0];
    assert_eq!(cache.rid, "19");
    assert_eq!(cache.servers[0].rid, "20");
    assert_eq!(cache.servers[0].host, "redis:6379");
    assert_eq!(
        cache.databases,
        vec![runtime::RedisDatabase {
            rid: s("18"),
            encore_name: s("cache"),
            database_idx: 3,
            key_prefix: Some(s("app:")),
            conn_pools: vec![runtime::RedisConnectionPool {
                is_readonly: false,
                role_rid: s("17"),
                min_connections: 0,
                max_connections: 7,
            }],
        }]
    );
    assert_eq!(
        credentials.redis_roles,
        vec![runtime::RedisRole { rid: s("17"), client_cert_rid: Some(s("16")), auth: None }]
    );
    assert_eq!(
        credentials.client_certs,
        vec![
            runtime::ClientCert { rid: s("8"), cert: s("server-cert"), key: from_env("CERT_KEY") },
            runtime::ClientCert { rid: s("11"), cert: s("users-cert"), key: from_env("CERT_KEY") },
            runtime::ClientCert { rid: s("16"), cert: s("redis-cert"), key: from_env("CERT_KEY") },
        ]
    );

    // Pub/Sub: 21.
    assert_eq!(resources.pubsub_clusters.len(), 1);
    assert_eq!(resources.pubsub_clusters[0].rid, "21");
    assert_eq!(
        resources.pubsub_clusters[0].provider,
        PubSubProvider::Nsq(runtime::NsqProvider { hosts: vec![s("nsq:4150")] })
    );

    // Secrets: 22 and 23.
    assert_eq!(
        resources.app_secrets,
        vec![
            runtime::AppSecret { rid: s("22"), encore_name: s("A"), data: embedded("1") },
            runtime::AppSecret { rid: s("23"), encore_name: s("B"), data: embedded("2") },
        ]
    );
}

#[test]
fn tls_is_checked_by_default_and_absent_when_off() {
    let server = |tls_config: Option<TLSConfig>| SQLServer { host: s("db"), tls_config, databases: vec![] };
    let mut infra = empty();
    infra.sql_servers = Some(vec![
        server(None),
        server(Some(TLSConfig {
            disabled: true,
            ca: Some(s("ca")),
            client_cert: None,
            disable_tls_hostname_verification: true,
            disable_ca_validation: true,
        })),
    ]);
    let clusters = map_infra_to_runtime(infra, None).infra.resources.sql_clusters;
    assert_eq!(
        clusters[0].servers[0].tls_config,
        Some(runtime::TlsConfig {
            server_ca_cert: None,
            disable_tls_hostname_verification: false,
            disable_ca_validation: false,
        })
    );
    assert_eq!(clusters[1].servers[0].tls_config, None);
    assert_eq!(clusters[0].rid, "0");
    assert_eq!(clusters[0].servers[0].rid, "1");
    assert_eq!(clusters[1].rid, "2");
    assert_eq!(clusters[1].servers[0].rid, "3");
}

#[test]
fn a_database_may_name_itself_and_its_pool() {
    let mut infra = empty();
    infra.sql_servers = Some(vec![SQLServer {
        host: s("db"),
        tls_config: None,
        databases: vec![(
            s("orders"),
            SQLDatabase {
                name: Some(s("orders_v2")),
                max_connections: Some(20),
                min_connections: Some(2),
                username: s("o"),
                password: EnvString::EnvRef(EnvRef { env: s("PW") }),
                client_cert: None,
            },
        )],
    }]);
    let config = map_infra_to_runtime(infra, None);
    let database = &config.infra.resources.sql_clusters[0].databases[0];
    assert_eq!(database.cloud_name, "orders_v2");
    assert_eq!(database.conn_pools[0].min_connections, 2);
    assert_eq!(database.conn_pools[0].max_connections, 20);
    assert_eq!(config.infra.credentials.sql_roles[0].client_cert_rid, None);
    assert_eq!(config.infra.credentials.sql_roles[0].password, from_env("PW"));
}

#[test]
fn redis_authenticates_by_its_mode() {
    let auth = |auth_type: &str| RedisAuth {
        auth_type: s(auth_type),
        username: Some(s("user")),
        password: Some(EnvString::String(s("pw"))),
        auth_string: Some(EnvString::String(s("shared"))),
    };
    let mut infra = empty();
    infra.redis = Some(vec![
        (s("a"), redis(Some(auth("acl")), None)),
        (s("b"), redis(Some(auth("auth_string")), None)),
        (s("c"), redis(Some(auth("something else")), None)),
    ]);
    assert!(redis_is_complete(&infra.redis));
    assert_eq!(redis_unknown_modes(&infra.redis), vec![s("c")]);
    assert_eq!(redis_unknown_modes(&None), Vec::<String>::new());
    let roles = map_infra_to_runtime(infra, None).infra.credentials.redis_roles;
    assert_eq!(
        roles[0].auth,
        Some(RedisRoleAuth::Acl(runtime::AuthAcl { username: s("user"), password: embedded("pw") }))
    );
    assert_eq!(roles[1].auth, Some(RedisRoleAuth::AuthString(embedded("shared"))));
    // A mode that is not known counts as the shared string.
    assert_eq!(roles[2].auth, Some(RedisRoleAuth::AuthString(embedded("shared"))));
    // Each database takes four identifiers: role, database, cluster, server.
    assert_eq!(roles[0].rid, "0");
    assert_eq!(roles[1].rid, "4");
    assert_eq!(roles[2].rid, "8");
}

#[test]
fn incomplete_redis_auth_is_found_out() {
    let acl_without_password =
        RedisAuth { auth_type: s("acl"), username: Some(s("u")), password: None, auth_string: Some(EnvString::String(s("x"))) };
    let no_string = RedisAuth { auth_type: s("auth_string"), username: None, password: None, auth_string: None };
    assert!(!redis_is_complete(&Some(vec![(s("a"), redis(Some(acl_without_password), None))])));
    assert!(!redis_is_complete(&Some(vec![(s("a"), redis(None, None)), (s("b"), redis(Some(no_string), None))])));
    assert!(redis_is_complete(&Some(vec![(s("a"), redis(None, None))])));
    assert!(redis_is_complete(&None));
}

#[test]
fn topics_and_subscriptions_are_listed_by_provider() {
    let mut infra = empty();
    infra.pubsub = Some(vec![
        PubSub::GCPPubsub(GCPPubsub {
            project_id: s("proj"),
            topics: vec![
                (
                    s("orders"),
                    GCPTopic {
                        name: s("orders-topic"),
                        project_id: None,
                        subscriptions: vec![
                            (
                                s("mail"),
                                GCPSub {
                                    name: s("mail-sub"),
                                    project_id: Some(s("other")),
                                    push_config: Some(PushConfig {
                                        service_account: s("sa"),
                                        jwt_audience: s("aud"),
                                        id: s("x"),
                                    }),
                                },
                            ),
                            (s("audit"), GCPSub { name: s("audit-sub"), project_id: None, push_config: None }),
                        ],
                    },
                ),
                (
                    s("users"),
                    GCPTopic {
                        name: s("users-topic"),
                        project_id: Some(s("users-proj")),
                        subscriptions: vec![(
                            s("sync"),
                            GCPSub { name: s("sync-sub"), project_id: None, push_config: None },
                        )],
                    },
                ),
            ],
        }),
        PubSub::AWSSnsSqs(AWSSnsSqs {
            topics: vec![(
                s("events"),
                AWSTopic { arn: s("arn:topic"), subscriptions: vec![(s("worker"), AWSSub { arn: s("arn:sub") })] },
            )],
        }),
        PubSub::NSQ(NSQPubsub {
            hosts: s("nsq"),
            topics: vec![(
                s("jobs"),
                NSQTopic { name: s("jobs-topic"), subscriptions: vec![(s("runner"), NSQSub { name: s("channel") })] },
            )],
        }),
    ]);
    let clusters = map_infra_to_runtime(infra, None).infra.resources.pubsub_clusters;
    // Google: topics 0 and 1, subscriptions 2 to 4, cluster 5. AWS: topic
    // 6, subscription 7, cluster 8. NSQ: topic 9, subscription 10, cluster 11.
    assert_eq!(clusters.len(), 3);
    assert_eq!(clusters[0].rid, "5");
    assert_eq!(clusters[1].rid, "8");
    assert_eq!(clusters[2].rid, "11");

    let gcp = &clusters[0];
    assert_eq!(gcp.provider, PubSubProvider::Gcp);
    assert_eq!(gcp.topics.len(), 2);
    assert_eq!(gcp.topics[0].rid, "0");
    assert_eq!(gcp.topics[1].rid, "1");
    assert_eq!(gcp.topics[0].encore_name, "orders");
    assert_eq!(gcp.topics[0].cloud_name, "orders-topic");
    assert_eq!(gcp.topics[0].delivery_guarantee, DeliveryGuarantee::AtLeastOnce);
    assert_eq!(gcp.topics[0].ordering_attr, None);
    assert_eq!(
        gcp.topics[0].provider_config,
        Some(TopicProviderConfig::GcpConfig(runtime::TopicGcpConfig { project_id: s("proj") }))
    );
    assert_eq!(
        gcp.topics[1].provider_config,
        Some(TopicProviderConfig::GcpConfig(runtime::TopicGcpConfig { project_id: s("users-proj") }))
    );
    assert_eq!(gcp.subscriptions.len(), 3);
    assert_eq!(
        gcp.subscriptions[0],
        runtime::PubSubSubscription {
            rid: s("2"),
            topic_encore_name: s("orders"),
            subscription_encore_name: s("mail"),
            topic_cloud_name: s("orders-topic"),
            subscription_cloud_name: s("mail-sub"),
            push_only: true,
            provider_config: Some(SubscriptionProviderConfig::GcpConfig(runtime::SubscriptionGcpConfig {
                project_id: s("other"),
                push_service_account: Some(s("sa")),
                push_jwt_audience: Some(s("aud")),
            })),
        }
    );
    assert_eq!(gcp.subscriptions[1].subscription_encore_name, "audit");
    assert!(!gcp.subscriptions[1].push_only);
    assert_eq!(
        gcp.subscriptions[1].provider_config,
        Some(SubscriptionProviderConfig::GcpConfig(runtime::SubscriptionGcpConfig {
            project_id: s("proj"),
            push_service_account: None,
            push_jwt_audience: None,
        }))
    );
    assert_eq!(gcp.subscriptions[1].rid, "3");
    assert_eq!(gcp.subscriptions[2].rid, "4");
    assert_eq!(gcp.subscriptions[2].topic_encore_name, "users");
    assert_eq!(gcp.subscriptions[2].subscription_cloud_name, "sync-sub");

    let aws = &clusters[1];
    assert_eq!(aws.provider, PubSubProvider::Aws);
    assert_eq!(aws.topics[0].rid, "6");
    assert_eq!(aws.topics[0].cloud_name, "arn:topic");
    assert_eq!(aws.topics[0].provider_config, None);
    assert_eq!(
        aws.subscriptions,
        vec![runtime::PubSubSubscription {
            rid: s("7"),
            topic_encore_name: s("events"),
            subscription_encore_name: s("worker"),
            topic_cloud_name: s("arn:topic"),
            subscription_cloud_name: s("arn:sub"),
            push_only: false,
            provider_config: None,
        }]
    );

    let nsq = &clusters[2];
    assert_eq!(nsq.provider, PubSubProvider::Nsq(runtime::NsqProvider { hosts: vec![s("nsq")] }));
    assert_eq!(nsq.topics[0].rid, "9");
    assert_eq!(nsq.subscriptions[0].rid, "10");
    assert_eq!(nsq.topics[0].cloud_name, "jobs-topic");
    assert_eq!(nsq.subscriptions[0].subscription_cloud_name, "channel");
    assert_eq!(nsq.subscriptions[0].topic_cloud_name, "jobs-topic");
}

#[test]
fn secrets_from_the_environment_are_embedded() {
    let mut infra = empty();
    infra.hosted_gateways = Some(vec![s("api")]);
    infra.secrets = Some(Secrets::EnvRef(EnvRef { env: s("APP_SECRETS") }));
    let value = s("{\"TOKEN\": \"abc\", \"KEY\": \"x\\ny\"}");
    let secrets = map_infra_to_runtime(infra, Some(value)).infra.resources.app_secrets;
    assert_eq!(secrets.len(), 2);
    let mut rids: Vec<String> = secrets.iter().map(|secret| secret.rid.clone()).collect();
    rids.sort();
    assert_eq!(rids, vec![s("1"), s("2")]);
    let token = secrets.iter().find(|secret| secret.encore_name == "TOKEN").unwrap();
    assert_eq!(token.data, embedded("abc"));
    let key = secrets.iter().find(|secret| secret.encore_name == "KEY").unwrap();
    assert_eq!(key.data, embedded("x\ny"));
}

#[test]
fn a_bad_or_missing_environment_value_gives_no_secrets() {
    let with_ref = || {
        let mut infra = empty();
        infra.secrets = Some(Secrets::EnvRef(EnvRef { env: s("APP_SECRETS") }));
        infra
    };
    assert!(map_infra_to_runtime(with_ref(), None).infra.resources.app_secrets.is_empty());
    assert!(map_infra_to_runtime(with_ref(), Some(s("not json"))).infra.resources.app_secrets.is_empty());
    assert!(map_infra_to_runtime(with_ref(), Some(s("{\"A\": 1}"))).infra.resources.app_secrets.is_empty());
    assert!(map_infra_to_runtime(with_ref(), Some(s("[\"A\"]"))).infra.resources.app_secrets.is_empty());
}

#[test]
fn the_environment_value_is_passed_over_unless_asked_for() {
    let mut infra = empty();
    infra.secrets = Some(Secrets::Values(vec![(s("A"), EnvString::EnvRef(EnvRef { env: s("A_VALUE") }))]));
    let secrets = map_infra_to_runtime(infra, Some(s("{\"B\": \"2\"}"))).infra.resources.app_secrets;
    assert_eq!(secrets, vec![runtime::AppSecret { rid: s("0"), encore_name: s("A"), data: from_env("A_VALUE") }]);
}

#[test]
fn secrets_read_beforehand_keep_their_order() {
    let mut infra = empty();
    infra.secrets = Some(Secrets::EnvRef(EnvRef { env: s("APP_SECRETS") }));
    let entries = vec![(s("Z"), s("26")), (s("A"), s("1"))];
    let secrets = map_infra_with_secrets(infra, entries).infra.resources.app_secrets;
    assert_eq!(
        secrets,
        vec![
            runtime::AppSecret { rid: s("0"), encore_name: s("Z"), data: embedded("26") },
            runtime::AppSecret { rid: s("1"), encore_name: s("A"), data: embedded("1") },
        ]
    );
}

#[test]
fn mapping_twice_gives_the_same_descriptor() {
    let build = || {
        let mut infra = empty();
        infra.hosted_gateways = Some(vec![s("api")]);
        infra.object_storage =
            Some(vec![ObjectStorage::GCS(GCS { endpoint: None, buckets: vec![(s("images"), bucket("img"))] })]);
        infra
    };
    assert_eq!(map_infra_to_runtime(build(), None), map_infra_to_runtime(build(), None));
}

/// Every resource identifier of a descriptor.
fn all_rids(config: &runtime::RuntimeConfig) -> Vec<String> {
    let mut rids = Vec::new();
    let resources = &config.infra.resources;
    for gateway in &resources.gateways {
        rids.push(gateway.rid.clone());
    }
    for cluster in &resources.bucket_clusters {
        rids.push(cluster.rid.clone());
        rids.extend(cluster.buckets.iter().map(|bucket| bucket.rid.clone()));
    }
    for cluster in &resources.sql_clusters {
        rids.push(cluster.rid.clone());
        rids.extend(cluster.servers.iter().map(|server| server.rid.clone()));
        rids.extend(cluster.databases.iter().map(|database| database.rid.clone()));
    }
    for cluster in &resources.redis_clusters {
        rids.push(cluster.rid.clone());
        rids.extend(cluster.servers.iter().map(|server| server.rid.clone()));
        rids.extend(cluster.databases.iter().map(|database| database.rid.clone()));
    }
    for cluster in &resources.pubsub_clusters {
        rids.push(cluster.rid.clone());
        rids.extend(cluster.topics.iter().map(|topic| topic.rid.clone()));
        rids.extend(cluster.subscriptions.iter().map(|sub| sub.rid.clone()));
    }
    rids.extend(resources.app_secrets.iter().map(|secret| secret.rid.clone()));
    rids.extend(config.deployment.observability.metrics.iter().map(|metrics| metrics.rid.clone()));
    let credentials = &config.infra.credentials;
    rids.extend(credentials.client_certs.iter().map(|cert| cert.rid.clone()));
    rids.extend(credentials.sql_roles.iter().map(|role| role.rid.clone()));
    rids.extend(credentials.redis_roles.iter().map(|role| role.rid.clone()));
    rids
}

#[test]
fn every_resource_has_an_identifier_of_its_own() {
    let mut infra = empty();
    infra.hosted_gateways = Some(vec![s("api")]);
    infra.object_storage =
        Some(vec![ObjectStorage::GCS(GCS { endpoint: None, buckets: vec![(s("images"), bucket("img"))] })]);
    infra.metrics = Some(Metrics::Datadog(DatadogMetrics {
        collection_interval: None,
        site: s("eu"),
        api_key: EnvString::String(s("k")),
    }));
    infra.sql_servers = Some(vec![SQLServer {
        host: s("db"),
        tls_config: Some(tls(Some(cert("c")))),
        databases: vec![(s("a"), database("a", Some(cert("d")))), (s("b"), database("b", None))],
    }]);
    infra.redis = Some(vec![
        (s("one"), redis(None, Some(tls(Some(cert("r")))))),
        (s("two"), redis(None, None)),
    ]);
    infra.pubsub = Some(vec![
        PubSub::NSQ(NSQPubsub {
            hosts: s("nsq"),
            topics: vec![(
                s("jobs"),
                NSQTopic {
                    name: s("jobs"),
                    subscriptions: vec![(s("x"), NSQSub { name: s("x") }), (s("y"), NSQSub { name: s("y") })],
                },
            )],
        }),
        PubSub::AWSSnsSqs(AWSSnsSqs { topics: vec![(s("t"), AWSTopic { arn: s("arn"), subscriptions: vec![] })] }),
    ]);
    infra.secrets = Some(Secrets::Values(vec![(s("A"), EnvString::String(s("1")))]));
    let config = map_infra_to_runtime(infra, None);
    let mut rids = all_rids(&config);
    assert!(rids.iter().all(|rid| !rid.is_empty()));
    let mut numbers: Vec<u32> = rids.iter().map(|rid| rid.parse().unwrap()).collect();
    numbers.sort();
    // Issued without a gap from 0 on, none twice.
    assert_eq!(numbers, (0..numbers.len() as u32).collect::<Vec<u32>>());
    rids.sort();
    rids.dedup();
    assert_eq!(rids.len(), numbers.len());
    assert_eq!(rids.len(), 28);
}
