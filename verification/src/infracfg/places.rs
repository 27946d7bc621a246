//! Every resource of a descriptor has an identifier of its own: the
//! identifiers are the numbers from `0` on, issued without a gap, and no
//! two places of a descriptor carry the same.
use vstd::prelude::*;
use crate::infracfg::observe::gateways_demand;
use crate::infracfg::pubsub::aws_subscription_count;
use crate::infracfg::pubsub::aws_subscriptions_before;
use crate::infracfg::pubsub::aws_topic_subscriptions;
use crate::infracfg::pubsub::gcp_subscription_count;
use crate::infracfg::pubsub::gcp_subscriptions_before;
use crate::infracfg::pubsub::gcp_topic_subscriptions;
use crate::infracfg::pubsub::nsq_subscription_count;
use crate::infracfg::pubsub::nsq_subscriptions_before;
use crate::infracfg::pubsub::nsq_topic_subscriptions;
use crate::infracfg::pubsub::pubsub_demand_before;
use crate::infracfg::pubsub::pubsub_subscriptions;
use crate::infracfg::pubsub::pubsub_topics;
use crate::infracfg::redis::redis_demand_before;
use crate::infracfg::redis::redis_role_number;
use crate::infracfg::rid_plan_of;
use crate::infracfg::runtime_config_of;
use crate::infracfg::secrets::secrets_demand;
use crate::infracfg::sql::cert_demand;
use crate::infracfg::sql::database_demand_before;
use crate::infracfg::sql::server_cluster_number;
use crate::infracfg::sql::server_databases_first;
use crate::infracfg::sql::server_demand_before;
use crate::infracfg::sql::tls_client_cert;
use crate::infracfg::storage::storage_buckets;
use crate::infracfg::storage::storage_demand_before;
use crate::infracfg::AWSTopic;
use crate::infracfg::GCPTopic;
use crate::infracfg::InfraConfig;
use crate::infracfg::NSQTopic;
use crate::infracfg::ObjectStorage;
use crate::infracfg::PubSub;
use crate::infracfg::Redis;
use crate::infracfg::SQLDatabase;
use crate::infracfg::SQLServer;
use crate::rid::lemma_rid_text_injective;
use crate::rid::lemma_rid_text_len;
use crate::rid::rid_text;

verus! {

/// A place of a descriptor that carries a resource identifier of its own.
pub enum Place {
    /// The cluster of storage provider `0`.
    BucketCluster(int),
    /// Bucket `1` of storage provider `0`.
    Bucket(int, int),
    /// The metrics destination.
    Metrics,
    /// Gateway `0`.
    Gateway(int),
    /// The client certificate of SQL server `0`.
    SqlServerCert(int),
    /// The client certificate of database `1` of SQL server `0`.
    SqlDatabaseCert(int, int),
    /// The role of database `1` of SQL server `0`.
    SqlRole(int, int),
    /// Database `1` of SQL server `0`.
    SqlDatabase(int, int),
    /// The cluster of SQL server `0`.
    SqlCluster(int),
    /// SQL server `0`.
    SqlServer(int),
    /// The client certificate of Redis database `0`.
    RedisCert(int),
    /// The role of Redis database `0`.
    RedisRole(int),
    /// Redis database `0`.
    RedisDatabase(int),
    /// The cluster of Redis database `0`.
    RedisCluster(int),
    /// The server of Redis database `0`.
    RedisServer(int),
    /// Topic `1` of messaging provider `0`.
    Topic(int, int),
    /// Subscription `2` of topic `1` of messaging provider `0`.
    Subscription(int, int, int),
    /// The cluster of messaging provider `0`.
    PubSubCluster(int),
    /// Secret `0`.
    Secret(int),
}

/// The storage providers of a configuration.
pub open spec fn storages_of(infra: InfraConfig) -> Seq<ObjectStorage> {
    match infra.object_storage {
        Some(storages) => storages@,
        None => Seq::empty(),
    }
}

/// The SQL servers of a configuration.
pub open spec fn servers_of(infra: InfraConfig) -> Seq<SQLServer> {
    match infra.sql_servers {
        Some(servers) => servers@,
        None => Seq::empty(),
    }
}

/// The Redis databases of a configuration.
pub open spec fn redis_entries_of(infra: InfraConfig) -> Seq<(String, Redis)> {
    match infra.redis {
        Some(entries) => entries@,
        None => Seq::empty(),
    }
}

/// The messaging providers of a configuration.
pub open spec fn pubsubs_of(infra: InfraConfig) -> Seq<PubSub> {
    match infra.pubsub {
        Some(pubsubs) => pubsubs@,
        None => Seq::empty(),
    }
}

/// How many subscriptions the first `t` topics of a provider have.
pub open spec fn subscriptions_before(pubsub: PubSub, t: int) -> nat {
    match pubsub {
        PubSub::GCPPubsub(gcp) => gcp_subscription_count(gcp.topics@, t),
        PubSub::AWSSnsSqs(aws) => aws_subscription_count(aws.topics@, t),
        PubSub::NSQ(nsq) => nsq_subscription_count(nsq.topics@, t),
    }
}

/// How many subscriptions topic `t` of a provider has.
pub open spec fn subscriptions_of(pubsub: PubSub, t: int) -> nat {
    match pubsub {
        PubSub::GCPPubsub(gcp) => gcp.topics@[t].1.subscriptions@.len(),
        PubSub::AWSSnsSqs(aws) => aws.topics@[t].1.subscriptions@.len(),
        PubSub::NSQ(nsq) => nsq.topics@[t].1.subscriptions@.len(),
    }
}

/// Whether the descriptor of the configuration has the place.
pub open spec fn place_exists(infra: InfraConfig, env_entries: Seq<(Seq<char>, Seq<char>)>, place: Place) -> bool {
    match place {
        Place::BucketCluster(k) => 0 <= k < storages_of(infra).len(),
        Place::Bucket(k, i) => 0 <= k < storages_of(infra).len() && 0 <= i < storage_buckets(
            storages_of(infra)[k],
        ).len(),
        Place::Metrics => infra.metrics is Some,
        Place::Gateway(i) => 0 <= i < gateways_demand(infra.hosted_gateways),
        Place::SqlServerCert(k) => 0 <= k < servers_of(infra).len() && tls_client_cert(
            servers_of(infra)[k].tls_config,
        ) is Some,
        Place::SqlDatabaseCert(k, j) => 0 <= k < servers_of(infra).len() && 0 <= j < servers_of(
            infra,
        )[k].databases@.len() && servers_of(infra)[k].databases@[j].1.client_cert is Some,
        Place::SqlRole(k, j) | Place::SqlDatabase(k, j) => 0 <= k < servers_of(infra).len() && 0 <= j
            < servers_of(infra)[k].databases@.len(),
        Place::SqlCluster(k) | Place::SqlServer(k) => 0 <= k < servers_of(infra).len(),
        Place::RedisCert(k) => 0 <= k < redis_entries_of(infra).len() && tls_client_cert(
            redis_entries_of(infra)[k].1.tls_config,
        ) is Some,
        Place::RedisRole(k) | Place::RedisDatabase(k) | Place::RedisCluster(k) | Place::RedisServer(k) => 0
            <= k < redis_entries_of(infra).len(),
        Place::Topic(k, t) => 0 <= k < pubsubs_of(infra).len() && 0 <= t < pubsub_topics(pubsubs_of(infra)[k]),
        Place::Subscription(k, t, s) => 0 <= k < pubsubs_of(infra).len() && 0 <= t < pubsub_topics(
            pubsubs_of(infra)[k],
        ) && 0 <= s < subscriptions_of(pubsubs_of(infra)[k], t),
        Place::PubSubCluster(k) => 0 <= k < pubsubs_of(infra).len(),
        Place::Secret(i) => 0 <= i < secrets_demand(infra.secrets, env_entries),
    }
}

/// The number of the first identifier of SQL server `k`.
pub open spec fn server_first(infra: InfraConfig, k: int) -> nat {
    rid_plan_of(infra).sql + server_demand_before(servers_of(infra), k)
}

/// The number of the first identifier of database `j` of SQL server `k`.
pub open spec fn database_first(infra: InfraConfig, k: int, j: int) -> nat {
    server_databases_first(servers_of(infra)[k], server_first(infra, k)) + database_demand_before(
        servers_of(infra)[k].databases@,
        j,
    )
}

/// The number of the first identifier of Redis database `k`.
pub open spec fn redis_first(infra: InfraConfig, k: int) -> nat {
    rid_plan_of(infra).redis + redis_demand_before(redis_entries_of(infra), k)
}

/// The number of the first identifier of messaging provider `k`.
pub open spec fn pubsub_first(infra: InfraConfig, k: int) -> nat {
    rid_plan_of(infra).pubsub + pubsub_demand_before(pubsubs_of(infra), k)
}

/// The number of the identifier that the place carries.
pub open spec fn place_number(infra: InfraConfig, place: Place) -> nat {
    match place {
        Place::BucketCluster(k) => storage_demand_before(storages_of(infra), k),
        Place::Bucket(k, i) => storage_demand_before(storages_of(infra), k) + 1 + i as nat,
        Place::Metrics => rid_plan_of(infra).metrics,
        Place::Gateway(i) => rid_plan_of(infra).gateways + i as nat,
        Place::SqlServerCert(k) => server_first(infra, k),
        Place::SqlDatabaseCert(k, j) => database_first(infra, k, j),
        Place::SqlRole(k, j) => database_first(infra, k, j) + cert_demand(
            servers_of(infra)[k].databases@[j].1.client_cert,
        ),
        Place::SqlDatabase(k, j) => database_first(infra, k, j) + cert_demand(
            servers_of(infra)[k].databases@[j].1.client_cert,
        ) + 1,
        Place::SqlCluster(k) => server_cluster_number(servers_of(infra)[k], server_first(infra, k)),
        Place::SqlServer(k) => server_cluster_number(servers_of(infra)[k], server_first(infra, k)) + 1,
        Place::RedisCert(k) => redis_first(infra, k),
        Place::RedisRole(k) => redis_role_number(redis_entries_of(infra)[k].1, redis_first(infra, k)),
        Place::RedisDatabase(k) => redis_role_number(redis_entries_of(infra)[k].1, redis_first(infra, k)) + 1,
        Place::RedisCluster(k) => redis_role_number(redis_entries_of(infra)[k].1, redis_first(infra, k)) + 2,
        Place::RedisServer(k) => redis_role_number(redis_entries_of(infra)[k].1, redis_first(infra, k)) + 3,
        Place::Topic(k, t) => pubsub_first(infra, k) + t as nat,
        Place::Subscription(k, t, s) => pubsub_first(infra, k) + pubsub_topics(pubsubs_of(infra)[k])
            + subscriptions_before(pubsubs_of(infra)[k], t) + s as nat,
        Place::PubSubCluster(k) => pubsub_first(infra, k) + pubsub_topics(pubsubs_of(infra)[k])
            + pubsub_subscriptions(pubsubs_of(infra)[k]),
        Place::Secret(i) => rid_plan_of(infra).secrets + i as nat,
    }
}

/// The identifier that the descriptor of the configuration carries at the
/// place. A role's identifier is read where the pool of its database
/// refers to it; a certificate's is read off the credentials by the laws
/// of the credentials, not here.
pub open spec fn place_rid(
    infra: InfraConfig,
    env_entries: Seq<(Seq<char>, Seq<char>)>,
    place: Place,
) -> Option<Seq<char>> {
    let config = runtime_config_of(infra, env_entries);
    let resources = config.infra.resources;
    match place {
        Place::BucketCluster(k) => Some(resources.bucket_clusters[k].rid),
        Place::Bucket(k, i) => Some(resources.bucket_clusters[k].buckets[i].rid),
        Place::Metrics => Some(config.deployment.observability.metrics[0].rid),
        Place::Gateway(i) => Some(resources.gateways[i].rid),
        Place::SqlServerCert(_) | Place::SqlDatabaseCert(_, _) | Place::RedisCert(_) => None,
        Place::SqlRole(k, j) => Some(resources.sql_clusters[k].databases[j].conn_pools[0].role_rid),
        Place::SqlDatabase(k, j) => Some(resources.sql_clusters[k].databases[j].rid),
        Place::SqlCluster(k) => Some(resources.sql_clusters[k].rid),
        Place::SqlServer(k) => Some(resources.sql_clusters[k].servers[0].rid),
        Place::RedisRole(k) => Some(config.infra.credentials.redis_roles[k].rid),
        Place::RedisDatabase(k) => Some(resources.redis_clusters[k].databases[0].rid),
        Place::RedisCluster(k) => Some(resources.redis_clusters[k].rid),
        Place::RedisServer(k) => Some(resources.redis_clusters[k].servers[0].rid),
        Place::Topic(k, t) => Some(resources.pubsub_clusters[k].topics[t].rid),
        Place::Subscription(k, t, s) => Some(
            resources.pubsub_clusters[k].subscriptions[subscriptions_before(pubsubs_of(infra)[k], t) + s].rid,
        ),
        Place::PubSubCluster(k) => Some(resources.pubsub_clusters[k].rid),
        Place::Secret(i) => Some(resources.app_secrets[i].rid),
    }
}

/// Earlier providers take no more identifiers than later ones.
proof fn lemma_storage_demand_before_monotone(items: Seq<ObjectStorage>, a: int, b: int)
    requires
        a <= b,
    ensures
        storage_demand_before(items, a) <= storage_demand_before(items, b),
    decreases b - a,
{
    if a < b {
        lemma_storage_demand_before_monotone(items, a, b - 1);
    }
}

/// Earlier servers take no more identifiers than later ones.
proof fn lemma_server_demand_before_monotone(items: Seq<SQLServer>, a: int, b: int)
    requires
        a <= b,
    ensures
        server_demand_before(items, a) <= server_demand_before(items, b),
    decreases b - a,
{
    if a < b {
        lemma_server_demand_before_monotone(items, a, b - 1);
    }
}

/// Earlier databases take no more identifiers than later ones.
proof fn lemma_database_demand_before_monotone(items: Seq<(String, SQLDatabase)>, a: int, b: int)
    requires
        a <= b,
    ensures
        database_demand_before(items, a) <= database_demand_before(items, b),
    decreases b - a,
{
    if a < b {
        lemma_database_demand_before_monotone(items, a, b - 1);
    }
}

/// Earlier databases take no more identifiers than later ones.
proof fn lemma_redis_demand_before_monotone(items: Seq<(String, Redis)>, a: int, b: int)
    requires
        a <= b,
    ensures
        redis_demand_before(items, a) <= redis_demand_before(items, b),
    decreases b - a,
{
    if a < b {
        lemma_redis_demand_before_monotone(items, a, b - 1);
    }
}

/// Earlier providers take no more identifiers than later ones.
proof fn lemma_pubsub_demand_before_monotone(items: Seq<PubSub>, a: int, b: int)
    requires
        a <= b,
    ensures
        pubsub_demand_before(items, a) <= pubsub_demand_before(items, b),
    decreases b - a,
{
    if a < b {
        lemma_pubsub_demand_before_monotone(items, a, b - 1);
    }
}

/// The subscriptions of earlier topics are no more than those of later
/// ones.
proof fn lemma_gcp_count_monotone(topics: Seq<(String, GCPTopic)>, a: int, b: int)
    requires
        a <= b,
    ensures
        gcp_subscription_count(topics, a) <= gcp_subscription_count(topics, b),
    decreases b - a,
{
    if a < b {
        lemma_gcp_count_monotone(topics, a, b - 1);
    }
}

/// Subscription `s` of topic `t` stands in the list of all subscriptions
/// after those of the topics before `t`, with the number that follows
/// theirs.
proof fn lemma_gcp_subscription_at(topics: Seq<(String, GCPTopic)>, project: Seq<char>, first: nat, n: int, t: int, s: int)
    requires
        0 <= t < n <= topics.len(),
        0 <= s < topics[t].1.subscriptions@.len(),
    ensures
        gcp_subscriptions_before(topics, project, first, n).len() == gcp_subscription_count(topics, n),
        gcp_subscriptions_before(topics, project, first, n)[gcp_subscription_count(topics, t) + s].rid
            == rid_text(first + gcp_subscription_count(topics, t) + s as nat),
    decreases n,
{
    lemma_gcp_len(topics, project, first, n - 1);
    let earlier = gcp_subscriptions_before(topics, project, first, n - 1);
    let last = gcp_topic_subscriptions(topics[n - 1], project, first + gcp_subscription_count(topics, n - 1));
    if t == n - 1 {
        assert((earlier + last)[earlier.len() + s] == last[s]);
    } else {
        lemma_gcp_subscription_at(topics, project, first, n - 1, t, s);
        lemma_gcp_count_monotone(topics, t + 1, n - 1);
        assert((earlier + last)[gcp_subscription_count(topics, t) + s] == earlier[
            gcp_subscription_count(topics, t) + s
        ]);
    }
}

/// There are as many subscriptions in the list as the topics have.
proof fn lemma_gcp_len(topics: Seq<(String, GCPTopic)>, project: Seq<char>, first: nat, n: int)
    requires
        0 <= n <= topics.len(),
    ensures
        gcp_subscriptions_before(topics, project, first, n).len() == gcp_subscription_count(topics, n),
    decreases n,
{
    if n > 0 {
        lemma_gcp_len(topics, project, first, n - 1);
    }
}

/// The subscriptions of earlier topics are no more than those of later
/// ones.
proof fn lemma_aws_count_monotone(topics: Seq<(String, AWSTopic)>, a: int, b: int)
    requires
        a <= b,
    ensures
        aws_subscription_count(topics, a) <= aws_subscription_count(topics, b),
    decreases b - a,
{
    if a < b {
        lemma_aws_count_monotone(topics, a, b - 1);
    }
}

/// Subscription `s` of topic `t` stands in the list of all subscriptions
/// after those of the topics before `t`, with the number that follows
/// theirs.
proof fn lemma_aws_subscription_at(topics: Seq<(String, AWSTopic)>, first: nat, n: int, t: int, s: int)
    requires
        0 <= t < n <= topics.len(),
        0 <= s < topics[t].1.subscriptions@.len(),
    ensures
        aws_subscriptions_before(topics, first, n).len() == aws_subscription_count(topics, n),
        aws_subscriptions_before(topics, first, n)[aws_subscription_count(topics, t) + s].rid
            == rid_text(first + aws_subscription_count(topics, t) + s as nat),
    decreases n,
{
    lemma_aws_len(topics, first, n - 1);
    let earlier = aws_subscriptions_before(topics, first, n - 1);
    let last = aws_topic_subscriptions(topics[n - 1], first + aws_subscription_count(topics, n - 1));
    if t == n - 1 {
        assert((earlier + last)[earlier.len() + s] == last[s]);
    } else {
        lemma_aws_subscription_at(topics, first, n - 1, t, s);
        lemma_aws_count_monotone(topics, t + 1, n - 1);
        assert((earlier + last)[aws_subscription_count(topics, t) + s] == earlier[
            aws_subscription_count(topics, t) + s
        ]);
    }
}

/// There are as many subscriptions in the list as the topics have.
proof fn lemma_aws_len(topics: Seq<(String, AWSTopic)>, first: nat, n: int)
    requires
        0 <= n <= topics.len(),
    ensures
        aws_subscriptions_before(topics, first, n).len() == aws_subscription_count(topics, n),
    decreases n,
{
    if n > 0 {
        lemma_aws_len(topics, first, n - 1);
    }
}

/// The subscriptions of earlier topics are no more than those of later
/// ones.
proof fn lemma_nsq_count_monotone(topics: Seq<(String, NSQTopic)>, a: int, b: int)
    requires
        a <= b,
    ensures
        nsq_subscription_count(topics, a) <= nsq_subscription_count(topics, b),
    decreases b - a,
{
    if a < b {
        lemma_nsq_count_monotone(topics, a, b - 1);
    }
}

/// Subscription `s` of topic `t` stands in the list of all subscriptions
/// after those of the topics before `t`, with the number that follows
/// theirs.
proof fn lemma_nsq_subscription_at(topics: Seq<(String, NSQTopic)>, first: nat, n: int, t: int, s: int)
    requires
        0 <= t < n <= topics.len(),
        0 <= s < topics[t].1.subscriptions@.len(),
    ensures
        nsq_subscriptions_before(topics, first, n).len() == nsq_subscription_count(topics, n),
        nsq_subscriptions_before(topics, first, n)[nsq_subscription_count(topics, t) + s].rid
            == rid_text(first + nsq_subscription_count(topics, t) + s as nat),
    decreases n,
{
    lemma_nsq_len(topics, first, n - 1);
    let earlier = nsq_subscriptions_before(topics, first, n - 1);
    let last = nsq_topic_subscriptions(topics[n - 1], first + nsq_subscription_count(topics, n - 1));
    if t == n - 1 {
        assert((earlier + last)[earlier.len() + s] == last[s]);
    } else {
        lemma_nsq_subscription_at(topics, first, n - 1, t, s);
        lemma_nsq_count_monotone(topics, t + 1, n - 1);
        assert((earlier + last)[nsq_subscription_count(topics, t) + s] == earlier[
            nsq_subscription_count(topics, t) + s
        ]);
    }
}

/// There are as many subscriptions in the list as the topics have.
proof fn lemma_nsq_len(topics: Seq<(String, NSQTopic)>, first: nat, n: int)
    requires
        0 <= n <= topics.len(),
    ensures
        nsq_subscriptions_before(topics, first, n).len() == nsq_subscription_count(topics, n),
    decreases n,
{
    if n > 0 {
        lemma_nsq_len(topics, first, n - 1);
    }
}

/// The identifiers of a provider's subscriptions follow those of its
/// topics, and all lie among those of the provider.
proof fn lemma_subscription_bounds(pubsub: PubSub, t: int, s: int)
    requires
        0 <= t < pubsub_topics(pubsub),
        0 <= s < subscriptions_of(pubsub, t),
    ensures
        subscriptions_before(pubsub, t) + s < subscriptions_before(pubsub, t + 1),
        subscriptions_before(pubsub, t + 1) <= pubsub_subscriptions(pubsub),
{
    match pubsub {
        PubSub::GCPPubsub(gcp) => lemma_gcp_count_monotone(gcp.topics@, t + 1, gcp.topics@.len() as int),
        PubSub::AWSSnsSqs(aws) => lemma_aws_count_monotone(aws.topics@, t + 1, aws.topics@.len() as int),
        PubSub::NSQ(nsq) => lemma_nsq_count_monotone(nsq.topics@, t + 1, nsq.topics@.len() as int),
    }
}

/// The subscriptions of an earlier topic come before those of a later one.
proof fn lemma_subscriptions_ordered(pubsub: PubSub, a: int, b: int)
    requires
        a <= b,
    ensures
        subscriptions_before(pubsub, a) <= subscriptions_before(pubsub, b),
{
    match pubsub {
        PubSub::GCPPubsub(gcp) => lemma_gcp_count_monotone(gcp.topics@, a, b),
        PubSub::AWSSnsSqs(aws) => lemma_aws_count_monotone(aws.topics@, a, b),
        PubSub::NSQ(nsq) => lemma_nsq_count_monotone(nsq.topics@, a, b),
    }
}

/// The part of the descriptor that a place belongs to, in the order in
/// which the parts take their identifiers.
pub open spec fn place_part(place: Place) -> int {
    match place {
        Place::BucketCluster(_) | Place::Bucket(_, _) => 0,
        Place::Metrics => 1,
        Place::Gateway(_) => 2,
        Place::SqlServerCert(_) | Place::SqlDatabaseCert(_, _) | Place::SqlRole(_, _) | Place::SqlDatabase(
            _,
            _,
        ) | Place::SqlCluster(_) | Place::SqlServer(_) => 3,
        Place::RedisCert(_) | Place::RedisRole(_) | Place::RedisDatabase(_) | Place::RedisCluster(_)
        | Place::RedisServer(_) => 4,
        Place::Topic(_, _) | Place::Subscription(_, _, _) | Place::PubSubCluster(_) => 5,
        Place::Secret(_) => 6,
    }
}

/// The entry of its part that a place belongs to.
pub open spec fn place_entry(place: Place) -> int {
    match place {
        Place::BucketCluster(k) | Place::Bucket(k, _) => k,
        Place::Metrics => 0,
        Place::Gateway(i) => i,
        Place::SqlServerCert(k) | Place::SqlDatabaseCert(k, _) | Place::SqlRole(k, _) | Place::SqlDatabase(
            k,
            _,
        ) | Place::SqlCluster(k) | Place::SqlServer(k) => k,
        Place::RedisCert(k) | Place::RedisRole(k) | Place::RedisDatabase(k) | Place::RedisCluster(k)
        | Place::RedisServer(k) => k,
        Place::Topic(k, _) | Place::Subscription(k, _, _) | Place::PubSubCluster(k) => k,
        Place::Secret(i) => i,
    }
}

/// The number of the first identifier of entry `k` of a part.
pub open spec fn entry_first(infra: InfraConfig, part: int, k: int) -> nat {
    if part == 0 {
        storage_demand_before(storages_of(infra), k)
    } else if part == 1 {
        rid_plan_of(infra).metrics + k as nat
    } else if part == 2 {
        rid_plan_of(infra).gateways + k as nat
    } else if part == 3 {
        server_first(infra, k)
    } else if part == 4 {
        redis_first(infra, k)
    } else if part == 5 {
        pubsub_first(infra, k)
    } else {
        rid_plan_of(infra).secrets + k as nat
    }
}

/// How many entries a part has.
pub open spec fn part_entries(infra: InfraConfig, env_entries: Seq<(Seq<char>, Seq<char>)>, part: int) -> nat {
    if part == 0 {
        storages_of(infra).len()
    } else if part == 1 {
        if infra.metrics is Some {
            1
        } else {
            0
        }
    } else if part == 2 {
        gateways_demand(infra.hosted_gateways)
    } else if part == 3 {
        servers_of(infra).len()
    } else if part == 4 {
        redis_entries_of(infra).len()
    } else if part == 5 {
        pubsubs_of(infra).len()
    } else {
        secrets_demand(infra.secrets, env_entries)
    }
}

/// The entries of a part take their identifiers one after another, and
/// the parts do: the first entry of a part begins where the part before it
/// ends.
proof fn lemma_entries_ordered(infra: InfraConfig, env_entries: Seq<(Seq<char>, Seq<char>)>, part: int, a: int, b: int)
    requires
        0 <= part <= 6,
        0 <= a <= b <= part_entries(infra, env_entries, part),
    ensures
        entry_first(infra, part, a) <= entry_first(infra, part, b),
        part < 6 ==> entry_first(infra, part, part_entries(infra, env_entries, part) as int) == entry_first(
            infra,
            part + 1,
            0,
        ),
{
    if part == 0 {
        lemma_storage_demand_before_monotone(storages_of(infra), a, b);
    } else if part == 3 {
        lemma_server_demand_before_monotone(servers_of(infra), a, b);
    } else if part == 4 {
        lemma_redis_demand_before_monotone(redis_entries_of(infra), a, b);
    } else if part == 5 {
        lemma_pubsub_demand_before_monotone(pubsubs_of(infra), a, b);
    }
}

/// The number of a place lies among the numbers of its entry.
proof fn lemma_place_in_entry(infra: InfraConfig, env_entries: Seq<(Seq<char>, Seq<char>)>, place: Place)
    requires
        place_exists(infra, env_entries, place),
    ensures
        0 <= place_entry(place) < part_entries(infra, env_entries, place_part(place)),
        entry_first(infra, place_part(place), place_entry(place)) <= place_number(infra, place) < entry_first(
            infra,
            place_part(place),
            place_entry(place) + 1,
        ),
{
    match place {
        Place::SqlDatabaseCert(k, j) | Place::SqlRole(k, j) | Place::SqlDatabase(k, j) => {
            let dbs = servers_of(infra)[k].databases@;
            lemma_database_demand_before_monotone(dbs, j + 1, dbs.len() as int);
        },
        Place::Subscription(k, t, s) => {
            lemma_subscription_bounds(pubsubs_of(infra)[k], t, s);
        },
        _ => {},
    }
}

/// Two places of one entry carry different numbers.
proof fn lemma_places_of_entry_differ(infra: InfraConfig, env_entries: Seq<(Seq<char>, Seq<char>)>, p: Place, q: Place)
    requires
        place_exists(infra, env_entries, p),
        place_exists(infra, env_entries, q),
        place_part(p) == place_part(q),
        place_entry(p) == place_entry(q),
        p != q,
    ensures
        place_number(infra, p) != place_number(infra, q),
{
    let k = place_entry(p);
    if place_part(p) == 3 {
        let dbs = servers_of(infra)[k].databases@;
        let jp = match p {
            Place::SqlDatabaseCert(_, j) | Place::SqlRole(_, j) | Place::SqlDatabase(_, j) => j,
            _ => -1,
        };
        let jq = match q {
            Place::SqlDatabaseCert(_, j) | Place::SqlRole(_, j) | Place::SqlDatabase(_, j) => j,
            _ => -1,
        };
        if jp >= 0 {
            lemma_database_demand_before_monotone(dbs, jp + 1, dbs.len() as int);
        }
        if jq >= 0 {
            lemma_database_demand_before_monotone(dbs, jq + 1, dbs.len() as int);
        }
        if jp >= 0 && jq >= 0 && jp < jq {
            lemma_database_demand_before_monotone(dbs, jp + 1, jq);
        }
        if jp >= 0 && jq >= 0 && jq < jp {
            lemma_database_demand_before_monotone(dbs, jq + 1, jp);
        }
    } else if place_part(p) == 5 {
        let pubsub = pubsubs_of(infra)[k];
        if let Place::Subscription(_, t, s) = p {
            lemma_subscription_bounds(pubsub, t, s);
            if let Place::Subscription(_, u, v) = q {
                lemma_subscription_bounds(pubsub, u, v);
                if t < u {
                    lemma_subscriptions_ordered(pubsub, t + 1, u);
                } else if u < t {
                    lemma_subscriptions_ordered(pubsub, u + 1, t);
                }
            }
        } else if let Place::Subscription(_, u, v) = q {
            lemma_subscription_bounds(pubsub, u, v);
        }
    }
}

/// No two places of a descriptor carry the same number.
pub proof fn lemma_place_numbers_differ(infra: InfraConfig, env_entries: Seq<(Seq<char>, Seq<char>)>, p: Place, q: Place)
    requires
        place_exists(infra, env_entries, p),
        place_exists(infra, env_entries, q),
        p != q,
    ensures
        place_number(infra, p) != place_number(infra, q),
{
    lemma_place_in_entry(infra, env_entries, p);
    lemma_place_in_entry(infra, env_entries, q);
    let pp = place_part(p);
    let pq = place_part(q);
    let kp = place_entry(p);
    let kq = place_entry(q);
    if pp == pq {
        if kp == kq {
            lemma_places_of_entry_differ(infra, env_entries, p, q);
        } else if kp < kq {
            lemma_entries_ordered(infra, env_entries, pp, kp + 1, kq);
        } else {
            lemma_entries_ordered(infra, env_entries, pp, kq + 1, kp);
        }
    } else {
        lemma_parts_ordered(infra, env_entries, pp, kp, pq, kq);
        lemma_parts_ordered(infra, env_entries, pq, kq, pp, kp);
    }
}

/// Every entry of an earlier part ends before any entry of a later part
/// begins.
proof fn lemma_parts_ordered(
    infra: InfraConfig,
    env_entries: Seq<(Seq<char>, Seq<char>)>,
    part: int,
    k: int,
    later: int,
    l: int,
)
    requires
        0 <= part <= 6,
        0 <= later <= 6,
        0 <= k < part_entries(infra, env_entries, part),
        0 <= l < part_entries(infra, env_entries, later),
    ensures
        part < later ==> entry_first(infra, part, k + 1) <= entry_first(infra, later, l),
    decreases later - part,
{
    if part < later {
        lemma_entries_ordered(infra, env_entries, part, k + 1, part_entries(infra, env_entries, part) as int);
        lemma_part_starts(infra, env_entries, part + 1, later);
        lemma_entries_ordered(infra, env_entries, later, 0, l);
    }
}

/// A later part begins no earlier than an earlier one.
proof fn lemma_part_starts(infra: InfraConfig, env_entries: Seq<(Seq<char>, Seq<char>)>, part: int, later: int)
    requires
        0 <= part <= later <= 6,
    ensures
        entry_first(infra, part, 0) <= entry_first(infra, later, 0),
    decreases later - part,
{
    if part < later {
        lemma_entries_ordered(infra, env_entries, part, 0, part_entries(infra, env_entries, part) as int);
        lemma_part_starts(infra, env_entries, part + 1, later);
    }
}

/// Every place of a descriptor carries the identifier of its number.
#[verifier::rlimit(80)]
pub proof fn lemma_place_rid(infra: InfraConfig, env_entries: Seq<(Seq<char>, Seq<char>)>, place: Place)
    requires
        place_exists(infra, env_entries, place),
    ensures
        place_rid(infra, env_entries, place) matches Some(rid) ==> rid == rid_text(place_number(infra, place))
            && rid.len() >= 1,
{
    lemma_rid_text_len(place_number(infra, place));
    if let Place::Subscription(k, t, s) = place {
        let first = pubsub_first(infra, k);
        match pubsubs_of(infra)[k] {
            PubSub::GCPPubsub(gcp) => lemma_gcp_subscription_at(
                gcp.topics@,
                gcp.project_id@,
                first + gcp.topics@.len(),
                gcp.topics@.len() as int,
                t,
                s,
            ),
            PubSub::AWSSnsSqs(aws) => lemma_aws_subscription_at(
                aws.topics@,
                first + aws.topics@.len(),
                aws.topics@.len() as int,
                t,
                s,
            ),
            PubSub::NSQ(nsq) => lemma_nsq_subscription_at(
                nsq.topics@,
                first + nsq.topics@.len(),
                nsq.topics@.len() as int,
                t,
                s,
            ),
        }
    }
}

/// In every descriptor, the resources at two different places have
/// different identifiers, and none is empty.
pub proof fn lemma_resources_have_identifiers_of_their_own(
    infra: InfraConfig,
    env_entries: Seq<(Seq<char>, Seq<char>)>,
    p: Place,
    q: Place,
)
    requires
        place_exists(infra, env_entries, p),
        place_exists(infra, env_entries, q),
        p != q,
        place_rid(infra, env_entries, p) is Some,
        place_rid(infra, env_entries, q) is Some,
    ensures
        place_rid(infra, env_entries, p) != place_rid(infra, env_entries, q),
        place_rid(infra, env_entries, p)->0.len() >= 1,
{
    lemma_place_rid(infra, env_entries, p);
    lemma_place_rid(infra, env_entries, q);
    lemma_place_numbers_differ(infra, env_entries, p, q);
    if rid_text(place_number(infra, p)) == rid_text(place_number(infra, q)) {
        lemma_rid_text_injective(place_number(infra, p), place_number(infra, q));
    }
}

} // verus!
