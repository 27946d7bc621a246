//! Redis. Every configured database becomes a cluster of one server and one
//! database. Identifiers are issued in this order: for the client
//! certificate of the TLS configuration, if it has one, for the role, for
//! the database, for the cluster and for the server.
use vstd::prelude::*;
use crate::infracfg::map_env_string_to_secret_data;
use crate::infracfg::secret_data_of;
use crate::infracfg::sql::cert_demand;
use crate::infracfg::sql::cert_rid_or;
use crate::infracfg::sql::certs_of;
use crate::infracfg::sql::map_tls;
use crate::infracfg::sql::number_or;
use crate::infracfg::sql::store_client_cert;
use crate::infracfg::sql::tls_client_cert;
use crate::infracfg::sql::tls_of;
use crate::infracfg::Redis;
use crate::infracfg::RedisAuth;
use crate::rid::rid_text;
use crate::rid::RidCounter;
use crate::runtime;
use crate::runtime::AuthAcl;
use crate::runtime::AuthAclView;
use crate::runtime::ClientCertView;
use crate::runtime::RedisCluster;
use crate::runtime::RedisClusterView;
use crate::runtime::RedisConnectionPool;
use crate::runtime::RedisConnectionPoolView;
use crate::runtime::RedisDatabase;
use crate::runtime::RedisDatabaseView;
use crate::runtime::RedisRole;
use crate::runtime::RedisRoleAuth;
use crate::runtime::RedisRoleAuthView;
use crate::runtime::RedisRoleView;
use crate::runtime::RedisServer;
use crate::runtime::RedisServerView;
use crate::runtime::ServerKind;
use crate::text::str_eq;

verus! {

/// Whether the authentication names what its mode needs: a user name and a
/// password for `"acl"`, the shared string for every other mode.
pub open spec fn redis_auth_complete(auth: RedisAuth) -> bool {
    if auth.auth_type@ == "acl"@ {
        auth.username is Some && auth.password is Some
    } else {
        auth.auth_string is Some
    }
}

/// Whether every configured Redis database that authenticates names what
/// its mode needs.
pub open spec fn redis_complete(redis: Option<Vec<(String, Redis)>>) -> bool {
    match redis {
        Some(entries) => forall|i: int|
            0 <= i < entries@.len() ==> ((#[trigger] entries@[i]).1.auth matches Some(auth)
                ==> redis_auth_complete(auth)),
        None => true,
    }
}

/// How a role authenticates, in the descriptor. A mode that is neither
/// `"acl"` nor `"auth_string"` counts as `"auth_string"`.
pub open spec fn redis_role_auth_of(auth: RedisAuth) -> RedisRoleAuthView
    recommends
        redis_auth_complete(auth),
{
    if auth.auth_type@ == "acl"@ {
        RedisRoleAuthView::Acl(
            AuthAclView { username: auth.username->0@, password: secret_data_of(auth.password->0) },
        )
    } else {
        RedisRoleAuthView::AuthString(secret_data_of(auth.auth_string->0))
    }
}

/// The authentication of an optional configuration.
pub open spec fn optional_redis_auth_of(auth: Option<RedisAuth>) -> Option<RedisRoleAuthView> {
    match auth {
        Some(auth) => Some(redis_role_auth_of(auth)),
        None => None,
    }
}

/// How many identifiers one database takes.
pub open spec fn redis_demand(redis: Redis) -> nat {
    cert_demand(tls_client_cert(redis.tls_config)) + 4
}

/// How many identifiers the first `k` databases take.
pub open spec fn redis_demand_before(entries: Seq<(String, Redis)>, k: int) -> nat
    decreases k,
{
    if k <= 0 {
        0
    } else {
        redis_demand_before(entries, k - 1) + redis_demand(entries[k - 1].1)
    }
}

/// The number of a database's role identifier, when its identifiers start
/// at number `first`.
pub open spec fn redis_role_number(redis: Redis, first: nat) -> nat {
    first + cert_demand(tls_client_cert(redis.tls_config))
}

/// The role of one database.
pub open spec fn redis_role_of(redis: Redis, first: nat) -> RedisRoleView {
    RedisRoleView {
        rid: rid_text(redis_role_number(redis, first)),
        client_cert_rid: cert_rid_or(tls_client_cert(redis.tls_config), first, None),
        auth: optional_redis_auth_of(redis.auth),
    }
}

/// The cluster of one database, whose identifiers start at number `first`.
/// Its one pool reads and writes, with no connection kept open and at most
/// 100 opened unless configured otherwise.
pub open spec fn redis_cluster_of(entry: (String, Redis), first: nat) -> RedisClusterView {
    RedisClusterView {
        rid: rid_text(redis_role_number(entry.1, first) + 2),
        servers: seq![
            RedisServerView {
                rid: rid_text(redis_role_number(entry.1, first) + 3),
                host: entry.1.host@,
                kind: ServerKind::Primary,
                tls_config: tls_of(entry.1.tls_config),
            },
        ],
        databases: seq![
            RedisDatabaseView {
                rid: rid_text(redis_role_number(entry.1, first) + 1),
                encore_name: entry.0@,
                database_idx: entry.1.database_index,
                key_prefix: entry.1.key_prefix.deep_view(),
                conn_pools: seq![
                    RedisConnectionPoolView {
                        is_readonly: false,
                        role_rid: rid_text(redis_role_number(entry.1, first)),
                        min_connections: number_or(entry.1.min_connections, 0),
                        max_connections: number_or(entry.1.max_connections, 100),
                    },
                ],
            },
        ],
    }
}

/// The clusters of all databases, in the configured order, numbered from
/// `first` on without a gap.
pub open spec fn redis_clusters_of(entries: Seq<(String, Redis)>, first: nat) -> Seq<RedisClusterView> {
    Seq::new(
        entries.len(),
        |k: int| redis_cluster_of(entries[k], first + redis_demand_before(entries, k)),
    )
}

/// The roles of all databases.
pub open spec fn redis_roles_of(entries: Seq<(String, Redis)>, first: nat) -> Seq<RedisRoleView> {
    Seq::new(
        entries.len(),
        |k: int| redis_role_of(entries[k].1, first + redis_demand_before(entries, k)),
    )
}

/// The certificates that the first `k` databases add to the credentials.
pub open spec fn redis_certs_before(entries: Seq<(String, Redis)>, first: nat, k: int) -> Seq<
    ClientCertView,
>
    decreases k,
{
    if k <= 0 {
        Seq::empty()
    } else {
        redis_certs_before(entries, first, k - 1) + certs_of(
            tls_client_cert(entries[k - 1].1.tls_config),
            first + redis_demand_before(entries, k - 1),
        )
    }
}

/// The clusters of an optional list of databases.
pub open spec fn redis_of(redis: Option<Vec<(String, Redis)>>, first: nat) -> Seq<RedisClusterView> {
    match redis {
        Some(entries) => redis_clusters_of(entries@, first),
        None => Seq::empty(),
    }
}

/// The roles of an optional list of databases.
pub open spec fn redis_roles(redis: Option<Vec<(String, Redis)>>, first: nat) -> Seq<RedisRoleView> {
    match redis {
        Some(entries) => redis_roles_of(entries@, first),
        None => Seq::empty(),
    }
}

/// The certificates of an optional list of databases.
pub open spec fn redis_certs(redis: Option<Vec<(String, Redis)>>, first: nat) -> Seq<ClientCertView> {
    match redis {
        Some(entries) => redis_certs_before(entries@, first, entries@.len() as int),
        None => Seq::empty(),
    }
}

/// How many identifiers an optional list of databases takes.
pub open spec fn redis_total_demand(redis: Option<Vec<(String, Redis)>>) -> nat {
    match redis {
        Some(entries) => redis_demand_before(entries@, entries@.len() as int),
        None => 0,
    }
}

/// Whether the mode of an authentication is one of the two that are known,
/// `"acl"` and `"auth_string"`. Any other mode is taken for
/// `"auth_string"`; who wants to report it can ask here.
pub open spec fn redis_mode_known(auth: RedisAuth) -> bool {
    auth.auth_type@ == "acl"@ || auth.auth_type@ == "auth_string"@
}

/// The names of the Redis databases among the first `k` whose
/// authentication has a mode that is not known, in order.
pub open spec fn unknown_modes_before(entries: Seq<(String, Redis)>, k: int) -> Seq<Seq<char>>
    decreases k,
{
    if k <= 0 {
        Seq::empty()
    } else {
        match entries[k - 1].1.auth {
            Some(auth) => if redis_mode_known(auth) {
                unknown_modes_before(entries, k - 1)
            } else {
                unknown_modes_before(entries, k - 1).push(entries[k - 1].0@)
            },
            None => unknown_modes_before(entries, k - 1),
        }
    }
}

/// Whether the mode of an authentication is one of the two that are known.
pub fn redis_mode_is_known(auth: &RedisAuth) -> (known: bool)
    ensures
        known == redis_mode_known(*auth),
{
    str_eq(auth.auth_type.as_str(), "acl") || str_eq(auth.auth_type.as_str(), "auth_string")
}

/// The names of the Redis databases whose authentication has a mode that
/// is not known and is taken for `"auth_string"`.
pub fn redis_unknown_modes(redis: &Option<Vec<(String, Redis)>>) -> (names: Vec<String>)
    ensures
        names.deep_view() == match *redis {
            Some(entries) => unknown_modes_before(entries@, entries@.len() as int),
            None => Seq::empty(),
        },
{
    let mut names: Vec<String> = Vec::new();
    assert(names.deep_view() =~= Seq::<Seq<char>>::empty());
    match redis {
        Some(entries) => {
            let mut k: usize = 0;
            while k < entries.len()
                invariant
                    k <= entries.len(),
                    names.deep_view() == unknown_modes_before(entries@, k as int),
                decreases entries.len() - k,
            {
                let ghost before = names.deep_view();
                match &entries[k].1.auth {
                    Some(auth) => {
                        if !redis_mode_is_known(auth) {
                            names.push(entries[k].0.clone());
                            assert(names.deep_view() =~= before.push(entries@[k as int].0@));
                        }
                    },
                    None => {},
                }
                k += 1;
            }
        },
        None => {},
    }
    names
}

/// Whether the authentication names what its mode needs.
pub fn redis_auth_is_complete(auth: &RedisAuth) -> (complete: bool)
    ensures
        complete == redis_auth_complete(*auth),
{
    if str_eq(auth.auth_type.as_str(), "acl") {
        auth.username.is_some() && auth.password.is_some()
    } else {
        auth.auth_string.is_some()
    }
}

/// Whether every configured Redis database that authenticates names what
/// its mode needs.
pub fn redis_is_complete(redis: &Option<Vec<(String, Redis)>>) -> (complete: bool)
    ensures
        complete == redis_complete(*redis),
{
    match redis {
        Some(entries) => {
            let mut i: usize = 0;
            while i < entries.len()
                invariant
                    i <= entries.len(),
                    *redis == Some(*entries),
                    forall|j: int|
                        0 <= j < i ==> ((#[trigger] entries@[j]).1.auth matches Some(auth)
                            ==> redis_auth_complete(auth)),
                decreases entries.len() - i,
            {
                match &entries[i].1.auth {
                    Some(auth) => {
                        if !redis_auth_is_complete(auth) {
                            assert(entries@[i as int].1.auth == Some(*auth));
                            return false;
                        }
                    },
                    None => {},
                }
                i += 1;
            }
            true
        },
        None => true,
    }
}

/// Maps how a Redis role authenticates.
pub fn map_redis_auth(auth: &RedisAuth) -> (r: RedisRoleAuth)
    requires
        redis_auth_complete(*auth),
    ensures
        r.deep_view() == redis_role_auth_of(*auth),
{
    if str_eq(auth.auth_type.as_str(), "acl") {
        let username = auth.username.as_ref().unwrap();
        let password = auth.password.as_ref().unwrap();
        RedisRoleAuth::Acl(
            AuthAcl { username: username.clone(), password: map_env_string_to_secret_data(password) },
        )
    } else {
        let auth_string = auth.auth_string.as_ref().unwrap();
        RedisRoleAuth::AuthString(map_env_string_to_secret_data(auth_string))
    }
}

/// Maps one Redis database, issuing its identifiers and storing its
/// certificate and its role in the credentials.
pub fn map_redis_entry(
    entry: &(String, Redis),
    rids: &mut RidCounter,
    certs: &mut Vec<runtime::ClientCert>,
    roles: &mut Vec<RedisRole>,
) -> (cluster: RedisCluster)
    requires
        old(rids).wf(),
        entry.1.auth matches Some(auth) ==> redis_auth_complete(auth),
    ensures
        final(rids).wf(),
        final(rids)@ == old(rids)@ + redis_demand(entry.1),
        final(certs).deep_view() == old(certs).deep_view() + certs_of(
            tls_client_cert(entry.1.tls_config),
            old(rids)@,
        ),
        final(roles).deep_view() == old(roles).deep_view().push(redis_role_of(entry.1, old(rids)@)),
        cluster.deep_view() == redis_cluster_of(*entry, old(rids)@),
{
    let ghost first = rids@;
    let redis = &entry.1;
    let client_cert_rid = match &redis.tls_config {
        Some(tls) => store_client_cert(&tls.client_cert, rids, certs),
        None => {
            assert(certs.deep_view() =~= old(certs).deep_view() + Seq::<ClientCertView>::empty());
            None
        },
    };
    let auth = match &redis.auth {
        Some(auth) => Some(map_redis_auth(auth)),
        None => None,
    };
    let role_rid = rids.next();
    roles.push(RedisRole { rid: role_rid.clone(), client_cert_rid, auth });
    assert(roles.deep_view() =~= old(roles).deep_view().push(redis_role_of(entry.1, first)));
    let mut conn_pools: Vec<RedisConnectionPool> = Vec::new();
    conn_pools.push(
        RedisConnectionPool {
            is_readonly: false,
            role_rid,
            min_connections: match redis.min_connections {
                Some(n) => n,
                None => 0,
            },
            max_connections: match redis.max_connections {
                Some(n) => n,
                None => 100,
            },
        },
    );
    assert(conn_pools.deep_view() =~= redis_cluster_of(*entry, first).databases[0].conn_pools);
    let mut databases: Vec<RedisDatabase> = Vec::new();
    databases.push(
        RedisDatabase {
            rid: rids.next(),
            encore_name: entry.0.clone(),
            database_idx: redis.database_index,
            key_prefix: redis.key_prefix.clone(),
            conn_pools,
        },
    );
    assert(databases.deep_view() =~= redis_cluster_of(*entry, first).databases);
    let rid = rids.next();
    let mut servers: Vec<RedisServer> = Vec::new();
    servers.push(
        RedisServer {
            rid: rids.next(),
            host: redis.host.clone(),
            kind: ServerKind::Primary,
            tls_config: map_tls(&redis.tls_config),
        },
    );
    assert(servers.deep_view() =~= redis_cluster_of(*entry, first).servers);
    RedisCluster { rid, servers, databases }
}

/// Maps the Redis databases. The clusters come with their roles;
/// the certificates are added to `certs`.
pub fn map_redis(
    redis: &Option<Vec<(String, Redis)>>,
    rids: &mut RidCounter,
    certs: &mut Vec<runtime::ClientCert>,
) -> (r: (Vec<RedisCluster>, Vec<RedisRole>))
    requires
        old(rids).wf(),
        redis_complete(*redis),
    ensures
        final(rids).wf(),
        final(rids)@ == old(rids)@ + redis_total_demand(*redis),
        final(certs).deep_view() == old(certs).deep_view() + redis_certs(*redis, old(rids)@),
        r.0.deep_view() == redis_of(*redis, old(rids)@),
        r.1.deep_view() == redis_roles(*redis, old(rids)@),
{
    let ghost first = rids@;
    let mut out: Vec<RedisCluster> = Vec::new();
    let mut roles: Vec<RedisRole> = Vec::new();
    match redis {
        Some(entries) => {
            let mut k: usize = 0;
            assert(certs.deep_view() =~= old(certs).deep_view() + redis_certs_before(entries@, first, 0));
            while k < entries.len()
                invariant
                    k <= entries.len(),
                    out.len() == k,
                    roles.deep_view().len() == k,
                    rids.wf(),
                    redis_complete(Some(*entries)),
                    rids@ == first + redis_demand_before(entries@, k as int),
                    certs.deep_view() == old(certs).deep_view() + redis_certs_before(entries@, first, k as int),
                    forall|i: int|
                        0 <= i < k ==> roles.deep_view()[i] == redis_role_of(
                            entries@[i].1,
                            first + redis_demand_before(entries@, i),
                        ),
                    forall|i: int|
                        0 <= i < k ==> (#[trigger] out@[i]).deep_view() == redis_cluster_of(
                            entries@[i],
                            first + redis_demand_before(entries@, i),
                        ),
                decreases entries.len() - k,
            {
                assert(entries@[k as int].1.auth matches Some(auth) ==> redis_auth_complete(auth));
                let cluster = map_redis_entry(&entries[k], rids, certs, &mut roles);
                out.push(cluster);
                proof {
                    assert(certs.deep_view() =~= old(certs).deep_view() + redis_certs_before(
                        entries@,
                        first,
                        k + 1,
                    ));
                }
                k += 1;
            }
            assert(out.deep_view() =~= redis_clusters_of(entries@, first));
            assert(roles.deep_view() =~= redis_roles_of(entries@, first));
        },
        None => {
            assert(out.deep_view() =~= Seq::<RedisClusterView>::empty());
            assert(certs.deep_view() =~= old(certs).deep_view() + Seq::<ClientCertView>::empty());
            assert(roles.deep_view() =~= Seq::<RedisRoleView>::empty());
        },
    }
    (out, roles)
}

} // verus!
