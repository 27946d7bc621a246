//! What holds of every deployment descriptor: what refers to a credential
//! by its identifier refers to a credential that is stored.
use vstd::prelude::*;
use crate::infracfg::credentials_of;
use crate::infracfg::deployment_of;
use crate::infracfg::names_distinct;
use crate::infracfg::storage::storage_buckets;
use crate::infracfg::Secrets;
use crate::infracfg::redis::redis_certs_before;
use crate::infracfg::redis::redis_demand_before;
use crate::infracfg::redis::redis_role_of;
use crate::infracfg::resources_of;
use crate::infracfg::rid_plan_of;
use crate::infracfg::redis::redis_role_number;
use crate::infracfg::redis::redis_certs;
use crate::infracfg::sql::cert_demand;
use crate::infracfg::sql::sql_servers_certs;
use crate::infracfg::ClientCert;
use crate::infracfg::sql::cert_rid_or;
use crate::infracfg::sql::server_demand;
use crate::rid::lemma_rid_text_injective;
use crate::rid::rid_text;
use crate::infracfg::sql::certs_of;
use crate::infracfg::sql::database_certs_before;
use crate::infracfg::sql::database_demand_before;
use crate::infracfg::sql::server_certs_of;
use crate::infracfg::sql::server_databases_first;
use crate::infracfg::sql::server_demand_before;
use crate::infracfg::sql::server_roles_of;
use crate::infracfg::sql::sql_certs_before;
use crate::infracfg::sql::sql_roles_before;
use crate::infracfg::sql::tls_client_cert;
use crate::infracfg::InfraConfig;
use crate::infracfg::Redis;
use crate::infracfg::SQLDatabase;
use crate::infracfg::SQLServer;
use crate::runtime::ClientCertView;
use crate::runtime::SqlRoleView;

verus! {

/// Whether a certificate with this identifier is among the certificates.
pub open spec fn has_cert(certs: Seq<ClientCertView>, rid: Seq<char>) -> bool {
    exists|i: int| 0 <= i < certs.len() && (#[trigger] certs[i]).rid == rid
}

/// Whether a role with this identifier is among the roles.
pub open spec fn has_sql_role(roles: Seq<SqlRoleView>, rid: Seq<char>) -> bool {
    exists|i: int| 0 <= i < roles.len() && (#[trigger] roles[i]).rid == rid
}

/// A certificate that is among some certificates is among those and more.
proof fn lemma_has_cert_more(
    before: Seq<ClientCertView>,
    certs: Seq<ClientCertView>,
    after: Seq<ClientCertView>,
    rid: Seq<char>,
)
    requires
        has_cert(certs, rid),
    ensures
        has_cert(before + certs + after, rid),
{
    let i = choose|i: int| 0 <= i < certs.len() && (#[trigger] certs[i]).rid == rid;
    let all = before + certs + after;
    assert(all[before.len() + i] == certs[i]);
}

/// A role that is among some roles is among those and more.
proof fn lemma_has_role_more(
    before: Seq<SqlRoleView>,
    roles: Seq<SqlRoleView>,
    after: Seq<SqlRoleView>,
    rid: Seq<char>,
)
    requires
        has_sql_role(roles, rid),
    ensures
        has_sql_role(before + roles + after, rid),
{
    let i = choose|i: int| 0 <= i < roles.len() && (#[trigger] roles[i]).rid == rid;
    let all = before + roles + after;
    assert(all[before.len() + i] == roles[i]);
}

/// The certificate of database `j` is among the certificates of the
/// databases up to it and beyond.
proof fn lemma_database_cert_stored(dbs: Seq<(String, SQLDatabase)>, first: nat, j: int, n: int)
    requires
        0 <= j < n <= dbs.len(),
        dbs[j].1.client_cert is Some,
    ensures
        has_cert(
            database_certs_before(dbs, first, n),
            cert_rid_or(dbs[j].1.client_cert, first + database_demand_before(dbs, j), None)->0,
        ),
    decreases n,
{
    let rid = cert_rid_or(dbs[j].1.client_cert, first + database_demand_before(dbs, j), None)->0;
    let earlier = database_certs_before(dbs, first, n - 1);
    let last = certs_of(dbs[n - 1].1.client_cert, first + database_demand_before(dbs, n - 1));
    if j == n - 1 {
        assert(last[0].rid == rid);
        lemma_has_cert_more(earlier, last, Seq::empty(), rid);
        assert(earlier + last + Seq::<ClientCertView>::empty() =~= earlier + last);
    } else {
        lemma_database_cert_stored(dbs, first, j, n - 1);
        lemma_has_cert_more(Seq::empty(), earlier, last, rid);
        assert(Seq::<ClientCertView>::empty() + earlier + last =~= earlier + last);
    }
}

/// The certificate that a role of a server refers to is among the
/// certificates of the server.
proof fn lemma_server_role_cert_stored(server: SQLServer, first: nat, j: int)
    requires
        0 <= j < server.databases@.len(),
        server_roles_of(server, first)[j].client_cert_rid is Some,
    ensures
        has_cert(server_certs_of(server, first), server_roles_of(server, first)[j].client_cert_rid->0),
{
    let dbs = server.databases@;
    let db_first = server_databases_first(server, first);
    let own = certs_of(tls_client_cert(server.tls_config), first);
    let others = database_certs_before(dbs, db_first, dbs.len() as int);
    let rid = server_roles_of(server, first)[j].client_cert_rid->0;
    if dbs[j].1.client_cert is Some {
        lemma_database_cert_stored(dbs, db_first, j, dbs.len() as int);
        lemma_has_cert_more(own, others, Seq::empty(), rid);
        assert(own + others + Seq::<ClientCertView>::empty() =~= own + others);
    } else {
        assert(own[0].rid == rid);
        lemma_has_cert_more(Seq::empty(), own, others, rid);
        assert(Seq::<ClientCertView>::empty() + own + others =~= own + others);
    }
}

/// The roles of server `k` are among the roles of the servers up to it
/// and beyond, and so are the certificates that they refer to among the
/// certificates.
proof fn lemma_server_credentials_stored(servers: Seq<SQLServer>, first: nat, k: int, j: int, n: int)
    requires
        0 <= k < n <= servers.len(),
        0 <= j < servers[k].databases@.len(),
    ensures
        has_sql_role(
            sql_roles_before(servers, first, n),
            server_roles_of(servers[k], first + server_demand_before(servers, k))[j].rid,
        ),
        server_roles_of(servers[k], first + server_demand_before(servers, k))[j].client_cert_rid matches Some(
            rid,
        ) ==> has_cert(sql_certs_before(servers, first, n), rid),
    decreases n,
{
    let at = first + server_demand_before(servers, k);
    let role = server_roles_of(servers[k], at)[j];
    let roles_earlier = sql_roles_before(servers, first, n - 1);
    let roles_last = server_roles_of(servers[n - 1], first + server_demand_before(servers, n - 1));
    let certs_earlier = sql_certs_before(servers, first, n - 1);
    let certs_last = server_certs_of(servers[n - 1], first + server_demand_before(servers, n - 1));
    if k == n - 1 {
        assert(roles_last[j].rid == role.rid);
        lemma_has_role_more(roles_earlier, roles_last, Seq::empty(), role.rid);
        assert(roles_earlier + roles_last + Seq::<SqlRoleView>::empty() =~= roles_earlier + roles_last);
        if let Some(rid) = role.client_cert_rid {
            lemma_server_role_cert_stored(servers[k], at, j);
            lemma_has_cert_more(certs_earlier, certs_last, Seq::empty(), rid);
            assert(certs_earlier + certs_last + Seq::<ClientCertView>::empty() =~= certs_earlier
                + certs_last);
        }
    } else {
        lemma_server_credentials_stored(servers, first, k, j, n - 1);
        lemma_has_role_more(Seq::empty(), roles_earlier, roles_last, role.rid);
        assert(Seq::<SqlRoleView>::empty() + roles_earlier + roles_last =~= roles_earlier + roles_last);
        if let Some(rid) = role.client_cert_rid {
            lemma_has_cert_more(Seq::empty(), certs_earlier, certs_last, rid);
            assert(Seq::<ClientCertView>::empty() + certs_earlier + certs_last =~= certs_earlier
                + certs_last);
        }
    }
}

/// In every descriptor, the connection pool of every SQL database refers
/// to a role that is stored in the credentials, and the certificate that
/// the role of the database refers to, if it refers to one, is stored in
/// the credentials too.
pub proof fn lemma_sql_credentials_stored(
    infra: InfraConfig,
    env_entries: Seq<(Seq<char>, Seq<char>)>,
    k: int,
    j: int,
)
    requires
        infra.sql_servers matches Some(servers) && 0 <= k < servers@.len() && 0 <= j
            < servers@[k].databases@.len(),
    ensures
        ({
            let clusters = resources_of(infra, env_entries).sql_clusters;
            let credentials = credentials_of(infra);
            let servers = infra.sql_servers->0@;
            let role = server_roles_of(
                servers[k],
                rid_plan_of(infra).sql + server_demand_before(servers, k),
            )[j];
            &&& clusters[k].databases[j].conn_pools[0].role_rid == role.rid
            &&& has_sql_role(credentials.sql_roles, role.rid)
            &&& role.client_cert_rid matches Some(rid) ==> has_cert(credentials.client_certs, rid)
        }),
{
    let servers = infra.sql_servers->0@;
    let first = rid_plan_of(infra).sql;
    let credentials = credentials_of(infra);
    let role = server_roles_of(servers[k], first + server_demand_before(servers, k))[j];
    lemma_server_credentials_stored(servers, first, k, j, servers.len() as int);
    if let Some(rid) = role.client_cert_rid {
        let sql = sql_certs_before(servers, first, servers.len() as int);
        lemma_has_cert_more(Seq::empty(), sql, credentials.client_certs.skip(sql.len() as int), rid);
        assert(Seq::<ClientCertView>::empty() + sql + credentials.client_certs.skip(sql.len() as int)
            =~= credentials.client_certs);
    }
}

/// The certificate of Redis database `k` is among the certificates of the
/// databases up to it and beyond.
proof fn lemma_redis_cert_stored(entries: Seq<(String, Redis)>, first: nat, k: int, n: int)
    requires
        0 <= k < n <= entries.len(),
        tls_client_cert(entries[k].1.tls_config) is Some,
    ensures
        has_cert(
            redis_certs_before(entries, first, n),
            redis_role_of(entries[k].1, first + redis_demand_before(entries, k)).client_cert_rid->0,
        ),
    decreases n,
{
    let rid = redis_role_of(entries[k].1, first + redis_demand_before(entries, k)).client_cert_rid->0;
    let earlier = redis_certs_before(entries, first, n - 1);
    let last = certs_of(
        tls_client_cert(entries[n - 1].1.tls_config),
        first + redis_demand_before(entries, n - 1),
    );
    if k == n - 1 {
        assert(last[0].rid == rid);
        lemma_has_cert_more(earlier, last, Seq::empty(), rid);
        assert(earlier + last + Seq::<ClientCertView>::empty() =~= earlier + last);
    } else {
        lemma_redis_cert_stored(entries, first, k, n - 1);
        lemma_has_cert_more(Seq::empty(), earlier, last, rid);
        assert(Seq::<ClientCertView>::empty() + earlier + last =~= earlier + last);
    }
}

/// In every descriptor, the connection pool of every Redis database refers
/// to the role that is stored for it in the credentials, and the
/// certificate that the role refers to, if it refers to one, is stored in
/// the credentials too.
pub proof fn lemma_redis_credentials_stored(
    infra: InfraConfig,
    env_entries: Seq<(Seq<char>, Seq<char>)>,
    k: int,
)
    requires
        infra.redis matches Some(entries) && 0 <= k < entries@.len(),
    ensures
        ({
            let clusters = resources_of(infra, env_entries).redis_clusters;
            let credentials = credentials_of(infra);
            &&& clusters[k].databases[0].conn_pools[0].role_rid == credentials.redis_roles[k].rid
            &&& credentials.redis_roles[k].client_cert_rid matches Some(rid) ==> has_cert(
                credentials.client_certs,
                rid,
            )
        }),
{
    let entries = infra.redis->0@;
    let first = rid_plan_of(infra).redis;
    let credentials = credentials_of(infra);
    let role = credentials.redis_roles[k];
    assert(role == redis_role_of(entries[k].1, first + redis_demand_before(entries, k)));
    if let Some(rid) = role.client_cert_rid {
        lemma_redis_cert_stored(entries, first, k, entries.len() as int);
        let redis = redis_certs_before(entries, first, entries.len() as int);
        let sql = credentials.client_certs.take(credentials.client_certs.len() - redis.len());
        lemma_has_cert_more(sql, redis, Seq::empty(), rid);
        assert(sql + redis + Seq::<ClientCertView>::empty() =~= credentials.client_certs);
    }
}

/// The databases before a later one take at least two identifiers more
/// than the databases before an earlier one.
proof fn lemma_redis_demand_grows(entries: Seq<(String, Redis)>, a: int, b: int)
    requires
        0 <= a < b <= entries.len(),
    ensures
        redis_demand_before(entries, a) + 2 <= redis_demand_before(entries, b),
    decreases b,
{
    if a < b - 1 {
        lemma_redis_demand_grows(entries, a, b - 1);
    }
}

/// In every descriptor, no two Redis roles that are stored in the
/// credentials have the same identifier.
pub proof fn lemma_redis_roles_stored_once(infra: InfraConfig, a: int, b: int)
    requires
        infra.redis matches Some(entries) && 0 <= a < b < entries@.len(),
    ensures
        credentials_of(infra).redis_roles[a].rid != credentials_of(infra).redis_roles[b].rid,
{
    let entries = infra.redis->0@;
    let first = rid_plan_of(infra).redis;
    let na = redis_role_number(entries[a].1, first + redis_demand_before(entries, a));
    let nb = redis_role_number(entries[b].1, first + redis_demand_before(entries, b));
    lemma_redis_demand_grows(entries, a, b);
    assert(na < nb);
    if rid_text(na) == rid_text(nb) {
        lemma_rid_text_injective(na, nb);
    }
}

/// The number of the role of database `j` of a server whose databases'
/// identifiers start at number `first`.
pub open spec fn sql_role_number(dbs: Seq<(String, SQLDatabase)>, first: nat, j: int) -> nat {
    first + database_demand_before(dbs, j) + cert_demand(dbs[j].1.client_cert)
}

/// The numbers of the roles of the first `n` servers, in the order in
/// which the roles are stored.
pub open spec fn sql_role_numbers_before(servers: Seq<SQLServer>, first: nat, n: int) -> Seq<nat>
    decreases n,
{
    if n <= 0 {
        Seq::empty()
    } else {
        sql_role_numbers_before(servers, first, n - 1) + Seq::new(
            servers[n - 1].databases@.len(),
            |j: int|
                sql_role_number(
                    servers[n - 1].databases@,
                    server_databases_first(servers[n - 1], first + server_demand_before(servers, n - 1)),
                    j,
                ),
        )
    }
}

/// The databases before a later one take at least two identifiers more
/// than the databases before an earlier one.
proof fn lemma_database_demand_grows(dbs: Seq<(String, SQLDatabase)>, a: int, b: int)
    requires
        0 <= a < b <= dbs.len(),
    ensures
        database_demand_before(dbs, a) + cert_demand(dbs[a].1.client_cert) + 2 <= database_demand_before(
            dbs,
            b,
        ),
    decreases b,
{
    if a < b - 1 {
        lemma_database_demand_grows(dbs, a, b - 1);
    }
}

/// The roles of the first `n` servers carry the identifiers of their
/// numbers, and the numbers grow along the list and stay below the number
/// that the next server starts at.
proof fn lemma_sql_role_numbers(servers: Seq<SQLServer>, first: nat, n: int)
    requires
        0 <= n <= servers.len(),
    ensures
        sql_role_numbers_before(servers, first, n).len() == sql_roles_before(servers, first, n).len(),
        forall|i: int|
            0 <= i < sql_roles_before(servers, first, n).len() ==> (#[trigger] sql_roles_before(
                servers,
                first,
                n,
            )[i]).rid == rid_text(sql_role_numbers_before(servers, first, n)[i]),
        forall|i: int|
            0 <= i < sql_role_numbers_before(servers, first, n).len() ==> (#[trigger] sql_role_numbers_before(
                servers,
                first,
                n,
            )[i]) < first + server_demand_before(servers, n),
        forall|a: int, b: int|
            0 <= a < b < sql_role_numbers_before(servers, first, n).len() ==> (
            #[trigger] sql_role_numbers_before(servers, first, n)[a]) < (#[trigger] sql_role_numbers_before(
                servers,
                first,
                n,
            )[b]),
    decreases n,
{
    if n > 0 {
        lemma_sql_role_numbers(servers, first, n - 1);
        let server = servers[n - 1];
        let dbs = server.databases@;
        let at = first + server_demand_before(servers, n - 1);
        let db_first = server_databases_first(server, at);
        let earlier = sql_role_numbers_before(servers, first, n - 1);
        let last = Seq::new(dbs.len(), |j: int| sql_role_number(dbs, db_first, j));
        let numbers = sql_role_numbers_before(servers, first, n);
        let roles = sql_roles_before(servers, first, n);
        let roles_earlier = sql_roles_before(servers, first, n - 1);
        assert(numbers == earlier + last);
        assert forall|j: int| 0 <= j < dbs.len() implies at <= #[trigger] last[j] && last[j] + 2 <= at
            + server_demand(server) by {
            lemma_database_demand_grows(dbs, j, dbs.len() as int);
        }
        assert forall|i: int| 0 <= i < roles.len() implies (#[trigger] roles[i]).rid == rid_text(
            numbers[i],
        ) by {
            if i < roles_earlier.len() {
                assert(roles[i] == roles_earlier[i]);
                assert(numbers[i] == earlier[i]);
            } else {
                let j = i - roles_earlier.len();
                assert(roles[i] == server_roles_of(server, at)[j]);
                assert(numbers[i] == last[j]);
            }
        }
        assert forall|i: int| 0 <= i < numbers.len() implies (#[trigger] numbers[i]) < first
            + server_demand_before(servers, n) by {
            if i < earlier.len() {
                assert(numbers[i] == earlier[i]);
            } else {
                assert(numbers[i] == last[i - earlier.len()]);
            }
        }
        assert forall|a: int, b: int| 0 <= a < b < numbers.len() implies (#[trigger] numbers[a]) < (
        #[trigger] numbers[b]) by {
            if b < earlier.len() {
                assert(numbers[a] == earlier[a]);
                assert(numbers[b] == earlier[b]);
            } else if a < earlier.len() {
                assert(numbers[a] == earlier[a]);
                assert(numbers[b] == last[b - earlier.len()]);
            } else {
                let ja = a - earlier.len();
                let jb = b - earlier.len();
                assert(numbers[a] == last[ja]);
                assert(numbers[b] == last[jb]);
                lemma_database_demand_grows(dbs, ja, jb);
            }
        }
    }
}

/// In every descriptor, no two SQL roles that are stored in the
/// credentials have the same identifier.
pub proof fn lemma_sql_roles_stored_once(infra: InfraConfig, a: int, b: int)
    requires
        0 <= a < b < credentials_of(infra).sql_roles.len(),
    ensures
        credentials_of(infra).sql_roles[a].rid != credentials_of(infra).sql_roles[b].rid,
{
    if let Some(servers) = infra.sql_servers {
        let first = rid_plan_of(infra).sql;
        let n = servers@.len() as int;
        lemma_sql_role_numbers(servers@, first, n);
        let numbers = sql_role_numbers_before(servers@, first, n);
        let roles = sql_roles_before(servers@, first, n);
        assert(roles[a].rid == rid_text(numbers[a]));
        assert(roles[b].rid == rid_text(numbers[b]));
        assert(numbers[a] < numbers[b]);
        if rid_text(numbers[a]) == rid_text(numbers[b]) {
            lemma_rid_text_injective(numbers[a], numbers[b]);
        }
    }
}

/// Whether the numbers grow along the list and lie from `lo` up to, but
/// not including, `hi`.
pub open spec fn grows_within(numbers: Seq<nat>, lo: nat, hi: nat) -> bool {
    &&& forall|i: int| 0 <= i < numbers.len() ==> lo <= #[trigger] numbers[i] < hi
    &&& forall|a: int, b: int|
        0 <= a < b < numbers.len() ==> (#[trigger] numbers[a]) < (#[trigger] numbers[b])
}

/// Whether the certificates carry the identifiers of the numbers, one
/// each, in order.
pub open spec fn certs_numbered(certs: Seq<ClientCertView>, numbers: Seq<nat>) -> bool {
    &&& certs.len() == numbers.len()
    &&& forall|i: int| 0 <= i < certs.len() ==> (#[trigger] certs[i]).rid == rid_text(numbers[i])
}

/// Numbers that grow below a bound, followed by numbers that grow from
/// that bound on, grow.
proof fn lemma_grows_joined(a: Seq<nat>, b: Seq<nat>, lo: nat, mid: nat, hi: nat)
    requires
        grows_within(a, lo, mid),
        grows_within(b, mid, hi),
        lo <= mid <= hi,
    ensures
        grows_within(a + b, lo, hi),
{
    let all = a + b;
    assert forall|i: int| 0 <= i < all.len() implies lo <= #[trigger] all[i] < hi by {
        if i < a.len() {
            assert(all[i] == a[i]);
        } else {
            assert(all[i] == b[i - a.len()]);
        }
    }
    assert forall|x: int, y: int| 0 <= x < y < all.len() implies (#[trigger] all[x]) < (#[trigger] all[y]) by {
        if y < a.len() {
            assert(all[x] == a[x] && all[y] == a[y]);
        } else if x < a.len() {
            assert(all[x] == a[x] && all[y] == b[y - a.len()]);
        } else {
            assert(all[x] == b[x - a.len()] && all[y] == b[y - a.len()]);
        }
    }
}

/// Certificates numbered by some numbers, followed by certificates
/// numbered by others, are numbered by the numbers of both.
proof fn lemma_numbered_joined(c: Seq<ClientCertView>, d: Seq<ClientCertView>, a: Seq<nat>, b: Seq<nat>)
    requires
        certs_numbered(c, a),
        certs_numbered(d, b),
    ensures
        certs_numbered(c + d, a + b),
{
    let certs = c + d;
    let numbers = a + b;
    assert forall|i: int| 0 <= i < certs.len() implies (#[trigger] certs[i]).rid == rid_text(
        numbers[i],
    ) by {
        if i < c.len() {
            assert(certs[i] == c[i] && numbers[i] == a[i]);
        } else {
            assert(certs[i] == d[i - c.len()] && numbers[i] == b[i - c.len()]);
        }
    }
}

/// The number of an optional certificate that takes the identifier
/// numbered `n`.
pub open spec fn cert_numbers_of(cert: Option<ClientCert>, n: nat) -> Seq<nat> {
    match cert {
        Some(_) => seq![n],
        None => Seq::empty(),
    }
}

/// The numbers of the certificates of the first `k` databases of a
/// server.
pub open spec fn database_cert_numbers_before(dbs: Seq<(String, SQLDatabase)>, first: nat, k: int) -> Seq<
    nat,
>
    decreases k,
{
    if k <= 0 {
        Seq::empty()
    } else {
        database_cert_numbers_before(dbs, first, k - 1) + cert_numbers_of(
            dbs[k - 1].1.client_cert,
            first + database_demand_before(dbs, k - 1),
        )
    }
}

/// The numbers of the certificates of the first `n` servers.
pub open spec fn sql_cert_numbers_before(servers: Seq<SQLServer>, first: nat, n: int) -> Seq<nat>
    decreases n,
{
    if n <= 0 {
        Seq::empty()
    } else {
        sql_cert_numbers_before(servers, first, n - 1) + (cert_numbers_of(
            tls_client_cert(servers[n - 1].tls_config),
            first + server_demand_before(servers, n - 1),
        ) + database_cert_numbers_before(
            servers[n - 1].databases@,
            server_databases_first(servers[n - 1], first + server_demand_before(servers, n - 1)),
            servers[n - 1].databases@.len() as int,
        ))
    }
}

/// The numbers of the certificates of the first `n` Redis databases.
pub open spec fn redis_cert_numbers_before(entries: Seq<(String, Redis)>, first: nat, n: int) -> Seq<nat>
    decreases n,
{
    if n <= 0 {
        Seq::empty()
    } else {
        redis_cert_numbers_before(entries, first, n - 1) + cert_numbers_of(
            tls_client_cert(entries[n - 1].1.tls_config),
            first + redis_demand_before(entries, n - 1),
        )
    }
}

/// An optional certificate is numbered by its number, which lies where
/// the certificate takes its identifier.
proof fn lemma_cert_numbered(cert: Option<ClientCert>, n: nat)
    ensures
        certs_numbered(certs_of(cert, n), cert_numbers_of(cert, n)),
        grows_within(cert_numbers_of(cert, n), n, n + cert_demand(cert)),
{
}

proof fn lemma_database_certs_numbered(dbs: Seq<(String, SQLDatabase)>, first: nat, k: int)
    requires
        0 <= k <= dbs.len(),
    ensures
        certs_numbered(
            database_certs_before(dbs, first, k),
            database_cert_numbers_before(dbs, first, k),
        ),
        grows_within(
            database_cert_numbers_before(dbs, first, k),
            first,
            first + database_demand_before(dbs, k),
        ),
    decreases k,
{
    if k > 0 {
        let at = first + database_demand_before(dbs, k - 1);
        let cert = dbs[k - 1].1.client_cert;
        lemma_database_certs_numbered(dbs, first, k - 1);
        lemma_cert_numbered(cert, at);
        lemma_numbered_joined(
            database_certs_before(dbs, first, k - 1),
            certs_of(cert, at),
            database_cert_numbers_before(dbs, first, k - 1),
            cert_numbers_of(cert, at),
        );
        assert(grows_within(cert_numbers_of(cert, at), at, first + database_demand_before(dbs, k)));
        lemma_grows_joined(
            database_cert_numbers_before(dbs, first, k - 1),
            cert_numbers_of(cert, at),
            first,
            at,
            first + database_demand_before(dbs, k),
        );
    }
}

proof fn lemma_sql_certs_numbered(servers: Seq<SQLServer>, first: nat, n: int)
    requires
        0 <= n <= servers.len(),
    ensures
        certs_numbered(sql_certs_before(servers, first, n), sql_cert_numbers_before(servers, first, n)),
        grows_within(
            sql_cert_numbers_before(servers, first, n),
            first,
            first + server_demand_before(servers, n),
        ),
    decreases n,
{
    if n > 0 {
        let server = servers[n - 1];
        let dbs = server.databases@;
        let at = first + server_demand_before(servers, n - 1);
        let db_first = server_databases_first(server, at);
        let own = tls_client_cert(server.tls_config);
        let end = first + server_demand_before(servers, n);
        lemma_sql_certs_numbered(servers, first, n - 1);
        lemma_cert_numbered(own, at);
        lemma_database_certs_numbered(dbs, db_first, dbs.len() as int);
        let own_numbers = cert_numbers_of(own, at);
        let db_numbers = database_cert_numbers_before(dbs, db_first, dbs.len() as int);
        lemma_numbered_joined(
            certs_of(own, at),
            database_certs_before(dbs, db_first, dbs.len() as int),
            own_numbers,
            db_numbers,
        );
        assert(grows_within(db_numbers, db_first, end));
        lemma_grows_joined(own_numbers, db_numbers, at, db_first, end);
        lemma_numbered_joined(
            sql_certs_before(servers, first, n - 1),
            server_certs_of(server, at),
            sql_cert_numbers_before(servers, first, n - 1),
            own_numbers + db_numbers,
        );
        lemma_grows_joined(
            sql_cert_numbers_before(servers, first, n - 1),
            own_numbers + db_numbers,
            first,
            at,
            end,
        );
    }
}

proof fn lemma_redis_certs_numbered(entries: Seq<(String, Redis)>, first: nat, n: int)
    requires
        0 <= n <= entries.len(),
    ensures
        certs_numbered(
            redis_certs_before(entries, first, n),
            redis_cert_numbers_before(entries, first, n),
        ),
        grows_within(
            redis_cert_numbers_before(entries, first, n),
            first,
            first + redis_demand_before(entries, n),
        ),
    decreases n,
{
    if n > 0 {
        let at = first + redis_demand_before(entries, n - 1);
        let cert = tls_client_cert(entries[n - 1].1.tls_config);
        lemma_redis_certs_numbered(entries, first, n - 1);
        lemma_cert_numbered(cert, at);
        lemma_numbered_joined(
            redis_certs_before(entries, first, n - 1),
            certs_of(cert, at),
            redis_cert_numbers_before(entries, first, n - 1),
            cert_numbers_of(cert, at),
        );
        assert(grows_within(cert_numbers_of(cert, at), at, first + redis_demand_before(entries, n)));
        lemma_grows_joined(
            redis_cert_numbers_before(entries, first, n - 1),
            cert_numbers_of(cert, at),
            first,
            at,
            first + redis_demand_before(entries, n),
        );
    }
}

/// In every descriptor, no two client certificates that are stored in the
/// credentials have the same identifier.
pub proof fn lemma_client_certs_stored_once(infra: InfraConfig, a: int, b: int)
    requires
        0 <= a < b < credentials_of(infra).client_certs.len(),
    ensures
        credentials_of(infra).client_certs[a].rid != credentials_of(infra).client_certs[b].rid,
{
    let plan = rid_plan_of(infra);
    let sql_numbers = match infra.sql_servers {
        Some(servers) => sql_cert_numbers_before(servers@, plan.sql, servers@.len() as int),
        None => Seq::empty(),
    };
    let redis_numbers = match infra.redis {
        Some(entries) => redis_cert_numbers_before(entries@, plan.redis, entries@.len() as int),
        None => Seq::empty(),
    };
    if let Some(servers) = infra.sql_servers {
        lemma_sql_certs_numbered(servers@, plan.sql, servers@.len() as int);
    }
    if let Some(entries) = infra.redis {
        lemma_redis_certs_numbered(entries@, plan.redis, entries@.len() as int);
    }
    let certs = credentials_of(infra).client_certs;
    let numbers = sql_numbers + redis_numbers;
    lemma_numbered_joined(
        sql_servers_certs(infra.sql_servers, plan.sql),
        redis_certs(infra.redis, plan.redis),
        sql_numbers,
        redis_numbers,
    );
    lemma_grows_joined(sql_numbers, redis_numbers, plan.sql, plan.redis, plan.pubsub);
    assert(certs[a].rid == rid_text(numbers[a]));
    assert(certs[b].rid == rid_text(numbers[b]));
    assert(numbers[a] < numbers[b]);
    if rid_text(numbers[a]) == rid_text(numbers[b]) {
        lemma_rid_text_injective(numbers[a], numbers[b]);
    }
}

/// Whether no name occurs twice among named values.
pub open spec fn no_name_twice<T>(entries: Seq<(Seq<char>, T)>) -> bool {
    forall|i: int, j: int| 0 <= i < j < entries.len() ==> (#[trigger] entries[i]).0 != (#[trigger] entries[j]).0
}

/// In the descriptor of a configuration that has each name once, each
/// service is located once, each bucket of a cluster and each database of
/// a cluster goes by a name of its own, and so does each Redis database
/// and each secret that is configured by itself.
pub proof fn lemma_names_stay_distinct(infra: InfraConfig, env_entries: Seq<(Seq<char>, Seq<char>)>)
    requires
        infra.wf(),
    ensures
        deployment_of(infra).service_discovery matches Some(discovery) ==> no_name_twice(
            discovery.services,
        ),
        forall|k: int, i: int, j: int|
            0 <= k < resources_of(infra, env_entries).bucket_clusters.len() && 0 <= i < j < resources_of(
                infra,
                env_entries,
            ).bucket_clusters[k].buckets.len() ==> (#[trigger] resources_of(
                infra,
                env_entries,
            ).bucket_clusters[k].buckets[i]).encore_name != (#[trigger] resources_of(
                infra,
                env_entries,
            ).bucket_clusters[k].buckets[j]).encore_name,
        forall|k: int, i: int, j: int|
            0 <= k < resources_of(infra, env_entries).sql_clusters.len() && 0 <= i < j < resources_of(
                infra,
                env_entries,
            ).sql_clusters[k].databases.len() ==> (#[trigger] resources_of(
                infra,
                env_entries,
            ).sql_clusters[k].databases[i]).encore_name != (#[trigger] resources_of(
                infra,
                env_entries,
            ).sql_clusters[k].databases[j]).encore_name,
        forall|i: int, j: int|
            0 <= i < j < resources_of(infra, env_entries).redis_clusters.len() ==> (#[trigger] resources_of(
                infra,
                env_entries,
            ).redis_clusters[i]).databases[0].encore_name != (#[trigger] resources_of(
                infra,
                env_entries,
            ).redis_clusters[j]).databases[0].encore_name,
        infra.secrets matches Some(Secrets::Values(_)) ==> forall|i: int, j: int|
            0 <= i < j < resources_of(infra, env_entries).app_secrets.len() ==> (#[trigger] resources_of(
                infra,
                env_entries,
            ).app_secrets[i]).encore_name != (#[trigger] resources_of(
                infra,
                env_entries,
            ).app_secrets[j]).encore_name,
{
    let resources = resources_of(infra, env_entries);
    if let Some(storages) = infra.object_storage {
        assert forall|k: int, i: int, j: int|
            0 <= k < resources.bucket_clusters.len() && 0 <= i < j
                < resources.bucket_clusters[k].buckets.len() implies (
        #[trigger] resources.bucket_clusters[k].buckets[i]).encore_name != (
        #[trigger] resources.bucket_clusters[k].buckets[j]).encore_name by {
            assert(storages@[k].wf());
            let entries = storage_buckets(storages@[k]);
            assert(entries[i].0@ != entries[j].0@);
        }
    }
    if let Some(servers) = infra.sql_servers {
        assert forall|k: int, i: int, j: int|
            0 <= k < resources.sql_clusters.len() && 0 <= i < j < resources.sql_clusters[k].databases.len() implies (
        #[trigger] resources.sql_clusters[k].databases[i]).encore_name != (
        #[trigger] resources.sql_clusters[k].databases[j]).encore_name by {
            let dbs = servers@[k].databases@;
            assert(names_distinct(dbs));
            assert(dbs[i].0@ != dbs[j].0@);
        }
    }
    if let Some(entries) = infra.redis {
        assert forall|i: int, j: int| 0 <= i < j < resources.redis_clusters.len() implies (
        #[trigger] resources.redis_clusters[i]).databases[0].encore_name != (
        #[trigger] resources.redis_clusters[j]).databases[0].encore_name by {
            assert(entries@[i].0@ != entries@[j].0@);
        }
    }
    if let Some(services) = infra.service_discovery {
        let located = deployment_of(infra).service_discovery->0.services;
        assert forall|i: int, j: int| 0 <= i < j < located.len() implies (#[trigger] located[i]).0 != (
        #[trigger] located[j]).0 by {
            assert(services@[i].0@ != services@[j].0@);
        }
    }
    if let Some(Secrets::Values(entries)) = infra.secrets {
        assert forall|i: int, j: int| 0 <= i < j < resources.app_secrets.len() implies (
        #[trigger] resources.app_secrets[i]).encore_name != (#[trigger] resources.app_secrets[j]).encore_name by {
            assert(entries@[i].0@ != entries@[j].0@);
        }
    }
}

} // verus!
