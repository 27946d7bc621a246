//! SQL servers. Every server becomes a cluster of its own. Identifiers are
//! issued in this order: for the client certificate of the server's TLS
//! configuration, if it has one; then, database by database, for the
//! database's own client certificate, if it has one, for its role and for
//! the database itself; then for the cluster and for the server.
//!
//! Certificates and roles go to the credentials, each once; a role refers to
//! its database's certificate or else to the server's, and a database's
//! connection pool refers to the role.
use vstd::prelude::*;
use crate::infracfg::map_env_string_to_secret_data;
use crate::infracfg::secret_data_of;
use crate::infracfg::ClientCert;
use crate::infracfg::SQLDatabase;
use crate::infracfg::SQLServer;
use crate::infracfg::TLSConfig;
use crate::rid::rid_text;
use crate::rid::RidCounter;
use crate::runtime;
use crate::runtime::ClientCertView;
use crate::runtime::ServerKind;
use crate::runtime::SqlCluster;
use crate::runtime::SqlClusterView;
use crate::runtime::SqlConnectionPool;
use crate::runtime::SqlConnectionPoolView;
use crate::runtime::SqlDatabase;
use crate::runtime::SqlDatabaseView;
use crate::runtime::SqlRole;
use crate::runtime::SqlRoleView;
use crate::runtime::SqlServer;
use crate::runtime::SqlServerView;
use crate::runtime::TlsConfig;
use crate::runtime::TlsConfigView;

verus! {

/// A client certificate of the descriptor, with the identifier numbered `n`.
pub open spec fn client_cert_of(cert: ClientCert, n: nat) -> ClientCertView {
    ClientCertView { rid: rid_text(n), cert: cert.cert@, key: secret_data_of(cert.key) }
}

/// The client certificate that a TLS configuration names, if any.
pub open spec fn tls_client_cert(tls: Option<TLSConfig>) -> Option<ClientCert> {
    match tls {
        Some(tls) => tls.client_cert,
        None => None,
    }
}

/// How a server's certificate is checked. Without a TLS configuration
/// everything is checked against the usual authorities; a configuration
/// that switches TLS off yields none.
pub open spec fn tls_of(tls: Option<TLSConfig>) -> Option<TlsConfigView> {
    match tls {
        Some(tls) => if tls.disabled {
            None
        } else {
            Some(
                TlsConfigView {
                    server_ca_cert: tls.ca.deep_view(),
                    disable_tls_hostname_verification: tls.disable_tls_hostname_verification,
                    disable_ca_validation: tls.disable_ca_validation,
                },
            )
        },
        None => Some(
            TlsConfigView {
                server_ca_cert: None,
                disable_tls_hostname_verification: false,
                disable_ca_validation: false,
            },
        ),
    }
}

/// How many identifiers one optional certificate takes.
pub open spec fn cert_demand(cert: Option<ClientCert>) -> nat {
    match cert {
        Some(_) => 1,
        None => 0,
    }
}

/// The certificates that one optional certificate adds to the credentials.
pub open spec fn certs_of(cert: Option<ClientCert>, n: nat) -> Seq<ClientCertView> {
    match cert {
        Some(cert) => seq![client_cert_of(cert, n)],
        None => Seq::empty(),
    }
}

/// The identifier of an optional certificate, or else `fallback`.
pub open spec fn cert_rid_or(cert: Option<ClientCert>, n: nat, fallback: Option<Seq<char>>) -> Option<
    Seq<char>,
> {
    match cert {
        Some(_) => Some(rid_text(n)),
        None => fallback,
    }
}

/// A number, or else a default.
pub open spec fn number_or(n: Option<i32>, default: i32) -> i32 {
    match n {
        Some(n) => n,
        None => default,
    }
}

/// How many identifiers one database takes.
pub open spec fn database_demand(db: SQLDatabase) -> nat {
    cert_demand(db.client_cert) + 2
}

/// How many identifiers the first `k` databases take.
pub open spec fn database_demand_before(dbs: Seq<(String, SQLDatabase)>, k: int) -> nat
    decreases k,
{
    if k <= 0 {
        0
    } else {
        database_demand_before(dbs, k - 1) + database_demand(dbs[k - 1].1)
    }
}

/// The role of one database, whose identifiers start at number `first`.
pub open spec fn sql_role_of(db: SQLDatabase, first: nat, server_cert: Option<Seq<char>>) -> SqlRoleView {
    SqlRoleView {
        rid: rid_text(first + cert_demand(db.client_cert)),
        client_cert_rid: cert_rid_or(db.client_cert, first, server_cert),
        username: db.username@,
        password: secret_data_of(db.password),
    }
}

/// One database of the descriptor, whose identifiers start at number
/// `first`. Its one pool reads and writes, with no connection kept open and
/// at most 100 opened unless configured otherwise. Without a name of its
/// own the database is called at the server as it is in the application.
pub open spec fn sql_database_of(entry: (String, SQLDatabase), first: nat) -> SqlDatabaseView {
    SqlDatabaseView {
        rid: rid_text(first + cert_demand(entry.1.client_cert) + 1),
        encore_name: entry.0@,
        cloud_name: match entry.1.name {
            Some(name) => name@,
            None => entry.0@,
        },
        conn_pools: seq![
            SqlConnectionPoolView {
                is_readonly: false,
                role_rid: rid_text(first + cert_demand(entry.1.client_cert)),
                min_connections: number_or(entry.1.min_connections, 0),
                max_connections: number_or(entry.1.max_connections, 100),
            },
        ],
    }
}

/// The databases of one server, numbered from `first` on.
pub open spec fn sql_databases_of(dbs: Seq<(String, SQLDatabase)>, first: nat) -> Seq<SqlDatabaseView> {
    Seq::new(dbs.len(), |j: int| sql_database_of(dbs[j], first + database_demand_before(dbs, j)))
}

/// The roles of one server's databases, numbered from `first` on.
pub open spec fn sql_roles_of(
    dbs: Seq<(String, SQLDatabase)>,
    first: nat,
    server_cert: Option<Seq<char>>,
) -> Seq<SqlRoleView> {
    Seq::new(
        dbs.len(),
        |j: int| sql_role_of(dbs[j].1, first + database_demand_before(dbs, j), server_cert),
    )
}

/// The certificates of the first `k` databases of one server, numbered from
/// `first` on.
pub open spec fn database_certs_before(dbs: Seq<(String, SQLDatabase)>, first: nat, k: int) -> Seq<
    ClientCertView,
>
    decreases k,
{
    if k <= 0 {
        Seq::empty()
    } else {
        database_certs_before(dbs, first, k - 1) + certs_of(
            dbs[k - 1].1.client_cert,
            first + database_demand_before(dbs, k - 1),
        )
    }
}

/// How many identifiers one server takes.
pub open spec fn server_demand(server: SQLServer) -> nat {
    cert_demand(tls_client_cert(server.tls_config)) + database_demand_before(
        server.databases@,
        server.databases@.len() as int,
    ) + 2
}

/// How many identifiers the first `k` servers take.
pub open spec fn server_demand_before(servers: Seq<SQLServer>, k: int) -> nat
    decreases k,
{
    if k <= 0 {
        0
    } else {
        server_demand_before(servers, k - 1) + server_demand(servers[k - 1])
    }
}

/// The number of the first identifier of a server's databases, when the
/// server's identifiers start at number `first`.
pub open spec fn server_databases_first(server: SQLServer, first: nat) -> nat {
    first + cert_demand(tls_client_cert(server.tls_config))
}

/// The number of a server's cluster identifier.
pub open spec fn server_cluster_number(server: SQLServer, first: nat) -> nat {
    server_databases_first(server, first) + database_demand_before(
        server.databases@,
        server.databases@.len() as int,
    )
}

/// The cluster of one server, whose identifiers start at number `first`.
pub open spec fn sql_cluster_of(server: SQLServer, first: nat) -> SqlClusterView {
    SqlClusterView {
        rid: rid_text(server_cluster_number(server, first)),
        servers: seq![
            SqlServerView {
                rid: rid_text(server_cluster_number(server, first) + 1),
                host: server.host@,
                kind: ServerKind::Primary,
                tls_config: tls_of(server.tls_config),
            },
        ],
        databases: sql_databases_of(server.databases@, server_databases_first(server, first)),
    }
}

/// The roles that one server adds to the credentials.
pub open spec fn server_roles_of(server: SQLServer, first: nat) -> Seq<SqlRoleView> {
    sql_roles_of(
        server.databases@,
        server_databases_first(server, first),
        cert_rid_or(tls_client_cert(server.tls_config), first, None),
    )
}

/// The certificates that one server adds to the credentials: its own, then
/// those of its databases.
pub open spec fn server_certs_of(server: SQLServer, first: nat) -> Seq<ClientCertView> {
    certs_of(tls_client_cert(server.tls_config), first) + database_certs_before(
        server.databases@,
        server_databases_first(server, first),
        server.databases@.len() as int,
    )
}

/// The clusters of all servers, in the configured order, numbered from
/// `first` on without a gap.
pub open spec fn sql_clusters_of(servers: Seq<SQLServer>, first: nat) -> Seq<SqlClusterView> {
    Seq::new(
        servers.len(),
        |k: int| sql_cluster_of(servers[k], first + server_demand_before(servers, k)),
    )
}

/// The roles that the first `k` servers add to the credentials.
pub open spec fn sql_roles_before(servers: Seq<SQLServer>, first: nat, k: int) -> Seq<SqlRoleView>
    decreases k,
{
    if k <= 0 {
        Seq::empty()
    } else {
        sql_roles_before(servers, first, k - 1) + server_roles_of(
            servers[k - 1],
            first + server_demand_before(servers, k - 1),
        )
    }
}

/// The certificates that the first `k` servers add to the credentials.
pub open spec fn sql_certs_before(servers: Seq<SQLServer>, first: nat, k: int) -> Seq<ClientCertView>
    decreases k,
{
    if k <= 0 {
        Seq::empty()
    } else {
        sql_certs_before(servers, first, k - 1) + server_certs_of(
            servers[k - 1],
            first + server_demand_before(servers, k - 1),
        )
    }
}

/// The clusters of an optional list of servers.
pub open spec fn sql_servers_of(servers: Option<Vec<SQLServer>>, first: nat) -> Seq<SqlClusterView> {
    match servers {
        Some(servers) => sql_clusters_of(servers@, first),
        None => Seq::empty(),
    }
}

/// The roles of an optional list of servers.
pub open spec fn sql_servers_roles(servers: Option<Vec<SQLServer>>, first: nat) -> Seq<SqlRoleView> {
    match servers {
        Some(servers) => sql_roles_before(servers@, first, servers@.len() as int),
        None => Seq::empty(),
    }
}

/// The certificates of an optional list of servers.
pub open spec fn sql_servers_certs(servers: Option<Vec<SQLServer>>, first: nat) -> Seq<ClientCertView> {
    match servers {
        Some(servers) => sql_certs_before(servers@, first, servers@.len() as int),
        None => Seq::empty(),
    }
}

/// How many identifiers an optional list of servers takes.
pub open spec fn sql_servers_demand(servers: Option<Vec<SQLServer>>) -> nat {
    match servers {
        Some(servers) => server_demand_before(servers@, servers@.len() as int),
        None => 0,
    }
}

/// Maps how a server's certificate is checked.
pub fn map_tls(tls: &Option<TLSConfig>) -> (r: Option<TlsConfig>)
    ensures
        r.deep_view() == tls_of(*tls),
{
    match tls {
        Some(tls) => if tls.disabled {
            None
        } else {
            Some(
                TlsConfig {
                    server_ca_cert: tls.ca.clone(),
                    disable_tls_hostname_verification: tls.disable_tls_hostname_verification,
                    disable_ca_validation: tls.disable_ca_validation,
                },
            )
        },
        None => Some(
            TlsConfig {
                server_ca_cert: None,
                disable_tls_hostname_verification: false,
                disable_ca_validation: false,
            },
        ),
    }
}

/// Stores an optional certificate in the credentials and returns its
/// identifier.
pub fn store_client_cert(
    cert: &Option<ClientCert>,
    rids: &mut RidCounter,
    certs: &mut Vec<runtime::ClientCert>,
) -> (rid: Option<String>)
    requires
        old(rids).wf(),
    ensures
        final(rids).wf(),
        final(rids)@ == old(rids)@ + cert_demand(*cert),
        final(certs).deep_view() == old(certs).deep_view() + certs_of(*cert, old(rids)@),
        rid.deep_view() == cert_rid_or(*cert, old(rids)@, None),
{
    match cert {
        Some(cert) => {
            let rid = rids.next();
            certs.push(
                runtime::ClientCert {
                    rid: rid.clone(),
                    cert: cert.cert.clone(),
                    key: map_env_string_to_secret_data(&cert.key),
                },
            );
            assert(certs.deep_view() =~= old(certs).deep_view() + certs_of(Some(*cert), old(rids)@));
            Some(rid)
        },
        None => {
            assert(certs.deep_view() =~= old(certs).deep_view() + Seq::<ClientCertView>::empty());
            None
        },
    }
}

/// Maps one database, issuing its identifiers and storing its
/// certificate and its role in the credentials. `server_cert` is the
/// identifier of the server's certificate.
pub fn map_sql_database(
    entry: &(String, SQLDatabase),
    server_cert: &Option<String>,
    rids: &mut RidCounter,
    certs: &mut Vec<runtime::ClientCert>,
    roles: &mut Vec<SqlRole>,
) -> (database: SqlDatabase)
    requires
        old(rids).wf(),
    ensures
        final(rids).wf(),
        final(rids)@ == old(rids)@ + database_demand(entry.1),
        final(certs).deep_view() == old(certs).deep_view() + certs_of(entry.1.client_cert, old(rids)@),
        final(roles).deep_view() == old(roles).deep_view().push(
            sql_role_of(entry.1, old(rids)@, server_cert.deep_view()),
        ),
        database.deep_view() == sql_database_of(*entry, old(rids)@),
{
    let db = &entry.1;
    let own_cert = store_client_cert(&db.client_cert, rids, certs);
    let client_cert_rid = match own_cert {
        Some(rid) => Some(rid),
        None => server_cert.clone(),
    };
    let role_rid = rids.next();
    roles.push(
        SqlRole {
            rid: role_rid.clone(),
            client_cert_rid,
            username: db.username.clone(),
            password: map_env_string_to_secret_data(&db.password),
        },
    );
    assert(roles.deep_view() =~= old(roles).deep_view().push(
        sql_role_of(entry.1, old(rids)@, server_cert.deep_view()),
    ));
    let mut conn_pools: Vec<SqlConnectionPool> = Vec::new();
    conn_pools.push(
        SqlConnectionPool {
            is_readonly: false,
            role_rid,
            min_connections: match db.min_connections {
                Some(n) => n,
                None => 0,
            },
            max_connections: match db.max_connections {
                Some(n) => n,
                None => 100,
            },
        },
    );
    assert(conn_pools.deep_view() =~= sql_database_of(*entry, old(rids)@).conn_pools);
    SqlDatabase {
        rid: rids.next(),
        encore_name: entry.0.clone(),
        cloud_name: match &db.name {
            Some(name) => name.clone(),
            None => entry.0.clone(),
        },
        conn_pools,
    }
}

/// Maps one SQL server, issuing its identifiers and storing its
/// certificates and roles in the credentials.
pub fn map_sql_server(
    server: &SQLServer,
    rids: &mut RidCounter,
    certs: &mut Vec<runtime::ClientCert>,
    roles: &mut Vec<SqlRole>,
) -> (cluster: SqlCluster)
    requires
        old(rids).wf(),
    ensures
        final(rids).wf(),
        final(rids)@ == old(rids)@ + server_demand(*server),
        final(certs).deep_view() == old(certs).deep_view() + server_certs_of(*server, old(rids)@),
        final(roles).deep_view() == old(roles).deep_view() + server_roles_of(*server, old(rids)@),
        cluster.deep_view() == sql_cluster_of(*server, old(rids)@),
{
    let ghost first = rids@;
    let ghost dbs = server.databases@;
    let server_cert = match &server.tls_config {
        Some(tls) => store_client_cert(&tls.client_cert, rids, certs),
        None => {
            assert(certs.deep_view() =~= old(certs).deep_view() + Seq::<ClientCertView>::empty());
            None
        },
    };
    let ghost db_first = rids@;
    let ghost server_rid = server_cert.deep_view();
    let ghost certs_mid = certs.deep_view();
    let ghost roles_start = roles.deep_view();
    let mut databases: Vec<SqlDatabase> = Vec::new();
    let mut j: usize = 0;
    while j < server.databases.len()
        invariant
            j <= server.databases.len(),
            dbs == server.databases@,
            databases.len() == j,
            rids.wf(),
            rids@ == db_first + database_demand_before(dbs, j as int),
            certs.deep_view() == certs_mid + database_certs_before(dbs, db_first, j as int),
            roles.deep_view().len() == roles_start.len() + j,
            forall|i: int| 0 <= i < roles_start.len() ==> roles.deep_view()[i] == roles_start[i],
            forall|i: int|
                0 <= i < j ==> roles.deep_view()[roles_start.len() + i] == sql_role_of(
                    dbs[i].1,
                    db_first + database_demand_before(dbs, i),
                    server_rid,
                ),
            server_rid == server_cert.deep_view(),
            forall|i: int|
                0 <= i < j ==> (#[trigger] databases@[i]).deep_view() == sql_database_of(
                    dbs[i],
                    db_first + database_demand_before(dbs, i),
                ),
        decreases server.databases.len() - j,
    {
        let database = map_sql_database(&server.databases[j], &server_cert, rids, certs, roles);
        databases.push(database);
        proof {
            assert(certs.deep_view() =~= certs_mid + database_certs_before(dbs, db_first, j + 1));
        }
        j += 1;
    }
    proof {
        assert(databases.deep_view() =~= sql_databases_of(dbs, db_first));
        assert(roles.deep_view() =~= old(roles).deep_view() + server_roles_of(*server, first));
        assert(certs.deep_view() =~= old(certs).deep_view() + server_certs_of(*server, first));
    }
    let rid = rids.next();
    let mut servers: Vec<SqlServer> = Vec::new();
    servers.push(
        SqlServer {
            rid: rids.next(),
            host: server.host.clone(),
            kind: ServerKind::Primary,
            tls_config: map_tls(&server.tls_config),
        },
    );
    assert(servers.deep_view() =~= sql_cluster_of(*server, first).servers);
    SqlCluster { rid, servers, databases }
}

/// Maps the SQL servers, adding their certificates to `certs` and
/// their roles to `roles`.
pub fn map_sql_servers(
    servers: &Option<Vec<SQLServer>>,
    rids: &mut RidCounter,
    certs: &mut Vec<runtime::ClientCert>,
    roles: &mut Vec<SqlRole>,
) -> (out: Vec<SqlCluster>)
    requires
        old(rids).wf(),
    ensures
        final(rids).wf(),
        final(rids)@ == old(rids)@ + sql_servers_demand(*servers),
        final(certs).deep_view() == old(certs).deep_view() + sql_servers_certs(*servers, old(rids)@),
        final(roles).deep_view() == old(roles).deep_view() + sql_servers_roles(*servers, old(rids)@),
        out.deep_view() == sql_servers_of(*servers, old(rids)@),
{
    let ghost first = rids@;
    let mut out: Vec<SqlCluster> = Vec::new();
    match servers {
        Some(servers) => {
            let mut k: usize = 0;
            assert(certs.deep_view() =~= old(certs).deep_view() + sql_certs_before(servers@, first, 0));
            assert(roles.deep_view() =~= old(roles).deep_view() + sql_roles_before(servers@, first, 0));
            while k < servers.len()
                invariant
                    k <= servers.len(),
                    out.len() == k,
                    rids.wf(),
                    rids@ == first + server_demand_before(servers@, k as int),
                    certs.deep_view() == old(certs).deep_view() + sql_certs_before(servers@, first, k as int),
                    roles.deep_view() == old(roles).deep_view() + sql_roles_before(servers@, first, k as int),
                    forall|i: int|
                        0 <= i < k ==> (#[trigger] out@[i]).deep_view() == sql_cluster_of(
                            servers@[i],
                            first + server_demand_before(servers@, i),
                        ),
                decreases servers.len() - k,
            {
                let cluster = map_sql_server(&servers[k], rids, certs, roles);
                out.push(cluster);
                proof {
                    assert(certs.deep_view() =~= old(certs).deep_view() + sql_certs_before(
                        servers@,
                        first,
                        k + 1,
                    ));
                    assert(roles.deep_view() =~= old(roles).deep_view() + sql_roles_before(
                        servers@,
                        first,
                        k + 1,
                    ));
                }
                k += 1;
            }
            assert(out.deep_view() =~= sql_clusters_of(servers@, first));
        },
        None => {
            assert(out.deep_view() =~= Seq::<SqlClusterView>::empty());
            assert(certs.deep_view() =~= old(certs).deep_view() + Seq::<ClientCertView>::empty());
            assert(roles.deep_view() =~= old(roles).deep_view() + Seq::<SqlRoleView>::empty());
        },
    }
    out
}

} // verus!
