//! Object storage: every provider becomes a cluster, which takes one
//! resource identifier, followed by one for each of its buckets.
use vstd::prelude::*;
use crate::infracfg::map_env_string_to_secret_data;
use crate::infracfg::secret_data_of;
use crate::infracfg::Bucket;
use crate::infracfg::EnvString;
use crate::infracfg::ObjectStorage;
use crate::rid::rid_text;
use crate::rid::RidCounter;
use crate::runtime;
use crate::runtime::BucketCluster;
use crate::runtime::BucketClusterView;
use crate::runtime::BucketProvider;
use crate::runtime::BucketProviderView;
use crate::runtime::BucketView;
use crate::runtime::GcsProvider;
use crate::runtime::GcsProviderView;
use crate::runtime::S3Provider;
use crate::runtime::S3ProviderView;
use crate::runtime::SecretData;
use crate::runtime::SecretDataView;

verus! {

/// A bucket of the descriptor, with the identifier numbered `n`.
pub open spec fn bucket_of(entry: (String, Bucket), n: nat) -> BucketView {
    BucketView {
        rid: rid_text(n),
        encore_name: entry.0@,
        cloud_name: entry.1.name@,
        key_prefix: entry.1.key_prefix.deep_view(),
        public_base_url: entry.1.public_base_url.deep_view(),
    }
}

/// The buckets of one provider, numbered from `first` on.
pub open spec fn buckets_of(entries: Seq<(String, Bucket)>, first: nat) -> Seq<BucketView> {
    Seq::new(entries.len(), |i: int| bucket_of(entries[i], first + i as nat))
}

/// The buckets that a provider is configured with.
pub open spec fn storage_buckets(storage: ObjectStorage) -> Seq<(String, Bucket)> {
    match storage {
        ObjectStorage::GCS(gcs) => gcs.buckets@,
        ObjectStorage::S3(s3) => s3.buckets@,
    }
}

/// How many identifiers a provider takes: one for the cluster and one for
/// each bucket.
pub open spec fn storage_demand(storage: ObjectStorage) -> nat {
    1 + storage_buckets(storage).len()
}

/// How many identifiers the first `k` providers take.
pub open spec fn storage_demand_before(storages: Seq<ObjectStorage>, k: int) -> nat
    decreases k,
{
    if k <= 0 {
        0
    } else {
        storage_demand_before(storages, k - 1) + storage_demand(storages[k - 1])
    }
}

/// An optional secret of the descriptor.
pub open spec fn optional_secret_of(s: Option<EnvString>) -> Option<SecretDataView> {
    match s {
        Some(s) => Some(secret_data_of(s)),
        None => None,
    }
}

/// The provider of the descriptor. Requests to Google Cloud Storage are
/// never anonymous.
pub open spec fn bucket_provider_of(storage: ObjectStorage) -> BucketProviderView {
    match storage {
        ObjectStorage::GCS(gcs) => BucketProviderView::Gcs(
            GcsProviderView { endpoint: gcs.endpoint.deep_view(), anonymous: false },
        ),
        ObjectStorage::S3(s3) => BucketProviderView::S3(
            S3ProviderView {
                region: s3.region@,
                endpoint: s3.endpoint.deep_view(),
                access_key_id: s3.access_key_id.deep_view(),
                secret_access_key: optional_secret_of(s3.secret_access_key),
            },
        ),
    }
}

/// The cluster of one provider: it takes the identifier numbered `first`,
/// its buckets the ones that follow.
pub open spec fn bucket_cluster_of(storage: ObjectStorage, first: nat) -> BucketClusterView {
    BucketClusterView {
        rid: rid_text(first),
        provider: bucket_provider_of(storage),
        buckets: buckets_of(storage_buckets(storage), first + 1),
    }
}

/// The clusters of all providers, in the configured order, numbered from
/// `first` on without a gap.
pub open spec fn bucket_clusters_of(storages: Seq<ObjectStorage>, first: nat) -> Seq<BucketClusterView> {
    Seq::new(
        storages.len(),
        |k: int| bucket_cluster_of(storages[k], first + storage_demand_before(storages, k)),
    )
}

/// The clusters of an optional list of providers.
pub open spec fn object_storage_of(
    storages: Option<Vec<ObjectStorage>>,
    first: nat,
) -> Seq<BucketClusterView> {
    match storages {
        Some(storages) => bucket_clusters_of(storages@, first),
        None => Seq::empty(),
    }
}

/// How many identifiers an optional list of providers takes.
pub open spec fn object_storage_demand(storages: Option<Vec<ObjectStorage>>) -> nat {
    match storages {
        Some(storages) => storage_demand_before(storages@, storages@.len() as int),
        None => 0,
    }
}

/// Maps an optional string to an optional secret.
pub fn map_optional_secret(s: &Option<EnvString>) -> (r: Option<SecretData>)
    ensures
        r.deep_view() == optional_secret_of(*s),
{
    match s {
        Some(s) => Some(map_env_string_to_secret_data(s)),
        None => None,
    }
}

/// Maps the buckets of one provider, issuing an identifier for each.
pub fn map_buckets(entries: &Vec<(String, Bucket)>, rids: &mut RidCounter) -> (out: Vec<runtime::Bucket>)
    requires
        old(rids).wf(),
    ensures
        final(rids).wf(),
        final(rids)@ == old(rids)@ + entries@.len(),
        out.deep_view() == buckets_of(entries@, old(rids)@),
{
    let ghost first = rids@;
    let mut out: Vec<runtime::Bucket> = Vec::new();
    let mut i: usize = 0;
    while i < entries.len()
        invariant
            i <= entries.len(),
            out.len() == i,
            rids.wf(),
            rids@ == first + i,
            forall|j: int|
                0 <= j < i ==> (#[trigger] out@[j]).deep_view() == bucket_of(entries@[j], first + j as nat),
        decreases entries.len() - i,
    {
        let entry = &entries[i];
        out.push(
            runtime::Bucket {
                encore_name: entry.0.clone(),
                cloud_name: entry.1.name.clone(),
                key_prefix: entry.1.key_prefix.clone(),
                public_base_url: entry.1.public_base_url.clone(),
                rid: rids.next(),
            },
        );
        i += 1;
    }
    assert(out.deep_view() =~= buckets_of(entries@, first));
    out
}

/// Maps one provider, issuing an identifier for its cluster and then
/// for each bucket.
pub fn map_bucket_cluster(storage: &ObjectStorage, rids: &mut RidCounter) -> (cluster: BucketCluster)
    requires
        old(rids).wf(),
    ensures
        final(rids).wf(),
        final(rids)@ == old(rids)@ + storage_demand(*storage),
        cluster.deep_view() == bucket_cluster_of(*storage, old(rids)@),
{
    let rid = rids.next();
    match storage {
        ObjectStorage::GCS(gcs) => BucketCluster {
            rid,
            provider: BucketProvider::Gcs(
                GcsProvider { endpoint: gcs.endpoint.clone(), anonymous: false },
            ),
            buckets: map_buckets(&gcs.buckets, rids),
        },
        ObjectStorage::S3(s3) => BucketCluster {
            rid,
            provider: BucketProvider::S3(
                S3Provider {
                    region: s3.region.clone(),
                    endpoint: s3.endpoint.clone(),
                    access_key_id: s3.access_key_id.clone(),
                    secret_access_key: map_optional_secret(&s3.secret_access_key),
                },
            ),
            buckets: map_buckets(&s3.buckets, rids),
        },
    }
}

/// Maps the providers of object storage.
pub fn map_object_storage(storages: &Option<Vec<ObjectStorage>>, rids: &mut RidCounter) -> (out: Vec<
    BucketCluster,
>)
    requires
        old(rids).wf(),
    ensures
        final(rids).wf(),
        final(rids)@ == old(rids)@ + object_storage_demand(*storages),
        out.deep_view() == object_storage_of(*storages, old(rids)@),
{
    let ghost first = rids@;
    let mut out: Vec<BucketCluster> = Vec::new();
    match storages {
        Some(storages) => {
            let mut k: usize = 0;
            while k < storages.len()
                invariant
                    k <= storages.len(),
                    out.len() == k,
                    rids.wf(),
                    rids@ == first + storage_demand_before(storages@, k as int),
                    forall|j: int|
                        0 <= j < k ==> (#[trigger] out@[j]).deep_view() == bucket_cluster_of(
                            storages@[j],
                            first + storage_demand_before(storages@, j),
                        ),
                decreases storages.len() - k,
            {
                out.push(map_bucket_cluster(&storages[k], rids));
                k += 1;
            }
            assert(out.deep_view() =~= bucket_clusters_of(storages@, first));
        },
        None => {
            assert(out.deep_view() =~= Seq::<BucketClusterView>::empty());
        },
    }
    out
}

} // verus!
