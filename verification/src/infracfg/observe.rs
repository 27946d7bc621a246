//! Metrics and gateways: a configured metrics destination takes one resource
//! identifier, and so does every hosted gateway.
use vstd::prelude::*;
use crate::infracfg::deploy::map_seconds;
use crate::infracfg::deploy::seconds_of;
use crate::infracfg::deploy::text_or_empty;
use crate::infracfg::map_env_string_to_secret_data;
use crate::infracfg::secret_data_of;
use crate::infracfg::Metadata;
use crate::infracfg::Metrics;
use crate::rid::rid_text;
use crate::rid::RidCounter;
use crate::runtime::AwsCloudWatch;
use crate::runtime::AwsCloudWatchView;
use crate::runtime::Cors;
use crate::runtime::CorsView;
use crate::runtime::Datadog;
use crate::runtime::DatadogView;
use crate::runtime::Gateway;
use crate::runtime::GatewayView;
use crate::runtime::GcpCloudMonitoring;
use crate::runtime::GcpCloudMonitoringView;
use crate::runtime::MetricsBackend;
use crate::runtime::MetricsBackendView;
use crate::runtime::MetricsProvider;
use crate::runtime::MetricsProviderView;
use crate::runtime::PrometheusRemoteWrite;
use crate::runtime::PrometheusRemoteWriteView;

verus! {

/// The pairs of an optional list; none when it is absent.
pub open spec fn pairs_or_empty(pairs: Option<Vec<(String, String)>>) -> Seq<(Seq<char>, Seq<char>)> {
    match pairs {
        Some(pairs) => pairs.deep_view(),
        None => Seq::empty(),
    }
}

/// How often the configured destination collects, in seconds.
pub open spec fn metrics_interval(metrics: Metrics) -> Option<i32> {
    match metrics {
        Metrics::Prometheus(m) => m.collection_interval,
        Metrics::Datadog(m) => m.collection_interval,
        Metrics::GCPCloudMonitoring(m) => m.collection_interval,
        Metrics::AWSCloudWatch(m) => m.collection_interval,
    }
}

/// The service that collects the metrics, in the descriptor.
pub open spec fn metrics_backend_of(metrics: Metrics) -> MetricsBackendView {
    match metrics {
        Metrics::Prometheus(m) => MetricsBackendView::PromRemoteWrite(
            PrometheusRemoteWriteView { remote_write_url: secret_data_of(m.remote_write_url) },
        ),
        Metrics::Datadog(m) => MetricsBackendView::Datadog(
            DatadogView { site: m.site@, api_key: secret_data_of(m.api_key) },
        ),
        Metrics::GCPCloudMonitoring(m) => MetricsBackendView::Gcp(
            GcpCloudMonitoringView {
                project_id: m.project_id@,
                monitored_resource_type: m.monitored_resource_type@,
                monitored_resource_labels: pairs_or_empty(m.monitored_resource_labels),
                metric_names: pairs_or_empty(m.metric_names),
            },
        ),
        Metrics::AWSCloudWatch(m) => MetricsBackendView::Aws(AwsCloudWatchView { namespace: m.namespace@ }),
    }
}

/// The metrics destinations of the descriptor: the configured one, with the
/// identifier numbered `first`, or none.
pub open spec fn metrics_of(metrics: Option<Metrics>, first: nat) -> Seq<MetricsProviderView> {
    match metrics {
        Some(m) => seq![
            MetricsProviderView {
                rid: rid_text(first),
                collection_interval: seconds_of(metrics_interval(m)),
                provider: metrics_backend_of(m),
            },
        ],
        None => Seq::empty(),
    }
}

/// How many identifiers the metrics take.
pub open spec fn metrics_demand(metrics: Option<Metrics>) -> nat {
    match metrics {
        Some(_) => 1,
        None => 0,
    }
}

pub fn clone_pairs_or_empty(pairs: &Option<Vec<(String, String)>>) -> (r: Vec<(String, String)>)
    ensures
        r.deep_view() == pairs_or_empty(*pairs),
{
    let mut out: Vec<(String, String)> = Vec::new();
    match pairs {
        Some(pairs) => {
            let mut i: usize = 0;
            while i < pairs.len()
                invariant
                    i <= pairs.len(),
                    out.len() == i,
                    forall|j: int| 0 <= j < i ==> (#[trigger] out@[j]).deep_view() == pairs@[j].deep_view(),
                decreases pairs.len() - i,
            {
                let pair = &pairs[i];
                out.push((pair.0.clone(), pair.1.clone()));
                i += 1;
            }
            assert(out.deep_view() =~= pairs.deep_view());
        },
        None => {
            assert(out.deep_view() =~= Seq::<(Seq<char>, Seq<char>)>::empty());
        },
    }
    out
}

/// Maps the service that collects the metrics.
pub fn map_metrics_backend(metrics: &Metrics) -> (r: MetricsBackend)
    ensures
        r.deep_view() == metrics_backend_of(*metrics),
{
    match metrics {
        Metrics::Prometheus(m) => MetricsBackend::PromRemoteWrite(
            PrometheusRemoteWrite { remote_write_url: map_env_string_to_secret_data(&m.remote_write_url) },
        ),
        Metrics::Datadog(m) => MetricsBackend::Datadog(
            Datadog { site: m.site.clone(), api_key: map_env_string_to_secret_data(&m.api_key) },
        ),
        Metrics::GCPCloudMonitoring(m) => MetricsBackend::Gcp(
            GcpCloudMonitoring {
                project_id: m.project_id.clone(),
                monitored_resource_type: m.monitored_resource_type.clone(),
                monitored_resource_labels: clone_pairs_or_empty(&m.monitored_resource_labels),
                metric_names: clone_pairs_or_empty(&m.metric_names),
            },
        ),
        Metrics::AWSCloudWatch(m) => MetricsBackend::Aws(AwsCloudWatch { namespace: m.namespace.clone() }),
    }
}

/// Maps the metrics, issuing an identifier for the destination if one
/// is configured.
pub fn map_metrics(metrics: &Option<Metrics>, rids: &mut RidCounter) -> (out: Vec<MetricsProvider>)
    requires
        old(rids).wf(),
    ensures
        final(rids).wf(),
        final(rids)@ == old(rids)@ + metrics_demand(*metrics),
        out.deep_view() == metrics_of(*metrics, old(rids)@),
{
    let ghost first = rids@;
    let mut out: Vec<MetricsProvider> = Vec::new();
    match metrics {
        Some(m) => {
            let provider = map_metrics_backend(m);
            let interval = match m {
                Metrics::Prometheus(m) => m.collection_interval,
                Metrics::Datadog(m) => m.collection_interval,
                Metrics::GCPCloudMonitoring(m) => m.collection_interval,
                Metrics::AWSCloudWatch(m) => m.collection_interval,
            };
            out.push(
                MetricsProvider { rid: rids.next(), collection_interval: map_seconds(interval), provider },
            );
            assert(out.deep_view() =~= metrics_of(Some(*m), first));
        },
        None => {
            assert(out.deep_view() =~= Seq::<MetricsProviderView>::empty());
        },
    }
    out
}

/// The address that gateways are reached at: the configured base address,
/// or none.
pub open spec fn base_url_of(metadata: Option<Metadata>) -> Seq<char> {
    match metadata {
        Some(m) => text_or_empty(m.base_url),
        None => Seq::empty(),
    }
}

/// A gateway of the descriptor, with the identifier numbered `n`.
pub open spec fn gateway_of(
    name: String,
    n: nat,
    base_url: Seq<char>,
    cors: Option<CorsView>,
) -> GatewayView {
    GatewayView { rid: rid_text(n), encore_name: name@, base_url, hostnames: Seq::empty(), cors }
}

/// The hosted gateways of the descriptor, numbered from `first` on. All are
/// reached at the same address and follow the same cross-origin rules.
pub open spec fn gateways_of(
    names: Option<Vec<String>>,
    first: nat,
    base_url: Seq<char>,
    cors: Option<CorsView>,
) -> Seq<GatewayView> {
    match names {
        Some(names) => Seq::new(
            names@.len(),
            |i: int| gateway_of(names@[i], first + i as nat, base_url, cors),
        ),
        None => Seq::empty(),
    }
}

/// The identifiers of the hosted gateways, numbered from `first` on.
pub open spec fn gateway_rids(names: Option<Vec<String>>, first: nat) -> Seq<Seq<char>> {
    match names {
        Some(names) => Seq::new(names@.len(), |i: int| rid_text(first + i as nat)),
        None => Seq::empty(),
    }
}

/// How many identifiers the hosted gateways take.
pub open spec fn gateways_demand(names: Option<Vec<String>>) -> nat {
    match names {
        Some(names) => names@.len(),
        None => 0,
    }
}

/// The address that gateways are reached at.
pub fn map_base_url(metadata: &Option<Metadata>) -> (r: String)
    ensures
        r@ == base_url_of(*metadata),
{
    match metadata {
        Some(m) => match &m.base_url {
            Some(url) => url.clone(),
            None => String::new(),
        },
        None => String::new(),
    }
}

/// Maps the hosted gateways, issuing an identifier for each. The
/// gateways come with the list of their identifiers.
pub fn map_gateways(
    names: &Option<Vec<String>>,
    base_url: &String,
    cors: &Option<Cors>,
    rids: &mut RidCounter,
) -> (out: (Vec<Gateway>, Vec<String>))
    requires
        old(rids).wf(),
    ensures
        final(rids).wf(),
        final(rids)@ == old(rids)@ + gateways_demand(*names),
        out.0.deep_view() == gateways_of(*names, old(rids)@, base_url@, cors.deep_view()),
        out.1.deep_view() == gateway_rids(*names, old(rids)@),
{
    let ghost first = rids@;
    let mut gateways: Vec<Gateway> = Vec::new();
    let mut hosted: Vec<String> = Vec::new();
    match names {
        Some(names) => {
            let mut i: usize = 0;
            while i < names.len()
                invariant
                    i <= names.len(),
                    gateways.len() == i,
                    hosted.len() == i,
                    rids.wf(),
                    rids@ == first + i,
                    forall|j: int|
                        0 <= j < i ==> (#[trigger] gateways@[j]).deep_view() == gateway_of(
                            names@[j],
                            first + j as nat,
                            base_url@,
                            cors.deep_view(),
                        ),
                    forall|j: int| 0 <= j < i ==> (#[trigger] hosted@[j])@ == rid_text(first + j as nat),
                decreases names.len() - i,
            {
                let rid = rids.next();
                hosted.push(rid.clone());
                let hostnames: Vec<String> = Vec::new();
                assert(hostnames.deep_view() =~= Seq::<Seq<char>>::empty());
                gateways.push(
                    Gateway {
                        rid,
                        encore_name: names[i].clone(),
                        base_url: base_url.clone(),
                        hostnames,
                        cors: cors.clone(),
                    },
                );
                i += 1;
            }
            assert(gateways.deep_view() =~= gateways_of(Some(*names), first, base_url@, cors.deep_view()));
            assert(hosted.deep_view() =~= gateway_rids(Some(*names), first));
        },
        None => {
            assert(gateways.deep_view() =~= Seq::<GatewayView>::empty());
            assert(hosted.deep_view() =~= Seq::<Seq<char>>::empty());
        },
    }
    (gateways, hosted)
}

} // verus!
