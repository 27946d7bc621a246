//! Publish-subscribe messaging. Every provider becomes a cluster. Resource
//! identifiers are issued in this order: for the provider's topics, for its
//! subscriptions, topic by topic, and for the cluster. Every topic delivers
//! at least once.
use vstd::prelude::*;
use crate::infracfg::AWSSub;
use crate::infracfg::AWSTopic;
use crate::infracfg::GCPSub;
use crate::infracfg::GCPTopic;
use crate::infracfg::NSQSub;
use crate::infracfg::NSQTopic;
use crate::infracfg::PubSub;
use crate::rid::rid_text;
use crate::rid::RidCounter;
use crate::runtime::DeliveryGuarantee;
use crate::runtime::NsqProvider;
use crate::runtime::NsqProviderView;
use crate::runtime::PubSubCluster;
use crate::runtime::PubSubClusterView;
use crate::runtime::PubSubProvider;
use crate::runtime::PubSubProviderView;
use crate::runtime::PubSubSubscription;
use crate::runtime::PubSubSubscriptionView;
use crate::runtime::PubSubTopic;
use crate::runtime::PubSubTopicView;
use crate::runtime::SubscriptionGcpConfig;
use crate::runtime::SubscriptionGcpConfigView;
use crate::runtime::SubscriptionProviderConfig;
use crate::runtime::SubscriptionProviderConfigView;
use crate::runtime::TopicGcpConfig;
use crate::runtime::TopicGcpConfigView;
use crate::runtime::TopicProviderConfig;
use crate::runtime::TopicProviderConfigView;

verus! {

/// A topic of Google Cloud Pub/Sub, in the descriptor, with the identifier
/// numbered `n`. A topic without a project of its own belongs to the provider's.
pub open spec fn gcp_topic_of(topic: (String, GCPTopic), project: Seq<char>, n: nat) -> PubSubTopicView {
    PubSubTopicView {
        rid: rid_text(n),
        encore_name: topic.0@,
        cloud_name: topic.1.name@,
        delivery_guarantee: DeliveryGuarantee::AtLeastOnce,
        ordering_attr: None,
        provider_config: Some(
            TopicProviderConfigView::GcpConfig(
                TopicGcpConfigView {
                    project_id: match topic.1.project_id {
                        Some(own) => own@,
                        None => project,
                    },
                },
            ),
        ),
    }
}

/// A subscription of Google Cloud Pub/Sub, in the descriptor, with the
/// identifier numbered `n`.
/// A subscription with a push configuration is push-only; one without a
/// project of its own belongs to the provider's.
pub open spec fn gcp_subscription_of(
    topic: (String, GCPTopic),
    sub: (String, GCPSub),
    project: Seq<char>,
    n: nat,
) -> PubSubSubscriptionView {
    PubSubSubscriptionView {
        rid: rid_text(n),
        topic_encore_name: topic.0@,
        subscription_encore_name: sub.0@,
        topic_cloud_name: topic.1.name@,
        subscription_cloud_name: sub.1.name@,
        push_only: sub.1.push_config is Some,
        provider_config: Some(
            SubscriptionProviderConfigView::GcpConfig(
                SubscriptionGcpConfigView {
                    project_id: match sub.1.project_id {
                        Some(own) => own@,
                        None => project,
                    },
                    push_service_account: match sub.1.push_config {
                        Some(push) => Some(push.service_account@),
                        None => None,
                    },
                    push_jwt_audience: match sub.1.push_config {
                        Some(push) => Some(push.jwt_audience@),
                        None => None,
                    },
                },
            ),
        ),
    }
}

/// The topics of Google Cloud Pub/Sub, in the configured order, numbered from
/// `first` on.
pub open spec fn gcp_topics_of(
    topics: Seq<(String, GCPTopic)>,
    project: Seq<char>,
    first: nat,
) -> Seq<PubSubTopicView> {
    Seq::new(topics.len(), |t: int| gcp_topic_of(topics[t], project, first + t as nat))
}

/// How many subscriptions the first `k` topics of Google Cloud Pub/Sub have.
pub open spec fn gcp_subscription_count(topics: Seq<(String, GCPTopic)>, k: int) -> nat
    decreases k,
{
    if k <= 0 {
        0
    } else {
        gcp_subscription_count(topics, k - 1) + topics[k - 1].1.subscriptions@.len()
    }
}

/// The subscriptions of one topic of Google Cloud Pub/Sub, in the configured
/// order, numbered from `first` on.
pub open spec fn gcp_topic_subscriptions(
    topic: (String, GCPTopic),
    project: Seq<char>,
    first: nat,
) -> Seq<PubSubSubscriptionView> {
    Seq::new(
        topic.1.subscriptions@.len(),
        |s: int| gcp_subscription_of(topic, topic.1.subscriptions@[s], project, first + s as nat),
    )
}

/// The subscriptions of the first `k` topics of Google Cloud Pub/Sub, topic by
/// topic, numbered from `first` on without a gap.
pub open spec fn gcp_subscriptions_before(
    topics: Seq<(String, GCPTopic)>,
    project: Seq<char>,
    first: nat,
    k: int,
) -> Seq<PubSubSubscriptionView>
    decreases k,
{
    if k <= 0 {
        Seq::empty()
    } else {
        gcp_subscriptions_before(topics, project, first, k - 1) + gcp_topic_subscriptions(
            topics[k - 1], project,
            first + gcp_subscription_count(topics, k - 1),
        )
    }
}

/// Maps the topics of Google Cloud Pub/Sub, issuing an identifier for each.
pub fn map_gcp_topics(topics: &Vec<(String, GCPTopic)>, project: &String, rids: &mut RidCounter) -> (out: Vec<
    PubSubTopic,
>)
    requires
        old(rids).wf(),
    ensures
        final(rids).wf(),
        final(rids)@ == old(rids)@ + topics@.len(),
        out.deep_view() == gcp_topics_of(topics@, project@, old(rids)@),
{
    let ghost first = rids@;
    let mut out: Vec<PubSubTopic> = Vec::new();
    let mut t: usize = 0;
    while t < topics.len()
        invariant
            t <= topics.len(),
            out.len() == t,
            rids.wf(),
            rids@ == first + t,
            forall|i: int|
                0 <= i < t ==> (#[trigger] out@[i]).deep_view() == gcp_topic_of(
                    topics@[i], project@,
                    first + i as nat,
                ),
        decreases topics.len() - t,
    {
        let topic = &topics[t];
        out.push(
            PubSubTopic {
                rid: rids.next(),
                encore_name: topic.0.clone(),
                cloud_name: topic.1.name.clone(),
                delivery_guarantee: DeliveryGuarantee::AtLeastOnce,
                ordering_attr: None,
                provider_config: Some(
                    TopicProviderConfig::GcpConfig(
                        TopicGcpConfig {
                            project_id: match &topic.1.project_id {
                                Some(own) => own.clone(),
                                None => project.clone(),
                            },
                        },
                    ),
                ),
            },
        );
        t += 1;
    }
    assert(out.deep_view() =~= gcp_topics_of(topics@, project@, first));
    out
}

/// Maps the subscriptions of Google Cloud Pub/Sub, topic by topic, issuing an
/// identifier for each.
pub fn map_gcp_subscriptions(
    topics: &Vec<(String, GCPTopic)>,
    project: &String,
    rids: &mut RidCounter,
) -> (out: Vec<PubSubSubscription>)
    requires
        old(rids).wf(),
    ensures
        final(rids).wf(),
        final(rids)@ == old(rids)@ + gcp_subscription_count(topics@, topics@.len() as int),
        out.deep_view() == gcp_subscriptions_before(topics@, project@, old(rids)@, topics@.len() as int),
{
    let ghost first = rids@;
    let mut out: Vec<PubSubSubscription> = Vec::new();
    let mut t: usize = 0;
    assert(out.deep_view() =~= gcp_subscriptions_before(topics@, project@, first, 0));
    while t < topics.len()
        invariant
            t <= topics.len(),
            rids.wf(),
            rids@ == first + gcp_subscription_count(topics@, t as int),
            out.deep_view() == gcp_subscriptions_before(topics@, project@, first, t as int),
        decreases topics.len() - t,
    {
        let topic = &topics[t];
        let ghost done = out.deep_view();
        let ghost start = rids@;
        let mut s: usize = 0;
        while s < topic.1.subscriptions.len()
            invariant
                s <= topic.1.subscriptions.len(),
                rids.wf(),
                rids@ == start + s,
                out.deep_view().len() == done.len() + s,
                forall|i: int| 0 <= i < done.len() ==> out.deep_view()[i] == done[i],
                forall|i: int|
                    0 <= i < s ==> out.deep_view()[done.len() + i] == gcp_subscription_of(
                        *topic,
                        topic.1.subscriptions@[i], project@,
                        start + i as nat,
                    ),
            decreases topic.1.subscriptions.len() - s,
        {
            let sub = &topic.1.subscriptions[s];
            let ghost before = out.deep_view();
            out.push(
                PubSubSubscription {
                    rid: rids.next(),
                    topic_encore_name: topic.0.clone(),
                    subscription_encore_name: sub.0.clone(),
                    topic_cloud_name: topic.1.name.clone(),
                    subscription_cloud_name: sub.1.name.clone(),
                    push_only: sub.1.push_config.is_some(),
                    provider_config: Some(
                        SubscriptionProviderConfig::GcpConfig(
                            SubscriptionGcpConfig {
                                project_id: match &sub.1.project_id {
                                    Some(own) => own.clone(),
                                    None => project.clone(),
                                },
                                push_service_account: match &sub.1.push_config {
                                    Some(push) => Some(push.service_account.clone()),
                                    None => None,
                                },
                                push_jwt_audience: match &sub.1.push_config {
                                    Some(push) => Some(push.jwt_audience.clone()),
                                    None => None,
                                },
                            },
                        ),
                    ),
                },
            );
            assert(out.deep_view() =~= before.push(
                gcp_subscription_of(*topic, *sub, project@, start + s as nat),
            ));
            s += 1;
        }
        assert(out.deep_view() =~= done + gcp_topic_subscriptions(*topic, project@, start));
        t += 1;
    }
    out
}

/// A topic of AWS SNS and SQS, in the descriptor, with the identifier
/// numbered `n`. The provider needs to know nothing more of it.
pub open spec fn aws_topic_of(topic: (String, AWSTopic), n: nat) -> PubSubTopicView {
    PubSubTopicView {
        rid: rid_text(n),
        encore_name: topic.0@,
        cloud_name: topic.1.arn@,
        delivery_guarantee: DeliveryGuarantee::AtLeastOnce,
        ordering_attr: None,
        provider_config: None,
    }
}

/// A subscription of AWS SNS and SQS, in the descriptor, with the
/// identifier numbered `n`.
/// It is never push-only, and the provider needs to know nothing more of it.
pub open spec fn aws_subscription_of(
    topic: (String, AWSTopic),
    sub: (String, AWSSub),
    n: nat,
) -> PubSubSubscriptionView {
    PubSubSubscriptionView {
        rid: rid_text(n),
        topic_encore_name: topic.0@,
        subscription_encore_name: sub.0@,
        topic_cloud_name: topic.1.arn@,
        subscription_cloud_name: sub.1.arn@,
        push_only: false,
        provider_config: None,
    }
}

/// The topics of AWS SNS and SQS, in the configured order, numbered from
/// `first` on.
pub open spec fn aws_topics_of(
    topics: Seq<(String, AWSTopic)>,
    first: nat,
) -> Seq<PubSubTopicView> {
    Seq::new(topics.len(), |t: int| aws_topic_of(topics[t], first + t as nat))
}

/// How many subscriptions the first `k` topics of AWS SNS and SQS have.
pub open spec fn aws_subscription_count(topics: Seq<(String, AWSTopic)>, k: int) -> nat
    decreases k,
{
    if k <= 0 {
        0
    } else {
        aws_subscription_count(topics, k - 1) + topics[k - 1].1.subscriptions@.len()
    }
}

/// The subscriptions of one topic of AWS SNS and SQS, in the configured
/// order, numbered from `first` on.
pub open spec fn aws_topic_subscriptions(
    topic: (String, AWSTopic),
    first: nat,
) -> Seq<PubSubSubscriptionView> {
    Seq::new(
        topic.1.subscriptions@.len(),
        |s: int| aws_subscription_of(topic, topic.1.subscriptions@[s], first + s as nat),
    )
}

/// The subscriptions of the first `k` topics of AWS SNS and SQS, topic by
/// topic, numbered from `first` on without a gap.
pub open spec fn aws_subscriptions_before(
    topics: Seq<(String, AWSTopic)>,
    first: nat,
    k: int,
) -> Seq<PubSubSubscriptionView>
    decreases k,
{
    if k <= 0 {
        Seq::empty()
    } else {
        aws_subscriptions_before(topics, first, k - 1) + aws_topic_subscriptions(
            topics[k - 1],
            first + aws_subscription_count(topics, k - 1),
        )
    }
}

/// Maps the topics of AWS SNS, issuing an identifier for each.
pub fn map_aws_topics(topics: &Vec<(String, AWSTopic)>, rids: &mut RidCounter) -> (out: Vec<
    PubSubTopic,
>)
    requires
        old(rids).wf(),
    ensures
        final(rids).wf(),
        final(rids)@ == old(rids)@ + topics@.len(),
        out.deep_view() == aws_topics_of(topics@, old(rids)@),
{
    let ghost first = rids@;
    let mut out: Vec<PubSubTopic> = Vec::new();
    let mut t: usize = 0;
    while t < topics.len()
        invariant
            t <= topics.len(),
            out.len() == t,
            rids.wf(),
            rids@ == first + t,
            forall|i: int|
                0 <= i < t ==> (#[trigger] out@[i]).deep_view() == aws_topic_of(
                    topics@[i],
                    first + i as nat,
                ),
        decreases topics.len() - t,
    {
        let topic = &topics[t];
        out.push(
            PubSubTopic {
                rid: rids.next(),
                encore_name: topic.0.clone(),
                cloud_name: topic.1.arn.clone(),
                delivery_guarantee: DeliveryGuarantee::AtLeastOnce,
                ordering_attr: None,
                provider_config: None,
            },
        );
        t += 1;
    }
    assert(out.deep_view() =~= aws_topics_of(topics@, first));
    out
}

/// Maps the subscriptions of AWS SQS, topic by topic, issuing an
/// identifier for each.
pub fn map_aws_subscriptions(
    topics: &Vec<(String, AWSTopic)>,
    rids: &mut RidCounter,
) -> (out: Vec<PubSubSubscription>)
    requires
        old(rids).wf(),
    ensures
        final(rids).wf(),
        final(rids)@ == old(rids)@ + aws_subscription_count(topics@, topics@.len() as int),
        out.deep_view() == aws_subscriptions_before(topics@, old(rids)@, topics@.len() as int),
{
    let ghost first = rids@;
    let mut out: Vec<PubSubSubscription> = Vec::new();
    let mut t: usize = 0;
    assert(out.deep_view() =~= aws_subscriptions_before(topics@, first, 0));
    while t < topics.len()
        invariant
            t <= topics.len(),
            rids.wf(),
            rids@ == first + aws_subscription_count(topics@, t as int),
            out.deep_view() == aws_subscriptions_before(topics@, first, t as int),
        decreases topics.len() - t,
    {
        let topic = &topics[t];
        let ghost done = out.deep_view();
        let ghost start = rids@;
        let mut s: usize = 0;
        while s < topic.1.subscriptions.len()
            invariant
                s <= topic.1.subscriptions.len(),
                rids.wf(),
                rids@ == start + s,
                out.deep_view().len() == done.len() + s,
                forall|i: int| 0 <= i < done.len() ==> out.deep_view()[i] == done[i],
                forall|i: int|
                    0 <= i < s ==> out.deep_view()[done.len() + i] == aws_subscription_of(
                        *topic,
                        topic.1.subscriptions@[i],
                        start + i as nat,
                    ),
            decreases topic.1.subscriptions.len() - s,
        {
            let sub = &topic.1.subscriptions[s];
            let ghost before = out.deep_view();
            out.push(
                PubSubSubscription {
                    rid: rids.next(),
                    topic_encore_name: topic.0.clone(),
                    subscription_encore_name: sub.0.clone(),
                    topic_cloud_name: topic.1.arn.clone(),
                    subscription_cloud_name: sub.1.arn.clone(),
                    push_only: false,
                    provider_config: None,
                },
            );
            assert(out.deep_view() =~= before.push(
                aws_subscription_of(*topic, *sub, start + s as nat),
            ));
            s += 1;
        }
        assert(out.deep_view() =~= done + aws_topic_subscriptions(*topic, start));
        t += 1;
    }
    out
}

/// A topic of NSQ, in the descriptor, with the identifier
/// numbered `n`. The provider needs to know nothing more of it.
pub open spec fn nsq_topic_of(topic: (String, NSQTopic), n: nat) -> PubSubTopicView {
    PubSubTopicView {
        rid: rid_text(n),
        encore_name: topic.0@,
        cloud_name: topic.1.name@,
        delivery_guarantee: DeliveryGuarantee::AtLeastOnce,
        ordering_attr: None,
        provider_config: None,
    }
}

/// A subscription of NSQ, in the descriptor, with the
/// identifier numbered `n`.
/// It is never push-only, and the provider needs to know nothing more of it.
pub open spec fn nsq_subscription_of(
    topic: (String, NSQTopic),
    sub: (String, NSQSub),
    n: nat,
) -> PubSubSubscriptionView {
    PubSubSubscriptionView {
        rid: rid_text(n),
        topic_encore_name: topic.0@,
        subscription_encore_name: sub.0@,
        topic_cloud_name: topic.1.name@,
        subscription_cloud_name: sub.1.name@,
        push_only: false,
        provider_config: None,
    }
}

/// The topics of NSQ, in the configured order, numbered from
/// `first` on.
pub open spec fn nsq_topics_of(
    topics: Seq<(String, NSQTopic)>,
    first: nat,
) -> Seq<PubSubTopicView> {
    Seq::new(topics.len(), |t: int| nsq_topic_of(topics[t], first + t as nat))
}

/// How many subscriptions the first `k` topics of NSQ have.
pub open spec fn nsq_subscription_count(topics: Seq<(String, NSQTopic)>, k: int) -> nat
    decreases k,
{
    if k <= 0 {
        0
    } else {
        nsq_subscription_count(topics, k - 1) + topics[k - 1].1.subscriptions@.len()
    }
}

/// The subscriptions of one topic of NSQ, in the configured
/// order, numbered from `first` on.
pub open spec fn nsq_topic_subscriptions(
    topic: (String, NSQTopic),
    first: nat,
) -> Seq<PubSubSubscriptionView> {
    Seq::new(
        topic.1.subscriptions@.len(),
        |s: int| nsq_subscription_of(topic, topic.1.subscriptions@[s], first + s as nat),
    )
}

/// The subscriptions of the first `k` topics of NSQ, topic by
/// topic, numbered from `first` on without a gap.
pub open spec fn nsq_subscriptions_before(
    topics: Seq<(String, NSQTopic)>,
    first: nat,
    k: int,
) -> Seq<PubSubSubscriptionView>
    decreases k,
{
    if k <= 0 {
        Seq::empty()
    } else {
        nsq_subscriptions_before(topics, first, k - 1) + nsq_topic_subscriptions(
            topics[k - 1],
            first + nsq_subscription_count(topics, k - 1),
        )
    }
}

/// Maps the topics of NSQ, issuing an identifier for each.
pub fn map_nsq_topics(topics: &Vec<(String, NSQTopic)>, rids: &mut RidCounter) -> (out: Vec<
    PubSubTopic,
>)
    requires
        old(rids).wf(),
    ensures
        final(rids).wf(),
        final(rids)@ == old(rids)@ + topics@.len(),
        out.deep_view() == nsq_topics_of(topics@, old(rids)@),
{
    let ghost first = rids@;
    let mut out: Vec<PubSubTopic> = Vec::new();
    let mut t: usize = 0;
    while t < topics.len()
        invariant
            t <= topics.len(),
            out.len() == t,
            rids.wf(),
            rids@ == first + t,
            forall|i: int|
                0 <= i < t ==> (#[trigger] out@[i]).deep_view() == nsq_topic_of(
                    topics@[i],
                    first + i as nat,
                ),
        decreases topics.len() - t,
    {
        let topic = &topics[t];
        out.push(
            PubSubTopic {
                rid: rids.next(),
                encore_name: topic.0.clone(),
                cloud_name: topic.1.name.clone(),
                delivery_guarantee: DeliveryGuarantee::AtLeastOnce,
                ordering_attr: None,
                provider_config: None,
            },
        );
        t += 1;
    }
    assert(out.deep_view() =~= nsq_topics_of(topics@, first));
    out
}

/// Maps the subscriptions of NSQ, topic by topic, issuing an
/// identifier for each.
pub fn map_nsq_subscriptions(
    topics: &Vec<(String, NSQTopic)>,
    rids: &mut RidCounter,
) -> (out: Vec<PubSubSubscription>)
    requires
        old(rids).wf(),
    ensures
        final(rids).wf(),
        final(rids)@ == old(rids)@ + nsq_subscription_count(topics@, topics@.len() as int),
        out.deep_view() == nsq_subscriptions_before(topics@, old(rids)@, topics@.len() as int),
{
    let ghost first = rids@;
    let mut out: Vec<PubSubSubscription> = Vec::new();
    let mut t: usize = 0;
    assert(out.deep_view() =~= nsq_subscriptions_before(topics@, first, 0));
    while t < topics.len()
        invariant
            t <= topics.len(),
            rids.wf(),
            rids@ == first + nsq_subscription_count(topics@, t as int),
            out.deep_view() == nsq_subscriptions_before(topics@, first, t as int),
        decreases topics.len() - t,
    {
        let topic = &topics[t];
        let ghost done = out.deep_view();
        let ghost start = rids@;
        let mut s: usize = 0;
        while s < topic.1.subscriptions.len()
            invariant
                s <= topic.1.subscriptions.len(),
                rids.wf(),
                rids@ == start + s,
                out.deep_view().len() == done.len() + s,
                forall|i: int| 0 <= i < done.len() ==> out.deep_view()[i] == done[i],
                forall|i: int|
                    0 <= i < s ==> out.deep_view()[done.len() + i] == nsq_subscription_of(
                        *topic,
                        topic.1.subscriptions@[i],
                        start + i as nat,
                    ),
            decreases topic.1.subscriptions.len() - s,
        {
            let sub = &topic.1.subscriptions[s];
            let ghost before = out.deep_view();
            out.push(
                PubSubSubscription {
                    rid: rids.next(),
                    topic_encore_name: topic.0.clone(),
                    subscription_encore_name: sub.0.clone(),
                    topic_cloud_name: topic.1.name.clone(),
                    subscription_cloud_name: sub.1.name.clone(),
                    push_only: false,
                    provider_config: None,
                },
            );
            assert(out.deep_view() =~= before.push(
                nsq_subscription_of(*topic, *sub, start + s as nat),
            ));
            s += 1;
        }
        assert(out.deep_view() =~= done + nsq_topic_subscriptions(*topic, start));
        t += 1;
    }
    out
}

/// How many topics a provider has.
pub open spec fn pubsub_topics(pubsub: PubSub) -> nat {
    match pubsub {
        PubSub::GCPPubsub(gcp) => gcp.topics@.len(),
        PubSub::AWSSnsSqs(aws) => aws.topics@.len(),
        PubSub::NSQ(nsq) => nsq.topics@.len(),
    }
}

/// How many subscriptions a provider has.
pub open spec fn pubsub_subscriptions(pubsub: PubSub) -> nat {
    match pubsub {
        PubSub::GCPPubsub(gcp) => gcp_subscription_count(gcp.topics@, gcp.topics@.len() as int),
        PubSub::AWSSnsSqs(aws) => aws_subscription_count(aws.topics@, aws.topics@.len() as int),
        PubSub::NSQ(nsq) => nsq_subscription_count(nsq.topics@, nsq.topics@.len() as int),
    }
}

/// How many identifiers a provider takes: one for each topic, one for each
/// subscription and one for the cluster.
pub open spec fn pubsub_demand(pubsub: PubSub) -> nat {
    pubsub_topics(pubsub) + pubsub_subscriptions(pubsub) + 1
}

/// How many identifiers the first `k` providers take.
pub open spec fn pubsub_demand_before(pubsubs: Seq<PubSub>, k: int) -> nat
    decreases k,
{
    if k <= 0 {
        0
    } else {
        pubsub_demand_before(pubsubs, k - 1) + pubsub_demand(pubsubs[k - 1])
    }
}

/// The cluster of one provider, whose identifiers start at number `first`:
/// the topics take the first, the subscriptions the next, the cluster the
/// last.
pub open spec fn pubsub_cluster_of(pubsub: PubSub, first: nat) -> PubSubClusterView {
    let rid = rid_text(first + pubsub_topics(pubsub) + pubsub_subscriptions(pubsub));
    match pubsub {
        PubSub::GCPPubsub(gcp) => PubSubClusterView {
            rid,
            topics: gcp_topics_of(gcp.topics@, gcp.project_id@, first),
            subscriptions: gcp_subscriptions_before(
                gcp.topics@,
                gcp.project_id@,
                first + gcp.topics@.len(),
                gcp.topics@.len() as int,
            ),
            provider: PubSubProviderView::Gcp,
        },
        PubSub::AWSSnsSqs(aws) => PubSubClusterView {
            rid,
            topics: aws_topics_of(aws.topics@, first),
            subscriptions: aws_subscriptions_before(
                aws.topics@,
                first + aws.topics@.len(),
                aws.topics@.len() as int,
            ),
            provider: PubSubProviderView::Aws,
        },
        PubSub::NSQ(nsq) => PubSubClusterView {
            rid,
            topics: nsq_topics_of(nsq.topics@, first),
            subscriptions: nsq_subscriptions_before(
                nsq.topics@,
                first + nsq.topics@.len(),
                nsq.topics@.len() as int,
            ),
            provider: PubSubProviderView::Nsq(NsqProviderView { hosts: seq![nsq.hosts@] }),
        },
    }
}

/// The clusters of all providers, in the configured order, numbered from
/// `first` on without a gap.
pub open spec fn pubsub_of(pubsubs: Option<Vec<PubSub>>, first: nat) -> Seq<PubSubClusterView> {
    match pubsubs {
        Some(pubsubs) => Seq::new(
            pubsubs@.len(),
            |k: int| pubsub_cluster_of(pubsubs@[k], first + pubsub_demand_before(pubsubs@, k)),
        ),
        None => Seq::empty(),
    }
}

/// How many identifiers the providers take.
pub open spec fn pubsub_total_demand(pubsubs: Option<Vec<PubSub>>) -> nat {
    match pubsubs {
        Some(pubsubs) => pubsub_demand_before(pubsubs@, pubsubs@.len() as int),
        None => 0,
    }
}

/// Maps one provider, issuing identifiers for its topics, its
/// subscriptions and its cluster.
pub fn map_pubsub_cluster(pubsub: &PubSub, rids: &mut RidCounter) -> (cluster: PubSubCluster)
    requires
        old(rids).wf(),
    ensures
        final(rids).wf(),
        final(rids)@ == old(rids)@ + pubsub_demand(*pubsub),
        cluster.deep_view() == pubsub_cluster_of(*pubsub, old(rids)@),
{
    match pubsub {
        PubSub::GCPPubsub(gcp) => {
            let topics = map_gcp_topics(&gcp.topics, &gcp.project_id, rids);
            let subscriptions = map_gcp_subscriptions(&gcp.topics, &gcp.project_id, rids);
            PubSubCluster { rid: rids.next(), topics, subscriptions, provider: PubSubProvider::Gcp }
        },
        PubSub::AWSSnsSqs(aws) => {
            let topics = map_aws_topics(&aws.topics, rids);
            let subscriptions = map_aws_subscriptions(&aws.topics, rids);
            PubSubCluster { rid: rids.next(), topics, subscriptions, provider: PubSubProvider::Aws }
        },
        PubSub::NSQ(nsq) => {
            let topics = map_nsq_topics(&nsq.topics, rids);
            let subscriptions = map_nsq_subscriptions(&nsq.topics, rids);
            let mut hosts: Vec<String> = Vec::new();
            hosts.push(nsq.hosts.clone());
            assert(hosts.deep_view() =~= seq![nsq.hosts@]);
            PubSubCluster {
                rid: rids.next(),
                topics,
                subscriptions,
                provider: PubSubProvider::Nsq(NsqProvider { hosts }),
            }
        },
    }
}

/// Maps the providers of publish-subscribe messaging.
pub fn map_pubsub(pubsubs: &Option<Vec<PubSub>>, rids: &mut RidCounter) -> (out: Vec<PubSubCluster>)
    requires
        old(rids).wf(),
    ensures
        final(rids).wf(),
        final(rids)@ == old(rids)@ + pubsub_total_demand(*pubsubs),
        out.deep_view() == pubsub_of(*pubsubs, old(rids)@),
{
    let ghost first = rids@;
    let mut out: Vec<PubSubCluster> = Vec::new();
    match pubsubs {
        Some(pubsubs) => {
            let mut k: usize = 0;
            while k < pubsubs.len()
                invariant
                    k <= pubsubs.len(),
                    out.len() == k,
                    rids.wf(),
                    rids@ == first + pubsub_demand_before(pubsubs@, k as int),
                    forall|i: int|
                        0 <= i < k ==> (#[trigger] out@[i]).deep_view() == pubsub_cluster_of(
                            pubsubs@[i],
                            first + pubsub_demand_before(pubsubs@, i),
                        ),
                decreases pubsubs.len() - k,
            {
                out.push(map_pubsub_cluster(&pubsubs[k], rids));
                k += 1;
            }
            assert(out.deep_view() =~= pubsub_of(Some(*pubsubs), first));
        },
        None => {
            assert(out.deep_view() =~= Seq::<PubSubClusterView>::empty());
        },
    }
    out
}

} // verus!
