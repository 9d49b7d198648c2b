//! Status masks, the sample-rejected reason, and the typed status records
//! that entities report.
use vstd::prelude::*;

verus! {

/// Inconsistent topic status bit.
pub const STATUS_INCONSISTENT_TOPIC: u32 = 1u32 << 0u32;
/// Offered deadline missed status bit (writer).
pub const STATUS_OFFERED_DEADLINE_MISSED: u32 = 1u32 << 1u32;
/// Requested deadline missed status bit (reader).
pub const STATUS_REQUESTED_DEADLINE_MISSED: u32 = 1u32 << 2u32;
/// Offered incompatible QoS status bit (writer).
pub const STATUS_OFFERED_INCOMPATIBLE_QOS: u32 = 1u32 << 3u32;
/// Requested incompatible QoS status bit (reader).
pub const STATUS_REQUESTED_INCOMPATIBLE_QOS: u32 = 1u32 << 4u32;
/// Sample lost status bit (reader).
pub const STATUS_SAMPLE_LOST: u32 = 1u32 << 5u32;
/// Sample rejected status bit (reader).
pub const STATUS_SAMPLE_REJECTED: u32 = 1u32 << 6u32;
/// Data on readers status bit (subscriber).
pub const STATUS_DATA_ON_READERS: u32 = 1u32 << 7u32;
/// Data available status bit (reader).
pub const STATUS_DATA_AVAILABLE: u32 = 1u32 << 8u32;
/// Liveliness lost status bit (writer).
pub const STATUS_LIVELINESS_LOST: u32 = 1u32 << 9u32;
/// Liveliness changed status bit (reader).
pub const STATUS_LIVELINESS_CHANGED: u32 = 1u32 << 10u32;
/// Publication matched status bit (writer).
pub const STATUS_PUBLICATION_MATCHED: u32 = 1u32 << 11u32;
/// Subscription matched status bit (reader).
pub const STATUS_SUBSCRIPTION_MATCHED: u32 = 1u32 << 12u32;

/// All status bits together.
pub const STATUS_ALL: u32 = STATUS_INCONSISTENT_TOPIC | STATUS_OFFERED_DEADLINE_MISSED
    | STATUS_REQUESTED_DEADLINE_MISSED | STATUS_OFFERED_INCOMPATIBLE_QOS
    | STATUS_REQUESTED_INCOMPATIBLE_QOS | STATUS_SAMPLE_LOST | STATUS_SAMPLE_REJECTED
    | STATUS_DATA_ON_READERS | STATUS_DATA_AVAILABLE | STATUS_LIVELINESS_LOST
    | STATUS_LIVELINESS_CHANGED | STATUS_PUBLICATION_MATCHED | STATUS_SUBSCRIPTION_MATCHED;

/// Reason a sample was rejected by a DataReader.
#[derive(Debug, Clone, Copy, PartialEq, Eq)]
pub enum SampleRejectedReason {
    /// The sample was not rejected.
    NotRejected,
    /// Rejected because the instances resource limit was reached.
    RejectedByInstancesLimit,
    /// Rejected because the samples resource limit was reached.
    RejectedBySamplesLimit,
    /// Rejected because the samples-per-instance resource limit was reached.
    RejectedBySamplesPerInstanceLimit,
    /// A reason code that this library does not know.
    Unknown(u32),
}

/// The reason that a raw rejection code stands for.
pub open spec fn rejected_reason_of(code: u32) -> SampleRejectedReason {
    if code == 0 {
        SampleRejectedReason::NotRejected
    } else if code == 1 {
        SampleRejectedReason::RejectedByInstancesLimit
    } else if code == 2 {
        SampleRejectedReason::RejectedBySamplesLimit
    } else if code == 3 {
        SampleRejectedReason::RejectedBySamplesPerInstanceLimit
    } else {
        SampleRejectedReason::Unknown(code)
    }
}

impl From<u32> for SampleRejectedReason {
    fn from(code: u32) -> (r: SampleRejectedReason) {
        if code == 0 {
            SampleRejectedReason::NotRejected
        } else if code == 1 {
            SampleRejectedReason::RejectedByInstancesLimit
        } else if code == 2 {
            SampleRejectedReason::RejectedBySamplesLimit
        } else if code == 3 {
            SampleRejectedReason::RejectedBySamplesPerInstanceLimit
        } else {
            SampleRejectedReason::Unknown(code)
        }
    }
}

impl vstd::std_specs::convert::FromSpecImpl<u32> for SampleRejectedReason {
    open spec fn obeys_from_spec() -> bool {
        true
    }

    open spec fn from_spec(code: u32) -> SampleRejectedReason {
        rejected_reason_of(code)
    }
}

/// Status for an inconsistent topic.
#[derive(Debug, Clone)]
pub struct InconsistentTopicStatus {
    /// Total cumulative count of inconsistent topics.
    pub total_count: u32,
    /// Change in count since the last time the status was read.
    pub total_count_change: i32,
}

/// Status for liveliness lost by a DataWriter.
#[derive(Debug, Clone)]
pub struct LivelinessLostStatus {
    /// Total cumulative count of liveliness lost events.
    pub total_count: u32,
    /// Change in count since the last time the status was read.
    pub total_count_change: i32,
}

/// Status for liveliness changes detected by a DataReader.
#[derive(Debug, Clone)]
pub struct LivelinessChangedStatus {
    /// Number of currently-alive data-writers.
    pub alive_count: u32,
    /// Number of currently-not-alive data-writers.
    pub not_alive_count: u32,
    /// Change in alive count since last read.
    pub alive_count_change: i32,
    /// Change in not-alive count since last read.
    pub not_alive_count_change: i32,
    /// Instance handle of the last data-writer whose liveliness changed.
    pub last_publication_handle: u64,
}

/// Status for an offered deadline missed by a DataWriter.
#[derive(Debug, Clone)]
pub struct OfferedDeadlineMissedStatus {
    /// Total cumulative count of missed deadlines.
    pub total_count: u32,
    /// Change in count since last read.
    pub total_count_change: i32,
    /// Instance handle of the last instance for which the deadline was missed.
    pub last_instance_handle: u64,
}

/// Status for an offered incompatible QoS by a DataWriter.
#[derive(Debug, Clone)]
pub struct OfferedIncompatibleQosStatus {
    /// Total cumulative count of incompatible QoS events.
    pub total_count: u32,
    /// Change in count since last read.
    pub total_count_change: i32,
    /// Policy ID of the last policy that was found to be incompatible.
    pub last_policy_id: u32,
}

/// Status for a requested deadline missed by a DataReader.
#[derive(Debug, Clone)]
pub struct RequestedDeadlineMissedStatus {
    /// Total cumulative count of missed deadlines.
    pub total_count: u32,
    /// Change in count since last read.
    pub total_count_change: i32,
    /// Instance handle of the last instance for which the deadline was missed.
    pub last_instance_handle: u64,
}

/// Status for a requested incompatible QoS by a DataReader.
#[derive(Debug, Clone)]
pub struct RequestedIncompatibleQosStatus {
    /// Total cumulative count of incompatible QoS events.
    pub total_count: u32,
    /// Change in count since last read.
    pub total_count_change: i32,
    /// Policy ID of the last policy that was found to be incompatible.
    pub last_policy_id: u32,
}

/// Status for samples lost by a DataReader.
#[derive(Debug, Clone)]
pub struct SampleLostStatus {
    /// Total cumulative count of lost samples.
    pub total_count: u32,
    /// Change in count since last read.
    pub total_count_change: i32,
}

/// Status for samples rejected by a DataReader.
#[derive(Debug, Clone)]
pub struct SampleRejectedStatus {
    /// Total cumulative count of rejected samples.
    pub total_count: u32,
    /// Change in count since last read.
    pub total_count_change: i32,
    /// Reason the last sample was rejected.
    pub last_reason: SampleRejectedReason,
    /// Instance handle of the last rejected sample.
    pub last_instance_handle: u64,
}

impl SampleRejectedStatus {
    /// Builds the record from the raw counters, decoding the reason code.
    pub fn from_raw(
        total_count: u32,
        total_count_change: i32,
        last_reason: u32,
        last_instance_handle: u64,
    ) -> (r: SampleRejectedStatus)
        ensures
            r.total_count == total_count,
            r.total_count_change == total_count_change,
            r.last_reason == rejected_reason_of(last_reason),
            r.last_instance_handle == last_instance_handle,
    {
        SampleRejectedStatus {
            total_count,
            total_count_change,
            last_reason: SampleRejectedReason::from(last_reason),
            last_instance_handle,
        }
    }
}

/// Status for publication matched (writer found a compatible reader).
#[derive(Debug, Clone)]
pub struct PublicationMatchedStatus {
    /// Total cumulative count of matched subscriptions.
    pub total_count: u32,
    /// Change in count since last read.
    pub total_count_change: i32,
    /// Current number of matched subscriptions.
    pub current_count: u32,
    /// Change in current count since last read.
    pub current_count_change: i32,
    /// Instance handle of the last matched subscription.
    pub last_subscription_handle: u64,
}

/// Status for subscription matched (reader found a compatible writer).
#[derive(Debug, Clone)]
pub struct SubscriptionMatchedStatus {
    /// Total cumulative count of matched publications.
    pub total_count: u32,
    /// Change in count since last read.
    pub total_count_change: i32,
    /// Current number of matched publications.
    pub current_count: u32,
    /// Change in current count since last read.
    pub current_count_change: i32,
    /// Instance handle of the last matched publication.
    pub last_publication_handle: u64,
}

/// Every status an entity can report, each present when the entity kind
/// reports it.
#[derive(Debug, Clone)]
pub struct EntityStatus {
    pub inconsistent_topic: Option<InconsistentTopicStatus>,
    pub liveliness_lost: Option<LivelinessLostStatus>,
    pub liveliness_changed: Option<LivelinessChangedStatus>,
    pub offered_deadline_missed: Option<OfferedDeadlineMissedStatus>,
    pub offered_incompatible_qos: Option<OfferedIncompatibleQosStatus>,
    pub requested_deadline_missed: Option<RequestedDeadlineMissedStatus>,
    pub requested_incompatible_qos: Option<RequestedIncompatibleQosStatus>,
    pub sample_lost: Option<SampleLostStatus>,
    pub sample_rejected: Option<SampleRejectedStatus>,
    pub publication_matched: Option<PublicationMatchedStatus>,
    pub subscription_matched: Option<SubscriptionMatchedStatus>,
}

impl Default for EntityStatus {
    fn default() -> (r: EntityStatus)
        ensures
            r.inconsistent_topic is None,
            r.liveliness_lost is None,
            r.liveliness_changed is None,
            r.offered_deadline_missed is None,
            r.offered_incompatible_qos is None,
            r.requested_deadline_missed is None,
            r.requested_incompatible_qos is None,
            r.sample_lost is None,
            r.sample_rejected is None,
            r.publication_matched is None,
            r.subscription_matched is None,
    {
        EntityStatus {
            inconsistent_topic: None,
            liveliness_lost: None,
            liveliness_changed: None,
            offered_deadline_missed: None,
            offered_incompatible_qos: None,
            requested_deadline_missed: None,
            requested_incompatible_qos: None,
            sample_lost: None,
            sample_rejected: None,
            publication_matched: None,
            subscription_matched: None,
        }
    }
}

} // verus!
