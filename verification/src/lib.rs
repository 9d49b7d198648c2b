//! CycloneDDS data-side logic: dynamic types and values, assignability,
//! topic op streams, QoS and security settings, sequences and error codes.
use vstd::prelude::*;

pub mod assignability;
pub mod bigint;
pub mod content_filter;
pub mod defaults;
pub mod dynamic_builder;
pub mod dynamic_data;
pub mod dynamic_type;
pub mod dynamic_value;
pub mod entity_text;
pub mod error;
pub mod log;
pub mod native_layout;
pub mod no_std_types;
pub mod participant_pool;
pub mod qos;
pub mod qos_provider;
pub mod request_reply;
pub mod sample;
pub mod security;
pub mod serde_sample;
pub mod serialization;
pub mod status;
pub mod sequence;
pub mod text;
pub mod topic;
pub mod type_discovery;
pub mod value_ops;
pub mod wasm;
pub mod wasm_connect;

pub use dynamic_data::DynamicData;
pub use dynamic_type::{
    DynamicEnumLiteralValue, DynamicPrimitiveKind, DynamicTypeAutoId, DynamicTypeExtensibility,
};
pub use dynamic_value::{
    DynamicBitmaskFieldSchema, DynamicEnumLiteralSchema, DynamicFieldSchema, DynamicTypeSchema,
    DynamicUnionCaseSchema, DynamicValue,
};
pub use error::{err_file_id, err_line, err_nr, DdsError, DdsResult};
pub use participant_pool::{DiscoveredParticipant, DiscoveredTopic};
pub use qos::{
    DataRepresentation, DestinationOrder, Durability, DurabilityServicePolicy, History,
    IgnoreLocalKind, Liveliness, Ownership, PresentationAccessScope, PresentationPolicy,
    QosBuilder, ReaderDataLifecyclePolicy, Reliability, TypeConsistency, TypeConsistencyPolicy,
};
pub use qos_provider::QosKind;
pub use request_reply::RequestReply;
pub use sample::{Sample, SampleInfo};
pub use security::SecurityConfig;
pub use status::{
    EntityStatus, InconsistentTopicStatus, LivelinessChangedStatus, LivelinessLostStatus,
    OfferedDeadlineMissedStatus, OfferedIncompatibleQosStatus, PublicationMatchedStatus,
    RequestedDeadlineMissedStatus, RequestedIncompatibleQosStatus, SampleLostStatus,
    SampleRejectedReason, SampleRejectedStatus, SubscriptionMatchedStatus, STATUS_ALL,
    STATUS_DATA_AVAILABLE, STATUS_DATA_ON_READERS, STATUS_INCONSISTENT_TOPIC,
    STATUS_LIVELINESS_CHANGED, STATUS_LIVELINESS_LOST, STATUS_OFFERED_DEADLINE_MISSED,
    STATUS_OFFERED_INCOMPATIBLE_QOS, STATUS_PUBLICATION_MATCHED, STATUS_REQUESTED_DEADLINE_MISSED,
    STATUS_REQUESTED_INCOMPATIBLE_QOS, STATUS_SAMPLE_LOST, STATUS_SAMPLE_REJECTED,
    STATUS_SUBSCRIPTION_MATCHED,
};
pub use sequence::{DdsBoundedSequence, DdsSequence, DdsSequenceElement};
pub use serde_sample::{SerdeSample, SerdeTypeName};
pub use serialization::CdrEncoding;
pub use topic::{
    adr, adr_bst, adr_key, rebase_ops, DdsEnumType, DdsType, DdsUnionType, DiscriminantType,
    KeyDescriptor, DDS_OP_MASK_CONST, DDS_OP_SUBTYPE_MASK_CONST, DDS_OP_TYPE_MASK_CONST, OP_ADR,
    OP_DLC, OP_FLAG_DEF, OP_FLAG_EXT, OP_FLAG_FP, OP_FLAG_KEY, OP_FLAG_MU, OP_FLAG_OPT,
    OP_FLAG_SGN, OP_FLAG_SZ_SHIFT, OP_JEQ4, OP_KOF, OP_MID, OP_RTS, SUBTYPE_1BY, SUBTYPE_2BY,
    SUBTYPE_4BY, SUBTYPE_8BY, SUBTYPE_BSQ, SUBTYPE_BST, SUBTYPE_ENU, SUBTYPE_SEQ, SUBTYPE_STR,
    SUBTYPE_STU, TYPE_1BY, TYPE_2BY, TYPE_4BY, TYPE_8BY, TYPE_ARR, TYPE_BSQ, TYPE_BST, TYPE_ENU,
    TYPE_EXT, TYPE_SEQ, TYPE_STR, TYPE_UNI,
};

verus! {

} // verus!
