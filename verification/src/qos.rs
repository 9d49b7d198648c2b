//! QoS policies and the builder that collects them before a native QoS
//! object is made from them.
use vstd::prelude::*;

verus! {

#[derive(Debug, Clone, Copy, PartialEq, Eq, Structural)]
pub enum Durability {
    Volatile,
    TransientLocal,
    Transient,
    Persistent,
}

#[derive(Debug, Clone, Copy, PartialEq, Eq, Structural)]
pub enum Reliability {
    BestEffort,
    Reliable,
}

#[derive(Debug, Clone, Copy, PartialEq, Eq, Structural)]
pub enum History {
    KeepLast(i32),
    KeepAll,
}

#[derive(Debug, Clone, Copy, PartialEq, Eq, Structural)]
pub enum Ownership {
    Shared,
    Exclusive,
}

#[derive(Debug, Clone, Copy, PartialEq, Eq, Structural)]
pub enum Liveliness {
    Automatic,
    ManualByParticipant,
    ManualByTopic,
}

#[derive(Debug, Clone, Copy, PartialEq, Eq, Structural)]
pub enum DestinationOrder {
    ByReceptionTimestamp,
    BySourceTimestamp,
}

#[derive(Debug, Clone, Copy, PartialEq, Eq, Structural)]
pub enum PresentationAccessScope {
    Instance,
    Topic,
    Group,
}

#[derive(Debug, Clone, Copy, PartialEq, Eq, Structural)]
pub enum IgnoreLocalKind {
    NoIgnore,
    Participant,
    Process,
}

#[derive(Debug, Clone, Copy, PartialEq, Eq, Structural)]
pub struct PresentationPolicy {
    pub access_scope: PresentationAccessScope,
    pub coherent_access: bool,
    pub ordered_access: bool,
}

#[derive(Debug, Clone, Copy, PartialEq, Eq, Structural)]
pub struct DurabilityServicePolicy {
    pub history: History,
    pub max_samples: i32,
    pub max_instances: i32,
    pub max_samples_per_instance: i32,
    pub service_cleanup_delay: i64,
}

#[derive(Debug, Clone, Copy, PartialEq, Eq, Structural)]
pub struct ReaderDataLifecyclePolicy {
    pub autopurge_nowriter_delay: i64,
    pub autopurge_disposed_delay: i64,
}

#[derive(Debug, Clone, Copy, PartialEq, Eq, Structural)]
pub enum TypeConsistency {
    DisallowTypeCoercion,
    AllowTypeCoercion,
}

#[derive(Debug, Clone, Copy, PartialEq, Eq, Structural)]
pub struct TypeConsistencyPolicy {
    pub kind: TypeConsistency,
    pub ignore_sequence_bounds: bool,
    pub ignore_string_bounds: bool,
    pub ignore_member_names: bool,
    pub prevent_type_widening: bool,
    pub force_type_validation: bool,
}

#[derive(Debug, Clone, Copy, PartialEq, Eq, Structural)]
pub enum DataRepresentation {
    Xcdr1,
    Xml,
    Xcdr2,
}

#[derive(Debug, Clone, Copy, PartialEq, Eq, Structural)]
pub struct ResourceLimitsPolicy {
    pub max_samples: i32,
    pub max_instances: i32,
    pub max_samples_per_instance: i32,
}

#[derive(Debug, Clone, Copy, PartialEq, Eq, Structural)]
pub struct TimeBasedFilterPolicy {
    pub minimum_separation: i64,
}

/// The QoS settings chosen so far. Each setting is `None` until it is set;
/// properties are kept in the order they were added, as
/// `(name, value, propagate)`.
pub struct QosBuilder {
    pub reliability: Option<(Reliability, i64)>,
    pub durability: Option<Durability>,
    pub history: Option<History>,
    pub deadline: Option<i64>,
    pub lifespan: Option<i64>,
    pub latency_budget: Option<i64>,
    pub ownership: Option<Ownership>,
    pub ownership_strength: Option<i32>,
    pub liveliness: Option<(Liveliness, i64)>,
    pub destination_order: Option<DestinationOrder>,
    pub writer_data_lifecycle: Option<bool>,
    pub transport_priority: Option<i32>,
    pub partition: Option<String>,
    pub entity_name: Option<String>,
    pub userdata: Option<Vec<u8>>,
    pub topicdata: Option<Vec<u8>>,
    pub groupdata: Option<Vec<u8>>,
    pub presentation: Option<(PresentationAccessScope, bool, bool)>,
    pub durability_service: Option<(History, i32, i32, i32)>,
    pub ignore_local: Option<IgnoreLocalKind>,
    pub writer_batching: Option<bool>,
    pub reader_data_lifecycle: Option<(i64, i64)>,
    pub type_consistency: Option<TypeConsistencyPolicy>,
    pub data_representation: Option<Vec<DataRepresentation>>,
    pub resource_limits: Option<ResourceLimitsPolicy>,
    pub time_based_filter: Option<TimeBasedFilterPolicy>,
    pub psmx_instances: Option<Vec<String>>,
    pub properties: Vec<(String, String, bool)>,
    pub binary_properties: Vec<(String, Vec<u8>, bool)>,
}

/// The names and flags of a property list, with names and values as text.
pub open spec fn properties_model(ps: Seq<(String, String, bool)>) -> Seq<(Seq<char>, Seq<char>, bool)> {
    ps.map_values(|p: (String, String, bool)| (p.0@, p.1@, p.2))
}

/// The names, bytes and flags of a binary property list.
pub open spec fn binary_properties_model(ps: Seq<(String, Vec<u8>, bool)>) -> Seq<(Seq<char>, Seq<u8>, bool)> {
    ps.map_values(|p: (String, Vec<u8>, bool)| (p.0@, p.1@, p.2))
}

impl QosBuilder {
    /// A builder with no setting chosen and no properties.
    pub fn new() -> (r: Self)
        ensures
            r.reliability is None && r.durability is None && r.history is None,
            r.deadline is None && r.lifespan is None && r.latency_budget is None,
            r.ownership is None && r.ownership_strength is None && r.liveliness is None,
            r.destination_order is None && r.writer_data_lifecycle is None,
            r.transport_priority is None && r.partition is None && r.entity_name is None,
            r.userdata is None && r.topicdata is None && r.groupdata is None,
            r.presentation is None && r.durability_service is None && r.ignore_local is None,
            r.writer_batching is None && r.reader_data_lifecycle is None,
            r.type_consistency is None && r.data_representation is None,
            r.resource_limits is None && r.time_based_filter is None && r.psmx_instances is None,
            r.properties@.len() == 0 && r.binary_properties@.len() == 0,
    {
        QosBuilder {
            reliability: None,
            durability: None,
            history: None,
            deadline: None,
            lifespan: None,
            latency_budget: None,
            ownership: None,
            ownership_strength: None,
            liveliness: None,
            destination_order: None,
            writer_data_lifecycle: None,
            transport_priority: None,
            partition: None,
            entity_name: None,
            userdata: None,
            topicdata: None,
            groupdata: None,
            presentation: None,
            durability_service: None,
            ignore_local: None,
            writer_batching: None,
            reader_data_lifecycle: None,
            type_consistency: None,
            data_representation: None,
            resource_limits: None,
            time_based_filter: None,
            psmx_instances: None,
            properties: Vec::new(),
            binary_properties: Vec::new(),
        }
    }

    pub fn reliability(self, kind: Reliability, max_blocking_time: i64) -> (r: Self)
        ensures
            r == (QosBuilder { reliability: Some((kind, max_blocking_time)), ..self }),
    {
        QosBuilder { reliability: Some((kind, max_blocking_time)), ..self }
    }

    pub fn durability(self, kind: Durability) -> (r: Self)
        ensures
            r == (QosBuilder { durability: Some(kind), ..self }),
    {
        QosBuilder { durability: Some(kind), ..self }
    }

    pub fn history(self, kind: History) -> (r: Self)
        ensures
            r == (QosBuilder { history: Some(kind), ..self }),
    {
        QosBuilder { history: Some(kind), ..self }
    }

    pub fn deadline(self, deadline: i64) -> (r: Self)
        ensures
            r == (QosBuilder { deadline: Some(deadline), ..self }),
    {
        QosBuilder { deadline: Some(deadline), ..self }
    }

    pub fn lifespan(self, lifespan: i64) -> (r: Self)
        ensures
            r == (QosBuilder { lifespan: Some(lifespan), ..self }),
    {
        QosBuilder { lifespan: Some(lifespan), ..self }
    }

    pub fn latency_budget(self, duration: i64) -> (r: Self)
        ensures
            r == (QosBuilder { latency_budget: Some(duration), ..self }),
    {
        QosBuilder { latency_budget: Some(duration), ..self }
    }

    pub fn ownership(self, kind: Ownership) -> (r: Self)
        ensures
            r == (QosBuilder { ownership: Some(kind), ..self }),
    {
        QosBuilder { ownership: Some(kind), ..self }
    }

    pub fn ownership_strength(self, value: i32) -> (r: Self)
        ensures
            r == (QosBuilder { ownership_strength: Some(value), ..self }),
    {
        QosBuilder { ownership_strength: Some(value), ..self }
    }

    pub fn liveliness(self, kind: Liveliness, lease_duration: i64) -> (r: Self)
        ensures
            r == (QosBuilder { liveliness: Some((kind, lease_duration)), ..self }),
    {
        QosBuilder { liveliness: Some((kind, lease_duration)), ..self }
    }

    pub fn destination_order(self, kind: DestinationOrder) -> (r: Self)
        ensures
            r == (QosBuilder { destination_order: Some(kind), ..self }),
    {
        QosBuilder { destination_order: Some(kind), ..self }
    }

    pub fn writer_data_lifecycle(self, autodispose: bool) -> (r: Self)
        ensures
            r == (QosBuilder { writer_data_lifecycle: Some(autodispose), ..self }),
    {
        QosBuilder { writer_data_lifecycle: Some(autodispose), ..self }
    }

    pub fn transport_priority(self, value: i32) -> (r: Self)
        ensures
            r == (QosBuilder { transport_priority: Some(value), ..self }),
    {
        QosBuilder { transport_priority: Some(value), ..self }
    }

    pub fn userdata(self, data: Vec<u8>) -> (r: Self)
        ensures
            r == (QosBuilder { userdata: Some(data), ..self }),
    {
        QosBuilder { userdata: Some(data), ..self }
    }

    pub fn topicdata(self, data: Vec<u8>) -> (r: Self)
        ensures
            r == (QosBuilder { topicdata: Some(data), ..self }),
    {
        QosBuilder { topicdata: Some(data), ..self }
    }

    pub fn groupdata(self, data: Vec<u8>) -> (r: Self)
        ensures
            r == (QosBuilder { groupdata: Some(data), ..self }),
    {
        QosBuilder { groupdata: Some(data), ..self }
    }

    pub fn presentation(self, access_scope: PresentationAccessScope, coherent_access: bool, ordered_access: bool) -> (r: Self)
        ensures
            r == (QosBuilder { presentation: Some((access_scope, coherent_access, ordered_access)), ..self }),
    {
        QosBuilder { presentation: Some((access_scope, coherent_access, ordered_access)), ..self }
    }

    pub fn durability_service(self, history: History, max_samples: i32, max_instances: i32, max_samples_per_instance: i32) -> (r: Self)
        ensures
            r == (QosBuilder { durability_service: Some((history, max_samples, max_instances, max_samples_per_instance)), ..self }),
    {
        QosBuilder { durability_service: Some((history, max_samples, max_instances, max_samples_per_instance)), ..self }
    }

    pub fn ignore_local(self, kind: IgnoreLocalKind) -> (r: Self)
        ensures
            r == (QosBuilder { ignore_local: Some(kind), ..self }),
    {
        QosBuilder { ignore_local: Some(kind), ..self }
    }

    pub fn writer_batching(self, enabled: bool) -> (r: Self)
        ensures
            r == (QosBuilder { writer_batching: Some(enabled), ..self }),
    {
        QosBuilder { writer_batching: Some(enabled), ..self }
    }

    pub fn reader_data_lifecycle(self, autopurge_nowriter_delay: i64, autopurge_disposed_delay: i64) -> (r: Self)
        ensures
            r == (QosBuilder { reader_data_lifecycle: Some((autopurge_nowriter_delay, autopurge_disposed_delay)), ..self }),
    {
        QosBuilder { reader_data_lifecycle: Some((autopurge_nowriter_delay, autopurge_disposed_delay)), ..self }
    }

    pub fn type_consistency(self, policy: TypeConsistencyPolicy) -> (r: Self)
        ensures
            r == (QosBuilder { type_consistency: Some(policy), ..self }),
    {
        QosBuilder { type_consistency: Some(policy), ..self }
    }

    pub fn data_representation(self, values: Vec<DataRepresentation>) -> (r: Self)
        ensures
            r == (QosBuilder { data_representation: Some(values), ..self }),
    {
        QosBuilder { data_representation: Some(values), ..self }
    }

    pub fn resource_limits(self, max_samples: i32, max_instances: i32, max_samples_per_instance: i32) -> (r: Self)
        ensures
            r == (QosBuilder { resource_limits: Some(ResourceLimitsPolicy { max_samples, max_instances, max_samples_per_instance }), ..self }),
    {
        QosBuilder { resource_limits: Some(ResourceLimitsPolicy { max_samples, max_instances, max_samples_per_instance }), ..self }
    }

    pub fn time_based_filter(self, minimum_separation: i64) -> (r: Self)
        ensures
            r == (QosBuilder { time_based_filter: Some(TimeBasedFilterPolicy { minimum_separation }), ..self }),
    {
        QosBuilder { time_based_filter: Some(TimeBasedFilterPolicy { minimum_separation }), ..self }
    }

    pub fn psmx_instances(self, values: Vec<String>) -> (r: Self)
        ensures
            r == (QosBuilder { psmx_instances: Some(values), ..self }),
    {
        QosBuilder { psmx_instances: Some(values), ..self }
    }

    pub fn reliable(self) -> (r: Self)
        ensures
            r == (QosBuilder { reliability: Some((Reliability::Reliable, 1_000_000_000i64)), ..self }),
    {
        self.reliability(Reliability::Reliable, 1_000_000_000)
    }

    pub fn best_effort(self) -> (r: Self)
        ensures
            r == (QosBuilder { reliability: Some((Reliability::BestEffort, 0i64)), ..self }),
    {
        self.reliability(Reliability::BestEffort, 0)
    }

    pub fn transient_local(self) -> (r: Self)
        ensures
            r == (QosBuilder { durability: Some(Durability::TransientLocal), ..self }),
    {
        self.durability(Durability::TransientLocal)
    }

    pub fn volatile(self) -> (r: Self)
        ensures
            r == (QosBuilder { durability: Some(Durability::Volatile), ..self }),
    {
        self.durability(Durability::Volatile)
    }

    pub fn keep_last(self, depth: i32) -> (r: Self)
        ensures
            r == (QosBuilder { history: Some(History::KeepLast(depth)), ..self }),
    {
        self.history(History::KeepLast(depth))
    }

    pub fn keep_all(self) -> (r: Self)
        ensures
            r == (QosBuilder { history: Some(History::KeepAll), ..self }),
    {
        self.history(History::KeepAll)
    }

    pub fn partition(self, name: &str) -> (r: Self)
        ensures
            r == (QosBuilder { partition: r.partition, ..self }),
            r.partition matches Some(s) && s@ == name@,
    {
        QosBuilder { partition: Some(name.to_owned()), ..self }
    }

    pub fn entity_name(self, name: &str) -> (r: Self)
        ensures
            r == (QosBuilder { entity_name: r.entity_name, ..self }),
            r.entity_name matches Some(s) && s@ == name@,
    {
        QosBuilder { entity_name: Some(name.to_owned()), ..self }
    }

    pub fn property(self, name: &str, value: &str) -> (r: Self)
        ensures
            r == (QosBuilder { properties: r.properties, ..self }),
            properties_model(r.properties@) == properties_model(self.properties@).push(
                (name@, value@, false),
            ),
    {
        self.property_propagate(name, value, false)
    }

    pub fn property_propagate(self, name: &str, value: &str, propagate: bool) -> (r: Self)
        ensures
            r == (QosBuilder { properties: r.properties, ..self }),
            properties_model(r.properties@) == properties_model(self.properties@).push(
                (name@, value@, propagate),
            ),
    {
        let mut b = self;
        let ghost before = b.properties@;
        b.properties.push((name.to_owned(), value.to_owned(), propagate));
        assert(properties_model(b.properties@) =~= properties_model(before).push(
            (name@, value@, propagate),
        ));
        b
    }

    pub fn binary_property(self, name: &str, value: Vec<u8>) -> (r: Self)
        ensures
            r == (QosBuilder { binary_properties: r.binary_properties, ..self }),
            binary_properties_model(r.binary_properties@) == binary_properties_model(
                self.binary_properties@,
            ).push((name@, value@, false)),
    {
        self.binary_property_propagate(name, value, false)
    }

    pub fn binary_property_propagate(self, name: &str, value: Vec<u8>, propagate: bool) -> (r: Self)
        ensures
            r == (QosBuilder { binary_properties: r.binary_properties, ..self }),
            binary_properties_model(r.binary_properties@) == binary_properties_model(
                self.binary_properties@,
            ).push((name@, value@, propagate)),
    {
        let mut b = self;
        let ghost before = b.binary_properties@;
        let ghost bytes = value@;
        b.binary_properties.push((name.to_owned(), value, propagate));
        assert(binary_properties_model(b.binary_properties@) =~= binary_properties_model(
            before,
        ).push((name@, bytes, propagate)));
        b
    }
}

} // verus!
