//! The kinds of QoS that a QoS provider hands out.
use vstd::prelude::*;

verus! {

/// The entity kind whose QoS a provider is asked for.
#[derive(Debug, Clone, Copy, PartialEq, Eq, Structural)]
pub enum QosKind {
    Participant,
    Publisher,
    Subscriber,
    Topic,
    Reader,
    Writer,
}

} // verus!
