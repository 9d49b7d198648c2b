//! The request-reply pattern: requests carry a correlation id, and a reply
//! answers the request whose id it carries.
use vstd::prelude::*;
use crate::text::concat2;
use crate::topic::DdsType;

verus! {

/// A sample type usable as a request or a reply: it carries a correlation
/// id that pairs a reply with its request.
pub trait RequestReply: DdsType + Clone {
    fn correlation_id(&self) -> u64;

    fn set_correlation_id(&mut self, id: u64);
}

/// The name of the topic that carries a service's requests.
pub fn request_topic_name(service_name: &str) -> (r: String)
    ensures
        r@ == service_name@ + "Request"@,
{
    concat2(service_name, "Request")
}

/// The name of the topic that carries a service's replies.
pub fn reply_topic_name(service_name: &str) -> (r: String)
    ensures
        r@ == service_name@ + "Reply"@,
{
    concat2(service_name, "Reply")
}

/// Hands out correlation ids: 1 first, then each id one more than the last
/// (wrapping at `u64::MAX`, as an atomic fetch-and-add does).
pub struct CorrelationCounter {
    next: u64,
}

impl CorrelationCounter {
    pub closed spec fn next_id(&self) -> u64 {
        self.next
    }

    /// A counter whose first id is 1.
    pub fn new() -> (r: Self)
        ensures
            r.next_id() == 1,
    {
        CorrelationCounter { next: 1 }
    }

    /// Takes the next id.
    pub fn take(&mut self) -> (r: u64)
        ensures
            r == old(self).next_id(),
            final(self).next_id() == (if r == u64::MAX { 0 } else { (r + 1) as u64 }),
    {
        let r = self.next;
        self.next = if r == u64::MAX { 0 } else { r + 1 };
        r
    }
}

/// The position of the first sample, among a batch whose correlation ids
/// are `ids`, that answers the request `wanted`.
pub fn first_reply(ids: &[u64], wanted: u64) -> (r: Option<usize>)
    ensures
        r matches Some(i) ==> i < ids@.len() && ids@[i as int] == wanted && forall|j: int|
            0 <= j < i ==> ids@[j] != wanted,
        r is None ==> forall|j: int| 0 <= j < ids@.len() ==> ids@[j] != wanted,
{
    let mut i: usize = 0;
    while i < ids.len()
        invariant
            0 <= i <= ids@.len(),
            forall|j: int| 0 <= j < i ==> ids@[j] != wanted,
        decreases ids@.len() - i,
    {
        if ids[i] == wanted {
            return Some(i);
        }
        i += 1;
    }
    None
}

} // verus!
