//! Naming of the sibling topic that a content-filtered topic is created on.
use vstd::prelude::*;
use vstd::utf8::encode_utf8;
use crate::bigint::{ascii_chars, i64_to_decimal_str, signed_decimal_bytes};
use crate::error::{DdsError, DdsResult};
use crate::text::concat3;
use crate::type_discovery::{has_nul, string_from_utf8_lossy, utf8_lossy};

verus! {

/// The name of the sibling topic: the filtered topic's name (its bytes
/// decoded as `String::from_utf8_lossy` does), `_cft_`, and that topic's
/// entity handle in decimal.
pub open spec fn sibling_name_text(topic_name: Seq<u8>, topic: i32) -> Seq<char> {
    utf8_lossy(topic_name) + "_cft_"@ + ascii_chars(signed_decimal_bytes(topic as int))
}

/// The name under which the sibling topic of a content-filtered topic is
/// created, from the filtered topic's name bytes and entity handle.
///
/// A name whose UTF-8 bytes hold a zero byte cannot be handed to DDS and is
/// refused with `BadParameter`.
pub fn sibling_topic_name(topic_name: &[u8], topic: i32) -> (r: DdsResult<String>)
    ensures
        encode_utf8(sibling_name_text(topic_name@, topic)).contains(0u8) ==> r matches Err(
            DdsError::BadParameter(_),
        ),
        !encode_utf8(sibling_name_text(topic_name@, topic)).contains(0u8) ==> (r matches Ok(
            s,
        ) && s@ == sibling_name_text(topic_name@, topic)),
{
    let base = string_from_utf8_lossy(topic_name);
    let handle = i64_to_decimal_str(topic as i64);
    let name = concat3(base.as_str(), "_cft_", handle.as_str());
    if has_nul(name.as_str()) {
        Err(DdsError::BadParameter("topic name contains null".to_owned()))
    } else {
        Ok(name)
    }
}

} // verus!
