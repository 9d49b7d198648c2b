//! Reading an entity's text property (its name, its type name) through a
//! call that writes it into a caller's buffer and reports the length it
//! needed: a first try with a fixed buffer, and one retry with a buffer of
//! exactly the needed size.
use vstd::prelude::*;
use crate::error::{error_of_code, DdsError, DdsResult};
use crate::type_discovery::{string_from_utf8_lossy, utf8_lossy};

verus! {

/// The size of the buffer for the first try.
pub const FIRST_NAME_BUFFER: usize = 256;

/// What follows the first call.
#[derive(Debug)]
pub enum NameReadStep {
    /// The call failed with this error.
    Failed(DdsError),
    /// The text did not fit: call again with a buffer of this size.
    Retry(usize),
    /// The text fit: it is this many bytes of the buffer.
    Take(usize),
}

/// The decision after the first call, which returned `ret` for a buffer of
/// `buffer_len` bytes: a negative return code is an error; a length that
/// does not fit asks for a buffer one byte longer than it (for the
/// terminator); else the text is that many bytes.
pub fn first_name_read(ret: i32, buffer_len: usize) -> (r: NameReadStep)
    ensures
        ret < 0 ==> (r matches NameReadStep::Failed(e) && error_of_code(ret, e)),
        ret >= 0 && ret >= buffer_len ==> (r matches NameReadStep::Retry(n) && n == ret + 1),
        ret >= 0 && ret < buffer_len ==> (r matches NameReadStep::Take(n) && n == ret),
{
    if ret < 0 {
        return NameReadStep::Failed(DdsError::from_code(ret));
    }
    let needed = ret as usize;
    if needed >= buffer_len {
        NameReadStep::Retry(needed + 1)
    } else {
        NameReadStep::Take(needed)
    }
}

/// The decision after the retry, which returned `ret` for a buffer of
/// `buffer_len` bytes: a negative return code is an error; else the text
/// is the length the first call reported, within the buffer.
pub fn second_name_read(ret: i32, needed: usize, buffer_len: usize) -> (r: DdsResult<usize>)
    ensures
        ret < 0 ==> (r matches Err(e) && error_of_code(ret, e)),
        ret >= 0 ==> r == Ok::<usize, DdsError>(if needed <= buffer_len { needed } else { buffer_len }),
{
    if ret < 0 {
        return Err(DdsError::from_code(ret));
    }
    Ok(if needed <= buffer_len { needed } else { buffer_len })
}

/// The text of the first `len` bytes of the buffer, decoded as
/// `String::from_utf8_lossy` does.
pub fn name_from_buffer(buf: &[u8], len: usize) -> (r: String)
    requires
        len <= buf@.len(),
    ensures
        r@ == utf8_lossy(buf@.take(len as int)),
{
    let mut prefix: Vec<u8> = Vec::new();
    let mut i: usize = 0;
    while i < len
        invariant
            0 <= i <= len <= buf@.len(),
            prefix@ == buf@.take(i as int),
        decreases len - i,
    {
        prefix.push(buf[i]);
        i += 1;
        assert(prefix@ =~= buf@.take(i as int));
    }
    string_from_utf8_lossy(prefix.as_slice())
}

} // verus!
