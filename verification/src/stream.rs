//! The arithmetic of the synchronous stream interface: where a seek lands,
//! which byte range one `read` fetches, and how fetched bytes are copied into
//! the caller's buffer.

use vstd::prelude::*;

use crate::errors::{StreamError, StreamErrorKind};

verus! {

/// The reference point of a seek: the start of the object, its end, or the
/// current cursor position.
#[derive(Clone, Copy, Debug, PartialEq, Eq, Structural)]
pub enum SeekFrom {
    Start(u64),
    End(i64),
    Current(i64),
}

/// Where a seek lands on an object of `length` bytes when the cursor stands
/// at `position`, or `None` where the seek is rejected as invalid input.
///
/// From the start, the offset is clamped to the object's length. From the
/// end, a non-negative offset lands on the length itself, and a negative one
/// steps back from the end, failing if it would pass the start. From the
/// cursor, a non-negative offset behaves as a seek from the start to
/// `position + offset`, and a negative one steps back from the cursor,
/// failing if it would pass the start.
pub open spec fn seek_target(position: nat, length: nat, from: SeekFrom) -> Option<int> {
    match from {
        SeekFrom::Start(s) => if s as int <= length as int {
            Some(s as int)
        } else {
            Some(length as int)
        },
        SeekFrom::End(s) => if s >= 0 {
            Some(length as int)
        } else if -(s as int) > length as int {
            None
        } else {
            Some(length as int + s as int)
        },
        SeekFrom::Current(s) => if s >= 0 {
            if position as int + s as int <= length as int {
                Some(position as int + s as int)
            } else {
                Some(length as int)
            }
        } else if -(s as int) > position as int {
            None
        } else {
            Some(position as int + s as int)
        },
    }
}

/// The magnitude of a negative offset, exact even for the most negative
/// value, which has no negation of its own type.
fn negative_magnitude(s: i64) -> (m: u64)
    requires
        s < 0,
    ensures
        m as int == -(s as int),
{
    if s == i64::MIN {
        9223372036854775808u64
    } else {
        (-s) as u64
    }
}

/// Compute the new cursor position of a seek over a resolved length, or the
/// invalid-input error where the seek would land before the start of the
/// object. The returned position is exactly `seek_target`.
pub fn resolve_seek(position: usize, length: usize, from: SeekFrom) -> (r: Result<usize, StreamError>)
    ensures
        (seek_target(position as nat, length as nat, from) matches Some(t) ==> (r matches Ok(
            p,
        ) && p as int == t)),
        seek_target(position as nat, length as nat, from) is None ==> (r matches Err(e)
            && e.kind == StreamErrorKind::InvalidInput),
{
    match from {
        SeekFrom::Start(s) => {
            if s > length as u64 {
                Ok(length)
            } else {
                Ok(s as usize)
            }
        },
        SeekFrom::End(s) => {
            if s >= 0 {
                Ok(length)
            } else {
                let m = negative_magnitude(s);
                if m > length as u64 {
                    Err(StreamError {
                        kind: StreamErrorKind::InvalidInput,
                        msg: "tried to seek to a negative offset".to_owned(),
                    })
                } else {
                    Ok(length - m as usize)
                }
            }
        },
        SeekFrom::Current(s) => {
            if s >= 0 {
                match (position as u64).checked_add(s as u64) {
                    Some(t) => {
                        if t > length as u64 {
                            Ok(length)
                        } else {
                            Ok(t as usize)
                        }
                    },
                    None => Ok(length),
                }
            } else {
                let m = negative_magnitude(s);
                if m > position as u64 {
                    Err(StreamError {
                        kind: StreamErrorKind::InvalidInput,
                        msg: "tried to seek to a negative offset".to_owned(),
                    })
                } else {
                    Ok(position - m as usize)
                }
            }
        },
    }
}

/// What one `read` does before touching the network: nothing where the
/// cursor is at or past the end of the object or the buffer is empty, and
/// otherwise a fetch of the inclusive byte range starting at the cursor,
/// spanning at most the buffer's length and clipped to the final byte of the
/// object.
#[derive(Clone, Copy, Debug, PartialEq, Eq, Structural)]
pub enum ReadPlan {
    Done,
    Fetch { first: usize, last: usize },
}

/// The plan of a `read` of `buf_len` bytes at `position` over a resolved
/// `length`.
pub open spec fn read_plan(position: usize, length: usize, buf_len: usize) -> ReadPlan {
    if position >= length || buf_len == 0 {
        ReadPlan::Done
    } else if position + buf_len <= length {
        ReadPlan::Fetch { first: position, last: (position + buf_len - 1) as usize }
    } else {
        ReadPlan::Fetch { first: position, last: (length - 1) as usize }
    }
}

/// Decide what a `read` of `buf_len` bytes fetches, exactly as `read_plan`
/// says.
pub fn plan_read(position: usize, length: usize, buf_len: usize) -> (r: ReadPlan)
    ensures
        r == read_plan(position, length, buf_len),
        (r matches ReadPlan::Fetch { first, last } ==> first <= last && last < length),
{
    if position >= length || buf_len == 0 {
        ReadPlan::Done
    } else {
        let remaining = length - 1 - position;
        let span = if buf_len - 1 < remaining {
            buf_len - 1
        } else {
            remaining
        };
        ReadPlan::Fetch { first: position, last: position + span }
    }
}

/// The least of three quantities.
pub open spec fn min3(a: int, b: int, c: int) -> int {
    if a <= b && a <= c {
        a
    } else if b <= c {
        b
    } else {
        c
    }
}

/// Copy fetched bytes into the caller's buffer: at most the buffer's length,
/// at most `avail` bytes, and at most what was fetched. Returns the number of
/// bytes copied; the rest of the buffer is left as it was.
pub fn take_fetched(buf: &mut Vec<u8>, fetched: &Vec<u8>, avail: usize) -> (n: usize)
    ensures
        n as int == min3(fetched@.len() as int, old(buf)@.len() as int, avail as int),
        final(buf)@.len() == old(buf)@.len(),
        forall|j: int| 0 <= j < n ==> final(buf)@[j] == fetched@[j],
        forall|j: int| n <= j < old(buf)@.len() ==> final(buf)@[j] == old(buf)@[j],
{
    let mut n = fetched.len();
    if buf.len() < n {
        n = buf.len();
    }
    if avail < n {
        n = avail;
    }
    let mut i: usize = 0;
    while i < n
        invariant
            i <= n,
            n <= buf@.len(),
            n <= fetched@.len(),
            n as int == min3(fetched@.len() as int, old(buf)@.len() as int, avail as int),
            buf@.len() == old(buf)@.len(),
            forall|j: int| 0 <= j < i ==> buf@[j] == fetched@[j],
            forall|j: int| i <= j < old(buf)@.len() ==> buf@[j] == old(buf)@[j],
        decreases n - i,
    {
        buf[i] = fetched[i];
        i += 1;
    }
    n
}

/// A seek from the start lands on the requested offset when it lies within
/// the object, is clamped to the object's length when it lies past the end,
/// and never fails.
pub proof fn lemma_seek_start(position: nat, length: nat, s: u64)
    ensures
        s as int <= length as int ==> seek_target(position, length, SeekFrom::Start(s)) == Some(
            s as int,
        ),
        s as int > length as int ==> seek_target(position, length, SeekFrom::Start(s)) == Some(
            length as int,
        ),
{
}

/// A seek relative to the end with a non-negative offset behaves exactly as
/// a seek from the start to the object's length.
pub proof fn lemma_seek_end_nonnegative(position: nat, length: nat, s: i64)
    requires
        s >= 0,
        length <= u64::MAX,
    ensures
        seek_target(position, length, SeekFrom::End(s)) == seek_target(
            position,
            length,
            SeekFrom::Start(length as u64),
        ),
{
}

/// A seek relative to the end with a negative offset lands that many bytes
/// before the end when the magnitude is within the object's length, and is
/// rejected as invalid input when it would pass the start.
pub proof fn lemma_seek_end_negative(position: nat, length: nat, s: i64)
    requires
        s < 0,
    ensures
        -(s as int) <= length as int ==> seek_target(position, length, SeekFrom::End(s)) == Some(
            length - -(s as int),
        ),
        -(s as int) > length as int ==> seek_target(position, length, SeekFrom::End(s)) is None,
{
}

/// A seek relative to the cursor with a negative offset lands that many
/// bytes before the cursor when the magnitude is within the current
/// position, and is rejected as invalid input when it would pass the start.
pub proof fn lemma_seek_current_negative(position: nat, length: nat, s: i64)
    requires
        s < 0,
    ensures
        -(s as int) <= position as int ==> seek_target(position, length, SeekFrom::Current(s))
            == Some(position - -(s as int)),
        -(s as int) > position as int ==> seek_target(position, length, SeekFrom::Current(s))
            is None,
{
}

} // verus!

