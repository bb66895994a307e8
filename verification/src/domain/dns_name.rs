//! What a domain name in a buffer is: labels, compression pointers, and the
//! position at which the name's own octets end.
//!
//! A name is a run of labels, each a length octet followed by that many octets,
//! closed by a zero length octet. A length octet whose top two bits are set
//! starts a two-octet pointer instead: the name goes on at the offset that the
//! pointer holds.

use crate::domain::dns_packet_buffer::CAPACITY;
use crate::error::DecodeError;
use crate::text::{lowercase_text, utf8_lossy_text};
use vstd::prelude::*;

verus! {

/// A name may follow a pointer while it has followed at most this many before.
pub const MAX_JUMPS: usize = 5;

/// Whether a length octet starts a compression pointer: its top two bits are
/// set.
pub open spec fn is_pointer(octet: u8) -> bool {
    octet >= 0xC0
}

/// The offset a pointer holds: the low six bits of its first octet as the high
/// part, its second octet as the low part.
pub open spec fn pointer_target(first: u8, second: u8) -> int {
    (first % 64) * 256 + second
}

/// `rest` with `labels` put in front, where `rest` is a list of labels.
pub open spec fn prefixed(labels: Seq<Seq<u8>>, rest: Result<Seq<Seq<u8>>, DecodeError>) -> Result<
    Seq<Seq<u8>>,
    DecodeError,
> {
    match rest {
        Ok(tail) => Ok(labels + tail),
        Err(e) => Err(e),
    }
}

/// The labels of the name that is read from `pos` on, after `jumps` pointers
/// have been followed already.
///
/// Reading fails with `OutOfBounds` where a length octet or the second octet of
/// a pointer lies at or past the capacity, or where a label would reach the
/// capacity, and with `CompressionLoopExceeded` at a pointer met after more
/// than `MAX_JUMPS` pointers were followed.
pub open spec fn name_labels(bytes: Seq<u8>, pos: int, jumps: int) -> Result<
    Seq<Seq<u8>>,
    DecodeError,
>
    decreases MAX_JUMPS + 1 - jumps, CAPACITY - pos,
{
    if pos < 0 || pos >= CAPACITY {
        Err(DecodeError::OutOfBounds)
    } else if is_pointer(bytes[pos]) {
        if jumps > MAX_JUMPS {
            Err(DecodeError::CompressionLoopExceeded)
        } else if pos + 1 >= CAPACITY {
            Err(DecodeError::OutOfBounds)
        } else {
            name_labels(bytes, pointer_target(bytes[pos], bytes[pos + 1]), jumps + 1)
        }
    } else if bytes[pos] == 0 {
        Ok(Seq::empty())
    } else if pos + 1 + bytes[pos] >= CAPACITY {
        Err(DecodeError::OutOfBounds)
    } else {
        prefixed(
            seq![bytes.subrange(pos + 1, pos + 1 + bytes[pos])],
            name_labels(bytes, pos + 1 + bytes[pos], jumps),
        )
    }
}

/// The text of one label: its octets read as lossy UTF-8, in lowercase.
pub open spec fn label_text(label: Seq<u8>) -> Seq<char> {
    lowercase_text(utf8_lossy_text(label))
}

/// The labels' texts joined by dots; no labels give the empty text.
pub open spec fn dotted(labels: Seq<Seq<u8>>) -> Seq<char>
    decreases labels.len(),
{
    if labels.len() == 0 {
        Seq::empty()
    } else if labels.len() == 1 {
        label_text(labels[0])
    } else {
        dotted(labels.drop_last()) + seq!['.'] + label_text(labels.last())
    }
}

/// The name that starts at `pos`, or the failure that reading it meets.
pub open spec fn name_at(bytes: Seq<u8>, pos: int) -> Result<Seq<char>, DecodeError> {
    match name_labels(bytes, pos, 0) {
        Ok(labels) => Ok(dotted(labels)),
        Err(e) => Err(e),
    }
}

/// Where the cursor stands in the end, once the name that starts at `start`
/// has been read as far as `pos` without meeting a pointer: behind the first
/// pointer or the closing zero octet, whichever the labels from `pos` on lead
/// to; at `start` where they leave the buffer before either.
pub open spec fn cursor_from(bytes: Seq<u8>, start: int, pos: int) -> int
    decreases CAPACITY - pos,
{
    if pos < 0 || pos >= CAPACITY {
        start
    } else if is_pointer(bytes[pos]) {
        pos + 2
    } else if bytes[pos] == 0 {
        pos + 1
    } else if pos + 1 + bytes[pos] >= CAPACITY {
        start
    } else {
        cursor_from(bytes, start, pos + 1 + bytes[pos])
    }
}

/// Where the cursor stands after the name at `start` has been read, whether
/// reading succeeded or not.
pub open spec fn name_cursor(bytes: Seq<u8>, start: int) -> int {
    cursor_from(bytes, start, start)
}

/// Every position in `positions` holds a pointer to a position in `positions`.
pub open spec fn pointers_closed(bytes: Seq<u8>, positions: Set<int>) -> bool {
    forall|p: int| #[trigger]
        positions.contains(p) ==> 0 <= p && p + 1 < CAPACITY && is_pointer(bytes[p])
            && positions.contains(pointer_target(bytes[p], bytes[p + 1]))
}

/// A name read inside a set of pointers that only point at each other is
/// refused, however many pointers were followed before.
pub proof fn lemma_pointers_closed_refused(
    bytes: Seq<u8>,
    positions: Set<int>,
    start: int,
    jumps: int,
)
    requires
        pointers_closed(bytes, positions),
        positions.contains(start),
    ensures
        name_labels(bytes, start, jumps) == Err::<Seq<Seq<u8>>, DecodeError>(
            DecodeError::CompressionLoopExceeded,
        ),
    decreases MAX_JUMPS + 1 - jumps,
{
    if jumps <= MAX_JUMPS {
        lemma_pointers_closed_refused(
            bytes,
            positions,
            pointer_target(bytes[start], bytes[start + 1]),
            jumps + 1,
        );
    }
}

/// Pointers that form a cycle make the name fail with
/// `CompressionLoopExceeded`: a name that starts at a position of a set of
/// pointers which only point at each other (two that point at one another, or
/// one that points at itself) is never decoded.
pub proof fn lemma_pointer_cycle_refused(bytes: Seq<u8>, positions: Set<int>, start: int)
    requires
        pointers_closed(bytes, positions),
        positions.contains(start),
    ensures
        name_at(bytes, start) == Err::<Seq<char>, DecodeError>(
            DecodeError::CompressionLoopExceeded,
        ),
{
    lemma_pointers_closed_refused(bytes, positions, start, 0);
}

/// The position of the first pointer that the labels from `pos` on lead to, if
/// they lead to one before the name ends or leaves the buffer.
pub open spec fn first_pointer(bytes: Seq<u8>, pos: int) -> Option<int>
    decreases CAPACITY - pos,
{
    if pos < 0 || pos >= CAPACITY {
        None
    } else if is_pointer(bytes[pos]) {
        Some(pos)
    } else if bytes[pos] == 0 {
        None
    } else if pos + 1 + bytes[pos] >= CAPACITY {
        None
    } else {
        first_pointer(bytes, pos + 1 + bytes[pos])
    }
}

/// Read on from `pos`, a name whose labels lead to a pointer leaves the cursor
/// behind that pointer.
pub proof fn lemma_cursor_from_behind_pointer(bytes: Seq<u8>, start: int, pos: int)
    ensures
        first_pointer(bytes, pos) matches Some(pointer) ==> cursor_from(bytes, start, pos)
            == pointer + 2,
    decreases CAPACITY - pos,
{
    if 0 <= pos < CAPACITY && !is_pointer(bytes[pos]) && bytes[pos] != 0 && pos + 1 + bytes[pos]
        < CAPACITY {
        lemma_cursor_from_behind_pointer(bytes, start, pos + 1 + bytes[pos]);
    }
}

/// A name with a pointer leaves the cursor behind the two octets of its first
/// pointer, whatever that pointer leads to: more pointers, a failure, or the
/// rest of the name.
pub proof fn lemma_cursor_behind_first_pointer(bytes: Seq<u8>, start: int)
    ensures
        first_pointer(bytes, start) matches Some(pointer) ==> name_cursor(bytes, start) == pointer
            + 2,
{
    lemma_cursor_from_behind_pointer(bytes, start, start);
}

/// A name without a pointer that decodes leaves the cursor behind its closing
/// zero octet, and one that fails leaves it where it was.
pub proof fn lemma_cursor_without_pointer(bytes: Seq<u8>, start: int, pos: int, jumps: int)
    requires
        first_pointer(bytes, pos) is None,
    ensures
        name_labels(bytes, pos, jumps) is Err ==> cursor_from(bytes, start, pos) == start,
        name_labels(bytes, pos, jumps) is Ok ==> bytes[cursor_from(bytes, start, pos) - 1] == 0,
    decreases CAPACITY - pos,
{
    if 0 <= pos < CAPACITY && !is_pointer(bytes[pos]) && bytes[pos] != 0 && pos + 1 + bytes[pos]
        < CAPACITY {
        lemma_cursor_without_pointer(bytes, start, pos + 1 + bytes[pos], jumps);
    }
}

/// Read on from `pos`, a name that decodes leaves the cursor behind `pos` and
/// within the buffer.
pub proof fn lemma_cursor_from_in_buffer(bytes: Seq<u8>, start: int, pos: int, jumps: int)
    ensures
        name_labels(bytes, pos, jumps) is Ok ==> pos < cursor_from(bytes, start, pos) <= CAPACITY,
    decreases CAPACITY - pos,
{
    if 0 <= pos < CAPACITY && !is_pointer(bytes[pos]) && bytes[pos] != 0 && pos + 1 + bytes[pos]
        < CAPACITY {
        lemma_cursor_from_in_buffer(bytes, start, pos + 1 + bytes[pos], jumps);
    }
}

/// A name that decodes moves the cursor forward and leaves it at the capacity
/// at most.
pub proof fn lemma_name_cursor_in_buffer(bytes: Seq<u8>, start: int)
    ensures
        name_at(bytes, start) is Ok ==> start < name_cursor(bytes, start) <= CAPACITY,
{
    lemma_cursor_from_in_buffer(bytes, start, start, 0);
}

} // verus!
