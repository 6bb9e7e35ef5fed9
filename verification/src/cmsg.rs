//! Alignment, sizing, and bounds-checked traversal of ancillary-data
//! (control-message) records.
//!
//! A control-message buffer is a caller-owned byte region holding a chain of
//! variable-length records, each prefixed by a fixed header that declares the
//! record's total length. The layout here is the LP64 kernel ABI: records are
//! padded to the 8-byte word size, and the header is 16 bytes (an 8-byte
//! length followed by two 4-byte protocol identifiers).
//!
//! Buffers are described by explicit address and length values rather than
//! raw pointers; every traversal step is checked against the envelope's
//! declared extent before a new record address is produced.

use vstd::prelude::*;

verus! {

/// Byte width of the platform's `long` integer: the unit to which
/// ancillary-data records are padded.
pub const CMSG_ALIGNTO: u32 = 8;

/// Byte size of a control-message header.
pub const CMSGHDR_SIZE: u32 = 16;

/// `len` rounded up to the next multiple of the word size.
pub open spec fn spec_align(len: int) -> int {
    ((len + 7) / 8) * 8
}

/// Word alignment is idempotent, never shrinks a length, adds less than one
/// word of padding, and always lands on a word boundary.
pub proof fn lemma_align_idempotent(len: int)
    requires
        0 <= len,
    ensures
        spec_align(spec_align(len)) == spec_align(len),
        len <= spec_align(len) < len + 8,
        spec_align(len) % 8 == 0,
{
    assert(len <= ((len + 7) / 8) * 8 < len + 8 && (((len + 7) / 8) * 8) % 8 == 0)
        by (nonlinear_arith)
        requires 0 <= len;
    let m = spec_align(len);
    assert(((m + 7) / 8) * 8 == m) by (nonlinear_arith)
        requires 0 <= m && m % 8 == 0;
}

/// Rounds `len` up to the next multiple of the platform word size.
pub fn CMSG_ALIGN(len: u32) -> (r: u32)
    requires
        len + 7 <= u32::MAX,
    ensures
        r == spec_align(len as int),
{
    let s: u32 = len + (CMSG_ALIGNTO - 1);
    let r: u32 = s & !(CMSG_ALIGNTO - 1);
    proof {
        assert(s & !7u32 == (s / 8) * 8) by (bit_vector);
    }
    r
}

/// Total buffer space a record with a payload of `len` bytes occupies:
/// one header plus the word-aligned payload.
pub fn CMSG_SPACE(len: u32) -> (r: u32)
    requires
        len + 23 <= u32::MAX,
    ensures
        r == CMSGHDR_SIZE + spec_align(len as int),
{
    proof {
        lemma_align_idempotent(len as int);
    }
    CMSGHDR_SIZE + CMSG_ALIGN(len)
}

/// Value to store in a record's `cmsg_len` field for a payload of `len`
/// bytes: one header plus the payload, unaligned. Padding exists only
/// between records, never inside the stored length.
pub fn CMSG_LEN(len: u32) -> (r: u32)
    requires
        len + 16 <= u32::MAX,
    ensures
        r == CMSGHDR_SIZE + len,
{
    CMSGHDR_SIZE + len
}

/// Address of a record's payload: the byte immediately after its header.
/// A pure offset computation; the caller must already hold a valid record
/// address.
pub fn CMSG_DATA(cmsg_addr: u64) -> (r: u64)
    requires
        cmsg_addr + 16 <= u64::MAX,
    ensures
        r == cmsg_addr + CMSGHDR_SIZE,
{
    cmsg_addr + CMSGHDR_SIZE as u64
}

/// A control-message record header, as the kernel lays it out: the record's
/// total byte length (header included), then the originating protocol level
/// and the protocol-specific type.
#[derive(Clone, Copy, PartialEq, Eq, Structural, Debug)]
pub struct Cmsghdr {
    pub cmsg_len: u64,
    pub cmsg_level: i32,
    pub cmsg_type: i32,
}

/// The control-buffer fields of a message envelope: the address of the first
/// byte of the ancillary-data buffer (0 when absent) and the buffer's total
/// byte length.
#[derive(Clone, Copy, PartialEq, Eq, Structural, Debug)]
pub struct Msghdr {
    pub msg_control: u64,
    pub msg_controllen: u64,
}

/// Where traversal of an envelope's control buffer starts: the buffer's base
/// address, unless the buffer is absent or too short to hold even one header.
pub open spec fn spec_first_header(mhdr: Msghdr) -> Option<u64> {
    if mhdr.msg_controllen < CMSGHDR_SIZE as u64 {
        None
    } else if mhdr.msg_control == 0 {
        None
    } else {
        Some(mhdr.msg_control)
    }
}

/// Returns the address of the first record in the envelope's control buffer,
/// or `None` if the buffer is absent or shorter than one header.
pub fn CMSG_FIRSTHDR(mhdr: &Msghdr) -> (r: Option<u64>)
    ensures
        r == spec_first_header(*mhdr),
        mhdr.msg_controllen < CMSGHDR_SIZE as u64 ==> r is None,
{
    if mhdr.msg_controllen < CMSGHDR_SIZE as u64 {
        return None;
    }
    if mhdr.msg_control == 0 {
        return None;
    }
    Some(mhdr.msg_control)
}

/// What the traversal step yields for the record of length `cmsg_len` at
/// `cmsg_addr` inside `mhdr`'s control buffer. The candidate next address is
/// the current one advanced by the current record's aligned length. It is
/// rejected, and traversal ends, when the current record is shorter than a
/// header (malformed), when a whole header no longer fits before the
/// buffer's end, or when the candidate advanced once more by the current
/// record's aligned length would pass the buffer's end.
pub open spec fn spec_next_header(mhdr: Msghdr, cmsg_addr: u64, cmsg_len: u64) -> Option<u64> {
    let end = mhdr.msg_control + mhdr.msg_controllen;
    let next = cmsg_addr + spec_align(cmsg_len as int);
    if cmsg_len < CMSGHDR_SIZE as u64 {
        None
    } else if next + CMSGHDR_SIZE > end || next + spec_align(cmsg_len as int) > end {
        None
    } else {
        Some(next as u64)
    }
}

/// Rounds a record length up to the next multiple of the platform word size.
fn align_u64(len: u64) -> (r: u64)
    requires
        len + 7 <= u64::MAX,
    ensures
        r == spec_align(len as int),
{
    let s: u64 = len + (CMSG_ALIGNTO as u64 - 1);
    let r: u64 = s & !(CMSG_ALIGNTO as u64 - 1);
    proof {
        assert(s & !7u64 == (s / 8) * 8) by (bit_vector);
    }
    r
}

/// Returns the address of the record after the one of length `cmsg_len` at
/// `cmsg_addr`, or `None` when no further valid record exists. Every
/// candidate is checked against the envelope's declared extent: a record's
/// own length claim is never trusted on its own, so a corrupted or truncated
/// chain ends the traversal instead of escaping the buffer.
pub fn CMSG_NXTHDR(mhdr: &Msghdr, cmsg_addr: u64, cmsg: &Cmsghdr) -> (r: Option<u64>)
    requires
        mhdr.msg_control + mhdr.msg_controllen <= u64::MAX,
        cmsg.cmsg_len >= CMSGHDR_SIZE as u64
            ==> cmsg_addr + 2 * spec_align(cmsg.cmsg_len as int) <= u64::MAX,
    ensures
        r == spec_next_header(*mhdr, cmsg_addr, cmsg.cmsg_len),
        cmsg.cmsg_len < CMSGHDR_SIZE as u64 ==> r is None,
{
    if cmsg.cmsg_len < CMSGHDR_SIZE as u64 {
        return None;
    }
    proof {
        lemma_align_idempotent(cmsg.cmsg_len as int);
    }
    let aligned: u64 = align_u64(cmsg.cmsg_len);
    let next: u64 = cmsg_addr + aligned;
    let end: u64 = mhdr.msg_control + mhdr.msg_controllen;
    if next + CMSGHDR_SIZE as u64 > end || next + aligned > end {
        return None;
    }
    Some(next)
}

/// A successful traversal step advances strictly forward by at least one
/// header size and yields an address with room for a whole header before the
/// buffer's end, so iteration over a buffer of length `L` ends within
/// `L / CMSGHDR_SIZE` steps.
pub proof fn lemma_next_header_advances(mhdr: Msghdr, cmsg_addr: u64, cmsg_len: u64)
    requires
        mhdr.msg_control + mhdr.msg_controllen <= u64::MAX,
    ensures
        spec_next_header(mhdr, cmsg_addr, cmsg_len) matches Some(next) ==> {
            &&& cmsg_addr + CMSGHDR_SIZE <= next
            &&& next + CMSGHDR_SIZE <= mhdr.msg_control + mhdr.msg_controllen
        },
{
    if cmsg_len >= CMSGHDR_SIZE as u64 {
        lemma_align_idempotent(cmsg_len as int);
    }
}

/// A record whose declared length spans the whole control buffer is the last
/// one: the traversal step on it yields nothing.
pub proof fn lemma_single_record_ends_traversal(mhdr: Msghdr, cmsg_len: u64)
    requires
        cmsg_len == mhdr.msg_controllen,
    ensures
        spec_next_header(mhdr, mhdr.msg_control, cmsg_len) is None,
{
    if cmsg_len >= CMSGHDR_SIZE as u64 {
        lemma_align_idempotent(cmsg_len as int);
    }
}

/// For two back-to-back valid records — the second starting exactly where
/// the first record's aligned length ends, and ending the buffer — the
/// traversal step on the first yields the second, and the step on the second
/// yields nothing. The step on the first also re-checks the first record's
/// aligned length against the buffer's end past the candidate, so the first
/// record must not be longer than the remainder that holds the second.
pub proof fn lemma_back_to_back_records(mhdr: Msghdr, first_len: u64, second_len: u64)
    requires
        CMSGHDR_SIZE as u64 <= first_len,
        CMSGHDR_SIZE as u64 <= second_len,
        spec_align(first_len as int) <= second_len,
        mhdr.msg_controllen == spec_align(first_len as int) + second_len,
        mhdr.msg_control + mhdr.msg_controllen <= u64::MAX,
        mhdr.msg_control > 0,
    ensures
        spec_first_header(mhdr) == Some(mhdr.msg_control),
        spec_next_header(mhdr, mhdr.msg_control, first_len)
            == Some((mhdr.msg_control + spec_align(first_len as int)) as u64),
        spec_next_header(
            mhdr,
            (mhdr.msg_control + spec_align(first_len as int)) as u64,
            second_len,
        ) is None,
{
    lemma_align_idempotent(first_len as int);
    lemma_align_idempotent(second_len as int);
}

} // verus!
