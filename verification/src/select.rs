//! Fixed-capacity descriptor-set bitmap: set, clear, test, and zero
//! operations addressed by descriptor index.
//!
//! The set is a 1024-bit array stored as 128 bytes; index `fd` lives at byte
//! `fd / 8`, bit `fd % 8`. Negative indices are silently absorbed as no-ops,
//! mirroring the native macros. The native macros leave an index at or above
//! the capacity as an out-of-bounds access; here that is a deliberate
//! precondition instead, so in-range indices are the caller's stated
//! obligation and every verified caller is known never to reach past the
//! array.

use vstd::prelude::*;

verus! {

/// Number of descriptor indices a set can hold.
pub const FD_SETSIZE: i32 = 1024;

/// Byte size of a descriptor set: one bit per index.
pub const FD_SET_BYTES: usize = 128;

/// Whether bit `fd` is set in a descriptor-set's bytes: bit `fd % 8` of byte
/// `fd / 8`.
pub open spec fn spec_fd_is_set(bytes: Seq<u8>, fd: int) -> bool {
    bytes[fd / 8] & (1u8 << ((fd % 8) as u8)) != 0
}

/// A fixed-capacity descriptor-index bit array, the safe counterpart of the
/// kernel's fixed-size descriptor-set struct.
pub struct FdSet {
    bytes: Vec<u8>,
}

impl View for FdSet {
    type V = Seq<u8>;

    closed spec fn view(&self) -> Seq<u8> {
        self.bytes@
    }
}

impl FdSet {
    /// A well-formed set holds exactly its fixed byte capacity.
    pub open spec fn wf(&self) -> bool {
        self@.len() == FD_SET_BYTES
    }

    /// Creates a set with every bit clear.
    pub fn new() -> (r: FdSet)
        ensures
            r.wf(),
            forall|i: int| 0 <= i < FD_SET_BYTES ==> r@[i] == 0,
            forall|fd: int| 0 <= fd < FD_SETSIZE ==> !spec_fd_is_set(r@, fd),
    {
        let mut bytes: Vec<u8> = Vec::new();
        while bytes.len() < FD_SET_BYTES
            invariant
                bytes@.len() <= FD_SET_BYTES,
                forall|i: int| 0 <= i < bytes@.len() ==> bytes@[i] == 0,
            decreases FD_SET_BYTES - bytes@.len(),
        {
            bytes.push(0);
        }
        let r = FdSet { bytes };
        proof {
            assert forall|fd: int| 0 <= fd < FD_SETSIZE implies !spec_fd_is_set(r@, fd) by {
                lemma_bit_of_zero_byte((fd % 8) as u8);
            }
        }
        r
    }

    /// Reads one byte of the set's storage.
    pub fn byte_at(&self, i: usize) -> (r: u8)
        requires
            self.wf(),
            i < FD_SET_BYTES,
        ensures
            r == self@[i as int],
    {
        self.bytes[i]
    }
}

/// Any bit of a zero byte is clear.
proof fn lemma_bit_of_zero_byte(k: u8)
    ensures
        0u8 & (1u8 << k) == 0,
{
    assert(0u8 & (1u8 << k) == 0) by (bit_vector);
}

/// Setting bit `k` of a byte makes that bit one and leaves every other bit
/// as it was.
proof fn lemma_set_bit(b: u8, k: u8, m: u8)
    requires
        k < 8,
        m < 8,
    ensures
        (b | (1u8 << k)) & (1u8 << k) != 0,
        m != k ==> ((b | (1u8 << k)) & (1u8 << m)) == (b & (1u8 << m)),
{
    assert(k < 8 ==> (b | (1u8 << k)) & (1u8 << k) != 0) by (bit_vector);
    assert((m != k && m < 8 && k < 8) ==> ((b | (1u8 << k)) & (1u8 << m)) == (b & (1u8 << m)))
        by (bit_vector);
}

/// Clearing bit `k` of a byte makes that bit zero and leaves every other bit
/// as it was.
proof fn lemma_clear_bit(b: u8, k: u8, m: u8)
    requires
        k < 8,
        m < 8,
    ensures
        (b & !(1u8 << k)) & (1u8 << k) == 0,
        m != k ==> ((b & !(1u8 << k)) & (1u8 << m)) == (b & (1u8 << m)),
{
    assert(k < 8 ==> (b & !(1u8 << k)) & (1u8 << k) == 0) by (bit_vector);
    assert((m != k && m < 8 && k < 8) ==> ((b & !(1u8 << k)) & (1u8 << m)) == (b & (1u8 << m)))
        by (bit_vector);
}

/// Two indices in the same byte with the same bit position are the same
/// index.
proof fn lemma_index_split(j: int, fd: int)
    requires
        j / 8 == fd / 8,
        j % 8 == fd % 8,
    ensures
        j == fd,
{
    vstd::arithmetic::div_mod::lemma_fundamental_div_mod(j, 8);
    vstd::arithmetic::div_mod::lemma_fundamental_div_mod(fd, 8);
}

/// Sets bit `fd`. A negative index leaves the set byte-for-byte unchanged;
/// every index other than `fd` keeps its value.
pub fn FD_SET(fd: i32, set: &mut FdSet)
    requires
        old(set).wf(),
        fd < FD_SETSIZE,
    ensures
        final(set).wf(),
        fd < 0 ==> final(set)@ == old(set)@,
        0 <= fd ==> spec_fd_is_set(final(set)@, fd as int),
        0 <= fd ==> forall|j: int|
            0 <= j < FD_SETSIZE && j != fd ==> spec_fd_is_set(final(set)@, j) == spec_fd_is_set(
                old(set)@,
                j,
            ),
{
    if fd >= 0 {
        let idx: usize = (fd / 8) as usize;
        let bit: u8 = (fd % 8) as u8;
        let b: u8 = set.bytes[idx];
        set.bytes.set(idx, b | (1u8 << bit));
        proof {
            lemma_set_bit(b, bit, bit);
            assert forall|j: int| 0 <= j < FD_SETSIZE && j != fd implies spec_fd_is_set(
                set@,
                j,
            ) == spec_fd_is_set(old(set)@, j) by {
                if j / 8 == fd as int / 8 {
                    if j % 8 == fd as int % 8 {
                        lemma_index_split(j, fd as int);
                    }
                    lemma_set_bit(b, bit, (j % 8) as u8);
                }
            }
        }
    }
}

/// Clears bit `fd`. A negative index leaves the set byte-for-byte unchanged;
/// every index other than `fd` keeps its value.
pub fn FD_CLR(fd: i32, set: &mut FdSet)
    requires
        old(set).wf(),
        fd < FD_SETSIZE,
    ensures
        final(set).wf(),
        fd < 0 ==> final(set)@ == old(set)@,
        0 <= fd ==> !spec_fd_is_set(final(set)@, fd as int),
        0 <= fd ==> forall|j: int|
            0 <= j < FD_SETSIZE && j != fd ==> spec_fd_is_set(final(set)@, j) == spec_fd_is_set(
                old(set)@,
                j,
            ),
{
    if fd >= 0 {
        let idx: usize = (fd / 8) as usize;
        let bit: u8 = (fd % 8) as u8;
        let b: u8 = set.bytes[idx];
        set.bytes.set(idx, b & !(1u8 << bit));
        proof {
            lemma_clear_bit(b, bit, bit);
            assert forall|j: int| 0 <= j < FD_SETSIZE && j != fd implies spec_fd_is_set(
                set@,
                j,
            ) == spec_fd_is_set(old(set)@, j) by {
                if j / 8 == fd as int / 8 {
                    if j % 8 == fd as int % 8 {
                        lemma_index_split(j, fd as int);
                    }
                    lemma_clear_bit(b, bit, (j % 8) as u8);
                }
            }
        }
    }
}

/// Tests bit `fd`: false for a negative index rather than an error.
pub fn FD_ISSET(fd: i32, set: &FdSet) -> (r: bool)
    requires
        set.wf(),
        fd < FD_SETSIZE,
    ensures
        r == (0 <= fd && spec_fd_is_set(set@, fd as int)),
{
    if fd >= 0 {
        let idx: usize = (fd / 8) as usize;
        let bit: u8 = (fd % 8) as u8;
        (set.bytes[idx] & (1u8 << bit)) != 0
    } else {
        false
    }
}

/// Clears every bit: a full clear of the set's fixed byte capacity.
pub fn FD_ZERO(set: &mut FdSet)
    requires
        old(set).wf(),
    ensures
        final(set).wf(),
        forall|i: int| 0 <= i < FD_SET_BYTES ==> final(set)@[i] == 0,
        forall|fd: int| 0 <= fd < FD_SETSIZE ==> !spec_fd_is_set(final(set)@, fd),
{
    let mut bytes: Vec<u8> = Vec::new();
    while bytes.len() < FD_SET_BYTES
        invariant
            bytes@.len() <= FD_SET_BYTES,
            forall|i: int| 0 <= i < bytes@.len() ==> bytes@[i] == 0,
        decreases FD_SET_BYTES - bytes@.len(),
    {
        bytes.push(0);
    }
    set.bytes = bytes;
    proof {
        assert forall|fd: int| 0 <= fd < FD_SETSIZE implies !spec_fd_is_set(set@, fd) by {
            lemma_bit_of_zero_byte((fd % 8) as u8);
        }
    }
}

} // verus!
