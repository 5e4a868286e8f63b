//! Raw Unix-domain socket address builder.
//!
//! A socket address is laid out as a family tag of [`FAMILY_LEN`] bytes
//! followed by a path region of a platform-defined capacity.  The builder
//! produces that layout as one explicit, contiguous byte buffer, optionally
//! extended past the structural path capacity by trailing bytes, so that a
//! probe can hand the kernel an address it claims is longer than the
//! structural type allows.  Contiguity and the offsets of the two regions
//! hold by construction of the buffer and are verified statically, where the
//! equivalent overlay on a fixed-layout aggregate would need a runtime
//! offset assertion and a process abort on mismatch.
//!
//! Alongside the buffer the builder computes the encoded length to pass to
//! bind or connect, independently of any structure size: the tag, the path
//! bytes, and one terminating nul whenever the path stops short of the
//! writable region's end.

use vstd::prelude::*;

verus! {

/// Length in bytes of the address-family tag field that precedes the path
/// region.
pub const FAMILY_LEN: usize = 2;

/// The byte at offset `i` of an address buffer with the given tag bytes,
/// fill byte, path length and total path-region size (structural capacity
/// plus extension).
pub open spec fn addr_byte_at(tag0: u8, tag1: u8, fill: u8, path_len: int, region: int, i: int) -> u8 {
    if i == 0 {
        tag0
    } else if i == 1 {
        tag1
    } else if i - FAMILY_LEN < path_len {
        fill
    } else {
        0
    }
}

/// The whole buffer an address builder call yields: tag bytes, `path_len`
/// fill bytes, zeroes up to the end of the path region.
pub open spec fn addr_bytes(tag0: u8, tag1: u8, fill: u8, path_len: int, region: int) -> Seq<u8> {
    Seq::new((FAMILY_LEN + region) as nat, |i: int| addr_byte_at(tag0, tag1, fill, path_len, region, i))
}

/// The encoded length passed alongside the buffer to bind or connect: the
/// tag, the path bytes, and the terminating nul if and only if the path
/// stops short of the region's end.
pub open spec fn encoded_len_for(path_len: int, region: int) -> int {
    FAMILY_LEN + path_len + if path_len < region { 1int } else { 0int }
}

/// A raw socket address buffer: the family tag followed by a path region of
/// `path_capacity` structural bytes and `extra_capacity` trailing bytes
/// beyond the structural field, with the explicit encoded length to hand to
/// the syscall bridge.
pub struct RawSocketAddr {
    bytes: Vec<u8>,
    path_capacity: usize,
    extra_capacity: usize,
    path_len: usize,
    encoded_len: usize,
}

impl View for RawSocketAddr {
    type V = Seq<u8>;

    closed spec fn view(&self) -> Seq<u8> {
        self.bytes@
    }
}

impl RawSocketAddr {
    /// The structural path capacity this buffer was built for.
    pub closed spec fn spec_path_capacity(&self) -> int {
        self.path_capacity as int
    }

    /// The trailing bytes past the structural path field.
    pub closed spec fn spec_extra_capacity(&self) -> int {
        self.extra_capacity as int
    }

    /// The logical path length written into the buffer.
    pub closed spec fn spec_path_len(&self) -> int {
        self.path_len as int
    }

    /// The encoded length to pass alongside the buffer.
    pub closed spec fn spec_encoded_len(&self) -> int {
        self.encoded_len as int
    }

    /// The whole writable path region: structural capacity plus extension.
    pub open spec fn spec_region(&self) -> int {
        self.spec_path_capacity() + self.spec_extra_capacity()
    }

    /// Well-formedness: the buffer is exactly one tag field and one path
    /// region, the path bytes are nonzero, everything after them is zero,
    /// and the encoded length counts tag, path, and the nul when one fits.
    pub closed spec fn wf(&self) -> bool {
        &&& self.bytes@.len() == FAMILY_LEN + self.path_capacity + self.extra_capacity
        &&& self.path_len <= self.path_capacity + self.extra_capacity
        &&& self.encoded_len == encoded_len_for(self.path_len as int, self.spec_region())
        &&& forall|i: int|
            FAMILY_LEN <= i < FAMILY_LEN + self.path_len ==> self.bytes@[i] != 0
        &&& forall|i: int|
            FAMILY_LEN + self.path_len <= i < self.bytes@.len() ==> self.bytes@[i] == 0
    }

    /// Builds an address buffer: the two tag bytes in memory order, then
    /// `path_len` copies of `fill`, then zeroes to the end of the region of
    /// `path_capacity + extra_capacity` path bytes.  With
    /// `extra_capacity == 0` this is the plain structural address; with a
    /// positive extension it is the oversized variant the capacity scan
    /// binds with.
    pub fn build(
        tag0: u8,
        tag1: u8,
        fill: u8,
        path_len: usize,
        path_capacity: usize,
        extra_capacity: usize,
    ) -> (addr: RawSocketAddr)
        requires
            fill != 0,
            path_len <= path_capacity + extra_capacity,
            FAMILY_LEN + path_capacity + extra_capacity + 1 <= usize::MAX,
        ensures
            addr.wf(),
            addr@ == addr_bytes(tag0, tag1, fill, path_len as int, (path_capacity + extra_capacity) as int),
            addr.spec_path_capacity() == path_capacity,
            addr.spec_extra_capacity() == extra_capacity,
            addr.spec_path_len() == path_len,
            addr.spec_encoded_len() == encoded_len_for(path_len as int, (path_capacity + extra_capacity) as int),
    {
        let region: usize = path_capacity + extra_capacity;
        let total: usize = FAMILY_LEN + region;
        let mut bytes: Vec<u8> = Vec::new();
        bytes.push(tag0);
        bytes.push(tag1);
        let mut i: usize = 0;
        while i < region
            invariant
                i <= region,
                total == FAMILY_LEN + region,
                total + 1 <= usize::MAX,
                path_len <= region,
                bytes@.len() == FAMILY_LEN + i,
                forall|j: int| 0 <= j < FAMILY_LEN + i
                    ==> bytes@[j] == addr_byte_at(tag0, tag1, fill, path_len as int, region as int, j),
            decreases region - i,
        {
            if i < path_len {
                bytes.push(fill);
            } else {
                bytes.push(0);
            }
            i = i + 1;
        }
        let encoded_len: usize = if path_len < region {
            FAMILY_LEN + path_len + 1
        } else {
            FAMILY_LEN + path_len
        };
        let addr = RawSocketAddr {
            bytes,
            path_capacity,
            extra_capacity,
            path_len,
            encoded_len,
        };
        proof {
            assert(addr@ =~= addr_bytes(tag0, tag1, fill, path_len as int, region as int));
        }
        addr
    }

    /// The buffer itself, to be passed verbatim, together with
    /// [`Self::encoded_len`], to the syscall bridge.
    pub fn as_bytes(&self) -> (r: &Vec<u8>)
        ensures
            r@ == self@,
    {
        &self.bytes
    }

    /// The explicit encoded length to pass alongside the buffer.
    pub fn encoded_len(&self) -> (r: usize)
        ensures
            r == self.spec_encoded_len(),
    {
        self.encoded_len
    }

    /// The logical path: the bytes of the path region up to but excluding
    /// the first nul.  Scanning for the nul recovers exactly the
    /// `path_len` fill bytes the builder wrote, since the fill byte is
    /// nonzero and everything after the path is zero.
    pub fn logical_path(&self) -> (p: Vec<u8>)
        requires
            self.wf(),
        ensures
            p@ == self@.subrange(FAMILY_LEN as int, FAMILY_LEN + self.spec_path_len()),
            p@.len() == self.spec_path_len(),
    {
        let mut p: Vec<u8> = Vec::new();
        let mut i: usize = FAMILY_LEN;
        while i < self.bytes.len() && self.bytes[i] != 0
            invariant
                self.wf(),
                FAMILY_LEN <= i <= self.bytes@.len(),
                i <= FAMILY_LEN + self.spec_path_len(),
                p@ == self@.subrange(FAMILY_LEN as int, i as int),
            decreases self.bytes@.len() - i,
        {
            p.push(self.bytes[i]);
            proof {
                assert(p@ =~= self@.subrange(FAMILY_LEN as int, i + 1));
            }
            i = i + 1;
        }
        proof {
            assert(i == FAMILY_LEN + self.spec_path_len());
        }
        p
    }
}

} // verus!
