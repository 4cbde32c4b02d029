//! Generational bump arena for per-frame scratch storage.
//!
//! The arena hands out tokens instead of pointers.  A token packs a 48-bit
//! byte offset, an 8-bit generation and an 8-bit arena id into one `u64`.
//! `clean` resets the write cursor and bumps the generation, which makes
//! every previously issued token invalid: borrowing through a stale token is
//! detected instead of reading reused storage.

use vstd::prelude::*;

verus! {

/// Mask of the 48 offset bits of a packed token.
pub const OFFSET_MASK: u64 = 0x0000_ffff_ffff_ffff;

/// Mask of the 8 generation bits of a packed token.
pub const GENERATION_MASK: u64 = 0x00ff_0000_0000_0000;

/// Mask of the 8 arena-id bits of a packed token.
pub const ARENA_ID_MASK: u64 = 0xff00_0000_0000_0000;

/// Whether `a` is a valid alignment: a power of two.
pub open spec fn is_align(a: u64) -> bool {
    a > 0 && a & ((a - 1) as u64) == 0
}

/// The smallest multiple of `align` that is at least `used`, computed with
/// the usual power-of-two mask trick.
pub open spec fn spec_align_up(used: u64, align: u64) -> u64
    recommends
        is_align(align),
        used + align - 1 <= u64::MAX,
{
    ((used + align - 1) as u64) & !((align - 1) as u64)
}

/// `m` with the `b.len()` bytes starting at `off` replaced by `b`.
pub open spec fn splice(m: Seq<u8>, off: int, b: Seq<u8>) -> Seq<u8> {
    m.map(|i: int, v: u8| if off <= i < off + b.len() { b[i - off] } else { v })
}

proof fn lemma_align_up_props(used: u64, align: u64)
    requires
        is_align(align),
        used + align - 1 < 0x8000_0000_0000_0000,
    ensures
        spec_align_up(used, align) >= used,
        spec_align_up(used, align) < used + align,
{
    let r = spec_align_up(used, align);
    assert(used <= r && r < used + align) by (bit_vector)
        requires
            align > 0 && align & ((align - 1) as u64) == 0,
            used + align - 1 < 0x8000_0000_0000_0000,
            r == ((used + align - 1) as u64) & !((align - 1) as u64),
    ;
}

proof fn lemma_pack_unpack(off: u64, gen: u8, id: u8)
    requires
        off <= OFFSET_MASK,
    ensures
        (off | ((id as u64) << 56) | ((gen as u64) << 48)) & OFFSET_MASK == off,
        ((off | ((id as u64) << 56) | ((gen as u64) << 48)) & GENERATION_MASK) >> 48 == gen as u64,
        ((off | ((id as u64) << 56) | ((gen as u64) << 48)) & ARENA_ID_MASK) >> 56 == id as u64,
{
    let t = off | ((id as u64) << 56) | ((gen as u64) << 48);
    assert(t & 0x0000_ffff_ffff_ffff == off && (t & 0x00ff_0000_0000_0000) >> 48 == gen as u64 && (
    t & 0xff00_0000_0000_0000) >> 56 == id as u64) by (bit_vector)
        requires
            t == off | ((id as u64) << 56) | ((gen as u64) << 48),
            off <= 0x0000_ffff_ffff_ffffu64,
    ;
}

/// Token for one allocation: a packed offset/generation/arena-id word and
/// the allocation's size in bytes.
pub struct AllocationToken {
    token: u64,
    size: u64,
}

impl AllocationToken {
    /// The byte offset of the allocation inside its arena.
    pub closed spec fn spec_offset(&self) -> u64 {
        self.token & OFFSET_MASK
    }

    /// The size of the allocation in bytes.
    pub closed spec fn spec_size(&self) -> u64 {
        self.size
    }

    /// The generation the token was issued under.
    pub closed spec fn spec_generation(&self) -> u8 {
        ((self.token & GENERATION_MASK) >> 48) as u8
    }

    /// The id of the arena that issued the token.
    pub closed spec fn spec_arena_id(&self) -> u8 {
        ((self.token & ARENA_ID_MASK) >> 56) as u8
    }

    fn generation(&self) -> (g: u8)
        ensures
            g == self.spec_generation(),
    {
        let t = self.token;
        proof {
            assert((t & 0x00ff_0000_0000_0000) >> 48 <= 0xff) by (bit_vector);
        }
        ((t & GENERATION_MASK) >> 48) as u8
    }

    fn arena_id(&self) -> (a: u8)
        ensures
            a == self.spec_arena_id(),
    {
        let t = self.token;
        proof {
            assert((t & 0xff00_0000_0000_0000) >> 56 <= 0xff) by (bit_vector);
        }
        ((t & ARENA_ID_MASK) >> 56) as u8
    }

    fn offset(&self) -> (o: u64)
        ensures
            o == self.spec_offset(),
    {
        self.token & OFFSET_MASK
    }

    /// Whether the token still names live storage of `a`: it carries `a`'s
    /// id and current generation and its bytes lie below `a`'s write cursor.
    pub open spec fn valid_for(&self, a: &MemoryArena) -> bool {
        &&& self.spec_generation() == a.spec_generation()
        &&& self.spec_arena_id() == a.spec_arena_id()
        &&& self.spec_offset() + self.spec_size() <= a.spec_used()
    }
}

/// Token for an array allocation: as `AllocationToken`, with the element
/// size and the element count kept beside the packed word.
pub struct AllocationArrayToken {
    token: u64,
    elem_size: u64,
    size: usize,
}

impl AllocationArrayToken {
    /// The byte offset of the array inside its arena.
    pub closed spec fn spec_offset(&self) -> u64 {
        self.token & OFFSET_MASK
    }

    /// The size of one element in bytes.
    pub closed spec fn spec_elem_size(&self) -> u64 {
        self.elem_size
    }

    /// How many elements the array holds.
    pub closed spec fn spec_len(&self) -> usize {
        self.size
    }

    /// The generation the token was issued under.
    pub closed spec fn spec_generation(&self) -> u8 {
        ((self.token & GENERATION_MASK) >> 48) as u8
    }

    /// The id of the arena that issued the token.
    pub closed spec fn spec_arena_id(&self) -> u8 {
        ((self.token & ARENA_ID_MASK) >> 56) as u8
    }

    /// How many elements the array was allocated for.
    pub fn len(&self) -> (n: usize)
        ensures
            n == self.spec_len(),
    {
        self.size
    }

    fn generation(&self) -> (g: u8)
        ensures
            g == self.spec_generation(),
    {
        let t = self.token;
        proof {
            assert((t & 0x00ff_0000_0000_0000) >> 48 <= 0xff) by (bit_vector);
        }
        ((t & GENERATION_MASK) >> 48) as u8
    }

    fn arena_id(&self) -> (a: u8)
        ensures
            a == self.spec_arena_id(),
    {
        let t = self.token;
        proof {
            assert((t & 0xff00_0000_0000_0000) >> 56 <= 0xff) by (bit_vector);
        }
        ((t & ARENA_ID_MASK) >> 56) as u8
    }

    fn offset(&self) -> (o: u64)
        ensures
            o == self.spec_offset(),
    {
        self.token & OFFSET_MASK
    }

    /// The array's total size in bytes.
    pub open spec fn spec_byte_size(&self) -> int {
        self.spec_elem_size() * self.spec_len()
    }

    /// Whether the token still names live storage of `a`.
    pub open spec fn valid_for(&self, a: &MemoryArena) -> bool {
        &&& self.spec_generation() == a.spec_generation()
        &&& self.spec_arena_id() == a.spec_arena_id()
        &&& self.spec_offset() + self.spec_byte_size() <= a.spec_used()
    }
}

/// Bump allocator over one owned byte buffer, with an 8-bit generation that
/// `clean` advances to invalidate all outstanding tokens.
pub struct MemoryArena {
    data: Vec<u8>,
    size: u64,
    used: u64,
    arena_id: u8,
    generation_id: u8,
}

impl MemoryArena {
    /// The arena's bytes.
    pub closed spec fn mem(&self) -> Seq<u8> {
        self.data@
    }

    /// The arena's capacity in bytes.
    pub closed spec fn spec_size(&self) -> u64 {
        self.size
    }

    /// How many bytes are taken, padding included.
    pub closed spec fn spec_used(&self) -> u64 {
        self.used
    }

    /// The arena's id byte.
    pub closed spec fn spec_arena_id(&self) -> u8 {
        self.arena_id
    }

    /// The arena's current generation.
    pub closed spec fn spec_generation(&self) -> u8 {
        self.generation_id
    }

    /// Internal consistency: the buffer has exactly `size` bytes, the write
    /// cursor is inside it, and the capacity fits the token's 48 offset bits.
    pub closed spec fn wf(&self) -> bool {
        &&& self.data@.len() == self.size
        &&& self.used <= self.size
        &&& self.size < OFFSET_MASK
        &&& self.size <= usize::MAX
    }

    /// A fresh arena of `size` zeroed bytes with the given id, at
    /// generation 0 and with nothing allocated.
    pub fn new(size: u64, arena_id: u8) -> (a: MemoryArena)
        requires
            size < OFFSET_MASK,
            size <= usize::MAX,
        ensures
            a.wf(),
            a.spec_size() == size,
            a.spec_used() == 0,
            a.spec_arena_id() == arena_id,
            a.spec_generation() == 0,
            a.mem() == Seq::<u8>::new(size as nat, |i: int| 0u8),
    {
        let mut data: Vec<u8> = Vec::new();
        while data.len() < size as usize
            invariant
                data@.len() <= size,
                data@ == Seq::<u8>::new(data@.len(), |i: int| 0u8),
            decreases size - data@.len(),
        {
            data.push(0u8);
            proof {
                assert(data@ =~= Seq::<u8>::new(data@.len(), |i: int| 0u8));
            }
        }
        proof {
            assert(data@ =~= Seq::<u8>::new(size as nat, |i: int| 0u8));
        }
        MemoryArena { data, size, used: 0, arena_id, generation_id: 0 }
    }

    /// Reserves `size` bytes aligned to `align` and zeroes them.  The token
    /// names the reserved range under the current generation; the write
    /// cursor moves to the end of the range.
    pub fn allocate(&mut self, size: u64, align: u64) -> (t: AllocationToken)
        requires
            old(self).wf(),
            is_align(align),
            align <= 0x1_0000_0000,
            spec_align_up(old(self).spec_used(), align) + size <= old(self).spec_size(),
        ensures
            final(self).wf(),
            final(self).spec_size() == old(self).spec_size(),
            final(self).spec_arena_id() == old(self).spec_arena_id(),
            final(self).spec_generation() == old(self).spec_generation(),
            t.spec_offset() == spec_align_up(old(self).spec_used(), align),
            t.spec_offset() >= old(self).spec_used(),
            t.spec_size() == size,
            t.spec_generation() == final(self).spec_generation(),
            t.spec_arena_id() == final(self).spec_arena_id(),
            final(self).spec_used() == t.spec_offset() + size,
            t.valid_for(final(self)),
            final(self).mem() == splice(
                old(self).mem(),
                t.spec_offset() as int,
                Seq::<u8>::new(size as nat, |i: int| 0u8),
            ),
    {
        proof {
            lemma_align_up_props(self.used, align);
        }
        let aligned_offset: u64 = (self.used + align - 1) & !(align - 1);
        assert(aligned_offset == spec_align_up(self.used, align));
        assert(aligned_offset + size <= self.size);

        let off_us: usize = aligned_offset as usize;
        let size_us: usize = size as usize;
        let mut i: usize = 0;
        while i < size_us
            invariant
                self.data@.len() <= usize::MAX,
                off_us + size_us <= self.data@.len(),
                i <= size_us,
                self.data@.len() == old(self).data@.len(),
                self.size == old(self).size,
                self.used == old(self).used,
                self.arena_id == old(self).arena_id,
                self.generation_id == old(self).generation_id,
                forall|j: int|
                    0 <= j < self.data@.len() && !(off_us <= j < off_us + i) ==> self.data@[j]
                        == old(self).data@[j],
                forall|j: int| off_us <= j < off_us + i ==> self.data@[j] == 0u8,
            decreases size_us - i,
        {
            let idx: usize = off_us + i;
            self.data[idx] = 0u8;
            i = i + 1;
        }
        self.used = aligned_offset + size;

        let token = AllocationToken {
            token: (aligned_offset & OFFSET_MASK) | ((self.arena_id as u64) << 56) | ((
            self.generation_id as u64) << 48),
            size,
        };
        proof {
            lemma_pack_unpack(aligned_offset, self.generation_id, self.arena_id);
            assert(aligned_offset & OFFSET_MASK == aligned_offset) by (bit_vector)
                requires
                    aligned_offset <= 0x0000_ffff_ffff_ffffu64,
            ;
            assert(self.mem() =~= splice(
                old(self).mem(),
                aligned_offset as int,
                Seq::<u8>::new(size as nat, |i: int| 0u8),
            ));
        }
        token
    }

    /// Reserves an array of `count` elements of `elem_size` bytes each,
    /// aligned to `align`, and zeroes the whole range.
    pub fn allocate_array(&mut self, elem_size: u64, align: u64, count: usize) -> (t:
        AllocationArrayToken)
        requires
            old(self).wf(),
            is_align(align),
            align <= 0x1_0000_0000,
            spec_align_up(old(self).spec_used(), align) + elem_size * count <= old(
                self,
            ).spec_size(),
        ensures
            final(self).wf(),
            final(self).spec_size() == old(self).spec_size(),
            final(self).spec_arena_id() == old(self).spec_arena_id(),
            final(self).spec_generation() == old(self).spec_generation(),
            t.spec_offset() == spec_align_up(old(self).spec_used(), align),
            t.spec_offset() >= old(self).spec_used(),
            t.spec_elem_size() == elem_size,
            t.spec_len() == count,
            t.spec_generation() == final(self).spec_generation(),
            t.spec_arena_id() == final(self).spec_arena_id(),
            final(self).spec_used() == t.spec_offset() + elem_size * count,
            t.valid_for(final(self)),
            final(self).mem() == splice(
                old(self).mem(),
                t.spec_offset() as int,
                Seq::<u8>::new((elem_size * count) as nat, |i: int| 0u8),
            ),
    {
        let byte_size: u64 = elem_size * (count as u64);
        let inner = self.allocate(byte_size, align);
        let t = AllocationArrayToken { token: inner.token, elem_size, size: count };
        proof {
            assert(t.spec_offset() == inner.spec_offset());
            assert(t.spec_generation() == inner.spec_generation());
            assert(t.spec_arena_id() == inner.spec_arena_id());
        }
        t
    }

    /// How many bytes are taken, padding included.
    pub fn used(&self) -> (r: u64)
        ensures
            r == self.spec_used(),
    {
        self.used
    }

    /// The arena's capacity in bytes.
    pub fn size(&self) -> (r: u64)
        ensures
            r == self.spec_size(),
    {
        self.size
    }

    /// Resets the write cursor and advances the generation, wrapping at 255.
    /// The bytes themselves stay; every token issued before is invalid after.
    pub fn clean(&mut self)
        ensures
            old(self).wf() ==> final(self).wf(),
            final(self).spec_used() == 0,
            final(self).spec_size() == old(self).spec_size(),
            final(self).spec_arena_id() == old(self).spec_arena_id(),
            final(self).mem() == old(self).mem(),
            final(self).spec_generation() == (old(self).spec_generation() + 1) % 256,
    {
        self.used = 0;
        if self.generation_id == 255 {
            self.generation_id = 0;
        } else {
            self.generation_id = self.generation_id + 1;
        }
    }

    /// The bytes of the allocation `t` names.  The token must be live: a
    /// stale or foreign token is a programmer error and is ruled out here.
    pub fn borrow(&self, t: &AllocationToken) -> (r: &[u8])
        requires
            self.wf(),
            t.valid_for(self),
        ensures
            r@ == self.mem().subrange(
                t.spec_offset() as int,
                t.spec_offset() + t.spec_size(),
            ),
            r@.len() == t.spec_size(),
    {
        let off = t.offset();
        vstd::slice::slice_subrange(
            self.data.as_slice(),
            off as usize,
            (off + t.size) as usize,
        )
    }

    /// As `borrow`, but a stale or foreign token yields `None` instead.
    pub fn try_borrow(&self, t: &AllocationToken) -> (r: Option<&[u8]>)
        requires
            self.wf(),
        ensures
            match r {
                Some(b) => t.valid_for(self) && b@ == self.mem().subrange(
                    t.spec_offset() as int,
                    t.spec_offset() + t.spec_size(),
                ),
                None => !t.valid_for(self),
            },
    {
        if t.generation() == self.generation_id && t.arena_id() == self.arena_id {
            let off = t.offset();
            if off <= self.used && t.size <= self.used - off {
                Some(
                    vstd::slice::slice_subrange(
                        self.data.as_slice(),
                        off as usize,
                        (off + t.size) as usize,
                    ),
                )
            } else {
                None
            }
        } else {
            None
        }
    }

    /// Overwrites the allocation `t` names with `bytes`.  Bytes outside the
    /// allocation stay as they were.
    pub fn write(&mut self, t: &AllocationToken, bytes: &[u8])
        requires
            old(self).wf(),
            t.valid_for(old(self)),
            bytes@.len() == t.spec_size(),
        ensures
            final(self).wf(),
            final(self).spec_size() == old(self).spec_size(),
            final(self).spec_used() == old(self).spec_used(),
            final(self).spec_arena_id() == old(self).spec_arena_id(),
            final(self).spec_generation() == old(self).spec_generation(),
            t.valid_for(final(self)),
            final(self).mem() == splice(old(self).mem(), t.spec_offset() as int, bytes@),
    {
        let off = t.offset();
        let off_us: usize = off as usize;
        let mut i: usize = 0;
        while i < bytes.len()
            invariant
                self.data@.len() <= usize::MAX,
                off_us + bytes@.len() <= self.data@.len(),
                i <= bytes@.len(),
                self.data@.len() == old(self).data@.len(),
                self.size == old(self).size,
                self.used == old(self).used,
                self.arena_id == old(self).arena_id,
                self.generation_id == old(self).generation_id,
                off_us == t.spec_offset(),
                forall|j: int|
                    0 <= j < self.data@.len() && !(off_us <= j < off_us + i) ==> self.data@[j]
                        == old(self).data@[j],
                forall|j: int| off_us <= j < off_us + i ==> self.data@[j] == bytes@[j - off_us],
            decreases bytes@.len() - i,
        {
            let idx: usize = off_us + i;
            self.data[idx] = bytes[i];
            i = i + 1;
        }
        proof {
            assert(self.mem() =~= splice(old(self).mem(), t.spec_offset() as int, bytes@));
        }
    }

    /// The bytes of the array allocation `t` names.
    pub fn borrow_slice(&self, t: &AllocationArrayToken) -> (r: &[u8])
        requires
            self.wf(),
            t.valid_for(self),
        ensures
            r@ == self.mem().subrange(
                t.spec_offset() as int,
                t.spec_offset() + t.spec_byte_size(),
            ),
            r@.len() == t.spec_byte_size(),
    {
        let off = t.offset();
        let byte_size: u64 = t.elem_size * (t.size as u64);
        vstd::slice::slice_subrange(
            self.data.as_slice(),
            off as usize,
            (off + byte_size) as usize,
        )
    }

    /// As `borrow_slice`, but a stale or foreign token yields `None`.
    pub fn try_borrow_slice(&self, t: &AllocationArrayToken) -> (r: Option<&[u8]>)
        requires
            self.wf(),
        ensures
            match r {
                Some(b) => t.valid_for(self) && b@ == self.mem().subrange(
                    t.spec_offset() as int,
                    t.spec_offset() + t.spec_byte_size(),
                ),
                None => !t.valid_for(self),
            },
    {
        if t.generation() == self.generation_id && t.arena_id() == self.arena_id {
            let off = t.offset();
            match t.elem_size.checked_mul(t.size as u64) {
                Some(byte_size) => {
                    if off <= self.used && byte_size <= self.used - off {
                        Some(
                            vstd::slice::slice_subrange(
                                self.data.as_slice(),
                                off as usize,
                                (off + byte_size) as usize,
                            ),
                        )
                    } else {
                        None
                    }
                },
                None => None,
            }
        } else {
            None
        }
    }

    /// Overwrites the array allocation `t` names with `bytes`.
    pub fn write_slice(&mut self, t: &AllocationArrayToken, bytes: &[u8])
        requires
            old(self).wf(),
            t.valid_for(old(self)),
            bytes@.len() == t.spec_byte_size(),
        ensures
            final(self).wf(),
            final(self).spec_size() == old(self).spec_size(),
            final(self).spec_used() == old(self).spec_used(),
            final(self).spec_arena_id() == old(self).spec_arena_id(),
            final(self).spec_generation() == old(self).spec_generation(),
            t.valid_for(final(self)),
            final(self).mem() == splice(old(self).mem(), t.spec_offset() as int, bytes@),
    {
        let off = t.offset();
        let off_us: usize = off as usize;
        let mut i: usize = 0;
        while i < bytes.len()
            invariant
                self.data@.len() <= usize::MAX,
                off_us + bytes@.len() <= self.data@.len(),
                i <= bytes@.len(),
                self.data@.len() == old(self).data@.len(),
                self.size == old(self).size,
                self.used == old(self).used,
                self.arena_id == old(self).arena_id,
                self.generation_id == old(self).generation_id,
                off_us == t.spec_offset(),
                forall|j: int|
                    0 <= j < self.data@.len() && !(off_us <= j < off_us + i) ==> self.data@[j]
                        == old(self).data@[j],
                forall|j: int| off_us <= j < off_us + i ==> self.data@[j] == bytes@[j - off_us],
            decreases bytes@.len() - i,
        {
            let idx: usize = off_us + i;
            self.data[idx] = bytes[i];
            i = i + 1;
        }
        proof {
            assert(self.mem() =~= splice(old(self).mem(), t.spec_offset() as int, bytes@));
        }
    }
}

/// Writing a range and reading it back yields the written bytes: the
/// round-trip law behind `write` followed by `borrow`.
pub proof fn lemma_write_read_round_trip(m: Seq<u8>, off: int, b: Seq<u8>)
    requires
        0 <= off,
        off + b.len() <= m.len(),
    ensures
        splice(m, off, b).subrange(off, off + b.len()) == b,
{
    assert(splice(m, off, b).subrange(off, off + b.len()) =~= b);
}

/// Writing one range leaves every disjoint range unchanged: tokens do not
/// alias.
pub proof fn lemma_write_preserves_disjoint(m: Seq<u8>, off: int, b: Seq<u8>, lo: int, hi: int)
    requires
        0 <= off,
        off + b.len() <= m.len(),
        0 <= lo <= hi <= m.len(),
        hi <= off || off + b.len() <= lo,
    ensures
        splice(m, off, b).subrange(lo, hi) == m.subrange(lo, hi),
{
    assert(splice(m, off, b).subrange(lo, hi) =~= m.subrange(lo, hi));
}

/// After `clean` no token issued before is valid: the generation moved on,
/// and an 8-bit counter that advances by one never returns to its old value
/// in a single step.
pub proof fn lemma_clean_invalidates(t: AllocationToken, before: MemoryArena, after: MemoryArena)
    requires
        t.spec_generation() == before.spec_generation(),
        after.spec_generation() == (before.spec_generation() + 1) % 256,
    ensures
        !t.valid_for(&after),
{
}

/// Allocation is deterministic: two arenas whose write cursors agree give
/// the same offset to the same request, which is how the tokens of one
/// frame resolve to the same storage when the next frame repeats its
/// allocations after `clean`.
pub proof fn lemma_allocate_deterministic(a: MemoryArena, b: MemoryArena, align: u64)
    requires
        a.spec_used() == b.spec_used(),
    ensures
        spec_align_up(a.spec_used(), align) == spec_align_up(b.spec_used(), align),
{
}

/// Aligning an already aligned cursor moves nothing.
proof fn lemma_align_up_aligned(u: u64, a: u64)
    requires
        is_align(a),
        u & ((a - 1) as u64) == 0,
        u + a - 1 < 0x8000_0000_0000_0000,
    ensures
        spec_align_up(u, a) == u,
{
    assert(((u + a - 1) as u64) & !((a - 1) as u64) == u) by (bit_vector)
        requires
            a > 0 && a & ((a - 1) as u64) == 0,
            u & ((a - 1) as u64) == 0,
            u + a - 1 < 0x8000_0000_0000_0000,
    ;
}

proof fn lemma_sum_keeps_alignment(x: u64, y: u64, a: u64)
    requires
        is_align(a),
        x & ((a - 1) as u64) == 0,
        y & ((a - 1) as u64) == 0,
        x + y < 0x8000_0000_0000_0000,
    ensures
        ((x + y) as u64) & ((a - 1) as u64) == 0,
{
    assert(((x + y) as u64) & ((a - 1) as u64) == 0) by (bit_vector)
        requires
            a > 0 && a & ((a - 1) as u64) == 0,
            x & ((a - 1) as u64) == 0,
            y & ((a - 1) as u64) == 0,
            x + y < 0x8000_0000_0000_0000,
    ;
}

/// The write cursor after `n` equal allocations of `size` bytes at
/// alignment `align` from an empty arena: exactly what `allocate`'s
/// postcondition steps through.
pub open spec fn spec_used_after(n: nat, size: u64, align: u64) -> int
    decreases n,
{
    if n == 0 {
        0
    } else {
        spec_align_up(spec_used_after((n - 1) as nat, size, align) as u64, align) + size
    }
}

/// After `n` equal allocations from an empty arena the write cursor equals
/// the sum of the aligned sizes: with the element size a multiple of its
/// alignment (stated bitwise), every allocation starts exactly where the
/// previous one ended and padding never appears.
pub proof fn lemma_used_is_sum_of_sizes(n: nat, size: u64, align: u64)
    requires
        is_align(align),
        size & ((align - 1) as u64) == 0,
        n * size + align <= OFFSET_MASK,
    ensures
        spec_used_after(n, size, align) == n * size,
        (n * size) as u64 & ((align - 1) as u64) == 0,
    decreases n,
{
    if n == 0 {
        assert(n * size == 0) by (nonlinear_arith)
            requires
                n == 0,
        ;
        assert(0u64 & ((align - 1) as u64) == 0) by (bit_vector);
    } else {
        assert((n - 1) * size + size == n * size) by (nonlinear_arith);
        assert(0 <= (n - 1) * size <= n * size) by (nonlinear_arith)
            requires
                n >= 1,
                size >= 0,
        ;
        lemma_used_is_sum_of_sizes((n - 1) as nat, size, align);
        let prev = spec_used_after((n - 1) as nat, size, align);
        assert(prev == (n - 1) * size);
        assert(((n - 1) * size) as u64 == prev as u64);
        lemma_align_up_aligned(prev as u64, align);
        lemma_sum_keeps_alignment(prev as u64, size, align);
        assert(spec_used_after(n, size, align) == spec_align_up(prev as u64, align) + size);
        assert(spec_align_up(prev as u64, align) == prev as u64);
        assert(prev as u64 == prev);
        assert(spec_used_after(n, size, align) == prev + size);
        assert(prev + size == n * size);
        assert((prev + size) as u64 == (n * size) as u64);
    }
}

} // verus!
