//! Bump allocator over a growable byte buffer.
//!
//! Allocations return stable byte offsets into the buffer rather than raw
//! addresses, so a returned location stays meaningful for the arena's whole
//! lifetime even when the backing buffer grows and relocates.
use vstd::prelude::*;

verus! {

/// The number of zero padding bytes appended before an allocation so that the
/// value's offset is a multiple of `align`.
pub open spec fn pad_for(len: nat, align: nat) -> int
    recommends
        align >= 1,
{
    (align - (len % align)) % (align as int)
}

/// An owned growable byte buffer from which allocations are carved.
/// There is no per-allocation deallocation; the buffer is released as a whole
/// when the arena is dropped.
pub struct Arena {
    data: Vec<u8>,
}

impl View for Arena {
    type V = Seq<u8>;

    closed spec fn view(&self) -> Seq<u8> {
        self.data@
    }
}

impl Arena {
    /// Creates an empty arena.
    pub fn new() -> (a: Arena)
        ensures
            a@.len() == 0,
    {
        Arena { data: Vec::new() }
    }

    /// The number of bytes currently carved out of the arena.
    pub fn len(&self) -> (n: usize)
        ensures
            n == self@.len(),
    {
        self.data.len()
    }

    /// Appends zero padding so that the next free offset is a multiple of
    /// `align`, then appends `bytes`, and returns the aligned offset at which
    /// `bytes` now start. Returns `None` exactly when the allocation would
    /// push the buffer length past `usize::MAX`.
    pub fn allocate(&mut self, align: usize, bytes: &Vec<u8>) -> (r: Option<usize>)
        requires
            align >= 1,
        ensures
            match r {
                Some(at) => {
                    &&& at == old(self)@.len() + pad_for(old(self)@.len(), align as nat)
                    &&& (at as int) % (align as int) == 0
                    &&& final(self)@ == old(self)@ + Seq::new(
                        pad_for(old(self)@.len(), align as nat) as nat,
                        |i: int| 0u8,
                    ) + bytes@
                    &&& final(self)@.subrange(at as int, at + bytes@.len()) == bytes@
                },
                None => {
                    &&& old(self)@.len() + pad_for(old(self)@.len(), align as nat)
                        + bytes@.len() > usize::MAX
                    &&& final(self)@ == old(self)@
                },
            },
    {
        let len = self.data.len();
        let pad = (align - (len % align)) % align;
        let at = match len.checked_add(pad) {
            Some(v) => v,
            None => {
                proof {
                    lemma_pad_bound(len as nat, align as nat);
                }
                return None;
            },
        };
        match at.checked_add(bytes.len()) {
            Some(_) => {},
            None => {
                return None;
            },
        }
        proof {
            lemma_pad_bound(len as nat, align as nat);
        }
        self.data.resize(at, 0u8);
        proof {
            assert(self.data@ =~= old(self)@ + Seq::new(pad as nat, |i: int| 0u8));
        }
        self.data.extend_from_slice(bytes.as_slice());
        proof {
            assert(self.data@.subrange(at as int, at + bytes@.len()) =~= bytes@);
        }
        Some(at)
    }

    /// Copies `n` bytes back out of the arena starting at `at`: how a
    /// location handed out by `allocate` recovers its value.
    pub fn read(&self, at: usize, n: usize) -> (r: Vec<u8>)
        requires
            at + n <= self@.len(),
        ensures
            r@ == self@.subrange(at as int, at + n),
    {
        let total = self.data.len();
        let mut out: Vec<u8> = Vec::new();
        let mut i: usize = 0;
        while i < n
            invariant
                0 <= i <= n,
                at + n <= self@.len(),
                total == self@.len(),
                out@ == self@.subrange(at as int, at + i),
            decreases n - i,
        {
            out.push(self.data[at + i]);
            proof {
                assert(out@ =~= self@.subrange(at as int, at + i + 1));
            }
            i += 1;
        }
        out
    }
}

/// Padding never reaches `align`, and the padded offset is aligned.
proof fn lemma_pad_bound(len: nat, align: nat)
    requires
        align >= 1,
    ensures
        0 <= pad_for(len, align) < align,
        (len + pad_for(len, align)) % (align as int) == 0,
{
    let a = align as int;
    let l = len as int;
    let r = l % a;
    vstd::arithmetic::div_mod::lemma_mod_bound(l, a);
    if r == 0 {
        vstd::arithmetic::div_mod::lemma_mod_self_0(a);
        assert(pad_for(len, align) == 0);
    } else {
        assert((a - r) % a == a - r) by {
            vstd::arithmetic::div_mod::lemma_small_mod((a - r) as nat, align);
        }
        assert(pad_for(len, align) == a - r);
        vstd::arithmetic::div_mod::lemma_add_mod_noop(l, a - r, a);
        assert((a - r) % a == a - r);
        assert((r + (a - r)) % a == 0) by {
            vstd::arithmetic::div_mod::lemma_mod_self_0(a);
        }
        assert((l + (a - r)) % a == 0);
    }
}

} // verus!
