//! Byte-string searching and little-endian integer reads.

use vstd::prelude::*;

verus! {

/// `p` occurs in `s` starting at offset `i`.
pub open spec fn occurs_at(s: Seq<u8>, p: Seq<u8>, i: int) -> bool {
    0 <= i && i + p.len() <= s.len() && s.subrange(i, i + p.len()) == p
}

/// `p` occurs somewhere in `s`.
pub open spec fn occurs_in(s: Seq<u8>, p: Seq<u8>) -> bool {
    exists|i: int| occurs_at(s, p, i)
}

/// `s` begins with `p`.
pub open spec fn begins_with(s: Seq<u8>, p: Seq<u8>) -> bool {
    occurs_at(s, p, 0)
}

/// `s` with every leading repetition of `p` removed.
pub open spec fn strip_leading(s: Seq<u8>, p: Seq<u8>) -> Seq<u8>
    decreases s.len(),
{
    if p.len() > 0 && begins_with(s, p) {
        strip_leading(s.subrange(p.len() as int, s.len() as int), p)
    } else {
        s
    }
}

/// The unsigned number that bytes encode, least significant byte first.
pub open spec fn le_value(s: Seq<u8>) -> nat
    decreases s.len(),
{
    if s.len() == 0 {
        0
    } else {
        s[0] as nat + 256 * le_value(s.subrange(1, s.len() as int))
    }
}

/// Whether `p` occurs in `s` starting at offset `i`.
pub fn occurs_at_exec(s: &[u8], p: &[u8], i: usize) -> (r: bool)
    ensures
        r == occurs_at(s@, p@, i as int),
{
    if p.len() > s.len() || i > s.len() - p.len() {
        return false;
    }
    let mut j: usize = 0;
    while j < p.len()
        invariant
            j <= p@.len(),
            i + p@.len() <= s@.len(),
            s@.len() <= usize::MAX,
            forall|k: int| 0 <= k < j ==> s@[i + k] == p@[k],
        decreases p@.len() - j,
    {
        if s[i + j] != p[j] {
            assert(s@.subrange(i as int, i + p@.len())[j as int] != p@[j as int]);
            return false;
        }
        j = j + 1;
    }
    assert(s@.subrange(i as int, i + p@.len()) =~= p@);
    true
}

/// Whether `p` occurs somewhere in `s`.
pub fn occurs_in_exec(s: &[u8], p: &[u8]) -> (r: bool)
    ensures
        r == occurs_in(s@, p@),
{
    if p.len() > s.len() {
        return false;
    }
    let last: usize = s.len() - p.len();
    let mut i: usize = 0;
    while i < last
        invariant
            i <= last,
            last == s@.len() - p@.len(),
            forall|k: int| 0 <= k < i ==> !occurs_at(s@, p@, k),
        decreases last - i,
    {
        if occurs_at_exec(s, p, i) {
            return true;
        }
        i = i + 1;
    }
    if occurs_at_exec(s, p, last) {
        return true;
    }
    assert forall|k: int| !occurs_at(s@, p@, k) by {
        if 0 <= k && k + p@.len() <= s@.len() {
            assert(k <= last);
        }
    }
    false
}

/// Whether `s` begins with `p`.
pub fn begins_with_exec(s: &[u8], p: &[u8]) -> (r: bool)
    ensures
        r == begins_with(s@, p@),
{
    occurs_at_exec(s, p, 0)
}

/// `s` with every leading repetition of `p` removed.
pub fn strip_leading_exec(s: &[u8], p: &[u8]) -> (r: Vec<u8>)
    ensures
        r@ == strip_leading(s@, p@),
{
    let n: usize = s.len();
    let mut start: usize = 0;
    if p.len() > 0 {
        assert(s@.subrange(0, s@.len() as int) =~= s@);
        loop
            invariant
                p@.len() > 0,
                start <= s@.len(),
                s@.len() <= usize::MAX,
                strip_leading(s@, p@) == strip_leading(s@.subrange(start as int, s@.len() as int), p@),
            ensures
                start <= s@.len(),
                strip_leading(s@, p@) == strip_leading(s@.subrange(start as int, s@.len() as int), p@),
                !occurs_at(s@, p@, start as int),
            decreases s@.len() - start,
        {
            if !occurs_at_exec(s, p, start) {
                break;
            }
            let ghost rest = s@.subrange(start as int, s@.len() as int);
            assert(rest.subrange(0, p@.len() as int) =~= s@.subrange(start as int, start + p@.len()));
            assert(rest.subrange(p@.len() as int, rest.len() as int)
                =~= s@.subrange(start + p@.len(), s@.len() as int));
            start = start + p.len();
        }
        let ghost rest = s@.subrange(start as int, s@.len() as int);
        assert(!begins_with(rest, p@)) by {
            if begins_with(rest, p@) {
                assert(rest.subrange(0, p@.len() as int) =~= s@.subrange(start as int, start + p@.len()));
            }
        }
    } else {
        assert(s@.subrange(0, s@.len() as int) =~= s@);
    }
    copy_range(s, start, n)
}

/// Copies `s[from..to]`.
pub fn copy_range(s: &[u8], from: usize, to: usize) -> (r: Vec<u8>)
    requires
        from <= to <= s@.len(),
    ensures
        r@ == s@.subrange(from as int, to as int),
{
    let mut r: Vec<u8> = Vec::new();
    let mut i: usize = from;
    while i < to
        invariant
            from <= i <= to <= s@.len(),
            r@ =~= s@.subrange(from as int, i as int),
        decreases to - i,
    {
        r.push(s[i]);
        i = i + 1;
    }
    r
}

proof fn lemma_le_value_bound(s: Seq<u8>)
    ensures
        le_value(s) < pow256(s.len()),
    decreases s.len(),
{
    if s.len() > 0 {
        lemma_le_value_bound(s.subrange(1, s.len() as int));
    }
}

/// 256 to the power `n`.
pub open spec fn pow256(n: nat) -> nat
    decreases n,
{
    if n == 0 {
        1
    } else {
        256 * pow256((n - 1) as nat)
    }
}

/// Reads the unsigned number stored in `width` bytes, least significant byte
/// first, at `s[at..at + width]`.
pub fn read_le(s: &[u8], at: usize, width: usize) -> (r: u64)
    requires
        width <= 8,
        at + width <= s@.len(),
    ensures
        r as nat == le_value(s@.subrange(at as int, at + width)),
{
    // The slice's length is a usize: the loop indexes below stay in range.
    let _len: usize = s.len();
    let mut v: u64 = 0;
    let mut k: usize = width;
    while k > 0
        invariant
            k <= width <= 8,
            at + width <= s@.len(),
            s@.len() <= usize::MAX,
            v as nat == le_value(s@.subrange(at + k, at + width)),
        decreases k,
    {
        let ghost tail = s@.subrange(at + k, at + width);
        let ghost next = s@.subrange(at + k - 1, at + width);
        assert(next.subrange(1, next.len() as int) =~= tail);
        proof {
            lemma_le_value_bound(tail);
            assert(pow256(tail.len()) <= pow256(7)) by {
                lemma_pow256_mono(tail.len(), 7);
            }
            reveal_with_fuel(pow256, 8);
            assert(pow256(7) == 72057594037927936);
        }
        let b: u8 = s[at + k - 1];
        assert(v * 256 + b < 0x1_0000_0000_0000_0000) by (nonlinear_arith)
            requires
                v < 72057594037927936,
        ;
        v = v * 256 + b as u64;
        k = k - 1;
    }
    v
}

/// Copies the 32 bytes at `s[at..at + 32]`.
pub fn read_array32(s: &[u8], at: usize) -> (r: [u8; 32])
    requires
        at + 32 <= s@.len(),
    ensures
        r@ == s@.subrange(at as int, at + 32),
{
    // The slice's length is a usize: the loop indexes below stay in range.
    let _len: usize = s.len();
    let mut r: [u8; 32] = [0u8; 32];
    let mut i: usize = 0;
    while i < 32
        invariant
            i <= 32,
            at + 32 <= s@.len(),
            s@.len() <= usize::MAX,
            r@.len() == 32,
            forall|k: int| 0 <= k < i ==> r@[k] == s@[at + k],
        decreases 32 - i,
    {
        r.set(i, s[at + i]);
        i = i + 1;
    }
    assert(r@ =~= s@.subrange(at as int, at + 32));
    r
}

proof fn lemma_pow256_mono(a: nat, b: nat)
    requires
        a <= b,
    ensures
        pow256(a) <= pow256(b),
    decreases b,
{
    if a < b {
        lemma_pow256_mono(a, (b - 1) as nat);
    }
}

} // verus!
