use vstd::prelude::*;

verus! {

/// Four bytes, least significant first.
pub open spec fn le32(n: u32) -> Seq<u8> {
    seq![(n & 0xff) as u8, ((n >> 8u32) & 0xff) as u8, ((n >> 16u32) & 0xff) as u8, ((n >> 24u32) & 0xff) as u8]
}

/// The number that four bytes encode, least significant first.
pub open spec fn read_le32(s: Seq<u8>, pos: int) -> u32 {
    (s[pos] as u32) | ((s[pos + 1] as u32) << 8u32) | ((s[pos + 2] as u32) << 16u32) | ((s[pos + 3] as u32) << 24u32)
}

/// Eight bytes, least significant first.
pub open spec fn le64(n: u64) -> Seq<u8> {
    seq![
        (n & 0xff) as u8, ((n >> 8u64) & 0xff) as u8, ((n >> 16u64) & 0xff) as u8, ((n >> 24u64) & 0xff) as u8,
        ((n >> 32u64) & 0xff) as u8, ((n >> 40u64) & 0xff) as u8, ((n >> 48u64) & 0xff) as u8, ((n >> 56u64) & 0xff) as u8,
    ]
}

/// The number that eight bytes encode, least significant first.
pub open spec fn read_le64(s: Seq<u8>, pos: int) -> u64 {
    (s[pos] as u64) | ((s[pos + 1] as u64) << 8u64) | ((s[pos + 2] as u64) << 16u64) | ((s[pos + 3] as u64) << 24u64)
        | ((s[pos + 4] as u64) << 32u64) | ((s[pos + 5] as u64) << 40u64) | ((s[pos + 6] as u64) << 48u64)
        | ((s[pos + 7] as u64) << 56u64)
}

/// Eight bytes, most significant first.
pub open spec fn be64(n: u64) -> Seq<u8> {
    le64(n).reverse()
}

pub proof fn lemma_le32_round_trip(n: u32)
    ensures
        read_le32(le32(n), 0) == n,
{
    let a = (n & 0xff) as u8;
    let b = ((n >> 8u32) & 0xff) as u8;
    let c = ((n >> 16u32) & 0xff) as u8;
    let d = ((n >> 24u32) & 0xff) as u8;
    assert(((a as u32) | ((b as u32) << 8u32) | ((c as u32) << 16u32) | ((d as u32) << 24u32)) == n) by (bit_vector)
        requires
            a == (n & 0xff) as u8,
            b == ((n >> 8u32) & 0xff) as u8,
            c == ((n >> 16u32) & 0xff) as u8,
            d == ((n >> 24u32) & 0xff) as u8,
    ;
}

pub proof fn lemma_le64_round_trip(n: u64)
    ensures
        read_le64(le64(n), 0) == n,
{
    let b0 = (n & 0xff) as u8;
    let b1 = ((n >> 8u64) & 0xff) as u8;
    let b2 = ((n >> 16u64) & 0xff) as u8;
    let b3 = ((n >> 24u64) & 0xff) as u8;
    let b4 = ((n >> 32u64) & 0xff) as u8;
    let b5 = ((n >> 40u64) & 0xff) as u8;
    let b6 = ((n >> 48u64) & 0xff) as u8;
    let b7 = ((n >> 56u64) & 0xff) as u8;
    assert(((b0 as u64) | ((b1 as u64) << 8u64) | ((b2 as u64) << 16u64) | ((b3 as u64) << 24u64)
        | ((b4 as u64) << 32u64) | ((b5 as u64) << 40u64) | ((b6 as u64) << 48u64) | ((b7 as u64) << 56u64)) == n)
        by (bit_vector)
        requires
            b0 == (n & 0xff) as u8,
            b1 == ((n >> 8u64) & 0xff) as u8,
            b2 == ((n >> 16u64) & 0xff) as u8,
            b3 == ((n >> 24u64) & 0xff) as u8,
            b4 == ((n >> 32u64) & 0xff) as u8,
            b5 == ((n >> 40u64) & 0xff) as u8,
            b6 == ((n >> 48u64) & 0xff) as u8,
            b7 == ((n >> 56u64) & 0xff) as u8,
    ;
}

/// Distinct numbers have distinct big-endian encodings.
pub proof fn lemma_be64_injective(i: u64, j: u64)
    requires
        i != j,
    ensures
        be64(i) != be64(j),
{
    if be64(i) == be64(j) {
        assert(le64(i) =~= be64(i).reverse());
        assert(le64(j) =~= be64(j).reverse());
        lemma_le64_round_trip(i);
        lemma_le64_round_trip(j);
    }
}

pub fn push_le32(out: &mut Vec<u8>, n: u32)
    ensures
        final(out)@ == old(out)@ + le32(n),
{
    out.push((n & 0xff) as u8);
    out.push(((n >> 8u32) & 0xff) as u8);
    out.push(((n >> 16u32) & 0xff) as u8);
    out.push(((n >> 24u32) & 0xff) as u8);
    assert(final(out)@ =~= old(out)@ + le32(n));
}

pub fn push_le64(out: &mut Vec<u8>, n: u64)
    ensures
        final(out)@ == old(out)@ + le64(n),
{
    let mut k: u64 = 0;
    let ghost start = out@;
    while k < 8
        invariant
            k <= 8,
            out@.len() == start.len() + k,
            out@.subrange(0, start.len() as int) == start,
            forall|j: int| 0 <= j < k ==> out@[start.len() + j] == #[trigger] le64(n)[j],
        decreases 8 - k,
    {
        let byte = ((n >> (8 * k)) & 0xff) as u8;
        assert(k == 0 ==> byte == (n & 0xff) as u8) by (bit_vector)
            requires byte == ((n >> (8 * k)) & 0xff) as u8;
        out.push(byte);
        assert(out@.subrange(0, start.len() as int) =~= start);
        proof {
            let kk = k;
            assert(le64(n)[kk as int] == byte) by {
                if kk == 0 {
                } else if kk == 1 {
                } else if kk == 2 {
                } else if kk == 3 {
                } else if kk == 4 {
                } else if kk == 5 {
                } else if kk == 6 {
                } else {
                }
            }
        }
        k = k + 1;
    }
    assert(out@ =~= start + le64(n));
}

/// Appends the big-endian bytes of `n`.
pub fn be64_bytes(n: u64) -> (r: Vec<u8>)
    ensures
        r@ == be64(n),
{
    let mut le: Vec<u8> = Vec::new();
    push_le64(&mut le, n);
    let mut r: Vec<u8> = Vec::new();
    let mut i: usize = 8;
    while i > 0
        invariant
            i <= 8,
            le@ == le64(n),
            r@ =~= le64(n).reverse().subrange(0, 8 - i as int),
        decreases i,
    {
        i = i - 1;
        r.push(le[i]);
    }
    r
}

/// Copies `s[start..end]`.
pub fn copy_range(s: &Vec<u8>, start: usize, end: usize) -> (r: Vec<u8>)
    requires
        start <= end <= s@.len(),
    ensures
        r@ == s@.subrange(start as int, end as int),
{
    let mut r: Vec<u8> = Vec::new();
    let mut i: usize = start;
    while i < end
        invariant
            start <= i <= end <= s@.len(),
            r@ =~= s@.subrange(start as int, i as int),
        decreases end - i,
    {
        r.push(s[i]);
        i = i + 1;
    }
    r
}

/// Appends all of `s`.
pub fn push_all(out: &mut Vec<u8>, s: &Vec<u8>)
    ensures
        final(out)@ == old(out)@ + s@,
{
    let ghost start = out@;
    let mut i: usize = 0;
    while i < s.len()
        invariant
            i <= s@.len(),
            out@ =~= start + s@.subrange(0, i as int),
        decreases s@.len() - i,
    {
        out.push(s[i]);
        i = i + 1;
    }
    assert(s@.subrange(0, s@.len() as int) =~= s@);
}

pub fn read_u32_at(s: &Vec<u8>, pos: usize) -> (r: u32)
    requires
        pos + 4 <= s@.len(),
    ensures
        r == read_le32(s@, pos as int),
{
    let _n: usize = s.len();
    (s[pos] as u32) | ((s[pos + 1] as u32) << 8u32) | ((s[pos + 2] as u32) << 16u32) | ((s[pos + 3] as u32) << 24u32)
}

pub fn read_u64_at(s: &Vec<u8>, pos: usize) -> (r: u64)
    requires
        pos + 8 <= s@.len(),
    ensures
        r == read_le64(s@, pos as int),
{
    let _n: usize = s.len();
    (s[pos] as u64) | ((s[pos + 1] as u64) << 8u64) | ((s[pos + 2] as u64) << 16u64) | ((s[pos + 3] as u64) << 24u64)
        | ((s[pos + 4] as u64) << 32u64) | ((s[pos + 5] as u64) << 40u64) | ((s[pos + 6] as u64) << 48u64)
        | ((s[pos + 7] as u64) << 56u64)
}

/// A copy of `s`.
pub fn dup(s: &Vec<u8>) -> (r: Vec<u8>)
    ensures
        r@ == s@,
{
    let r = copy_range(s, 0, s.len());
    assert(s@.subrange(0, s@.len() as int) =~= s@);
    r
}

pub fn bytes_equal(a: &Vec<u8>, b: &Vec<u8>) -> (r: bool)
    ensures
        r == (a@ == b@),
{
    if a.len() != b.len() {
        return false;
    }
    let mut i: usize = 0;
    while i < a.len()
        invariant
            a@.len() == b@.len(),
            i <= a@.len(),
            forall|j: int| 0 <= j < i ==> a@[j] == b@[j],
        decreases a@.len() - i,
    {
        if a[i] != b[i] {
            return false;
        }
        i = i + 1;
    }
    assert(a@ =~= b@);
    true
}

} // verus!
