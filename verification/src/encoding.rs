use vstd::prelude::*;

verus! {

/// `256` raised to the power `n`.
pub open spec fn pow256(n: nat) -> nat
    decreases n,
{
    if n == 0 {
        1
    } else {
        256 * pow256((n - 1) as nat)
    }
}

/// The unsigned integer whose little-endian byte representation is `s`:
/// the sum of `s[i] * 256^i`.
pub open spec fn le_value(s: Seq<u8>) -> nat
    decreases s.len(),
{
    if s.len() == 0 {
        0
    } else {
        s[0] as nat + 256 * le_value(s.drop_first())
    }
}

/// The `n` low-order little-endian bytes of `v`.
pub open spec fn le_bytes(v: nat, n: nat) -> Seq<u8>
    decreases n,
{
    if n == 0 {
        Seq::empty()
    } else {
        seq![(v % 256) as u8] + le_bytes(v / 256, (n - 1) as nat)
    }
}

/// `s` with the bytes from `pos` on overwritten by `b`.
pub open spec fn splice(s: Seq<u8>, pos: int, b: Seq<u8>) -> Seq<u8> {
    s.take(pos) + b + s.skip(pos + b.len())
}

/// `pow256` grows with its exponent.
pub proof fn lemma_pow256_monotone(a: nat, b: nat)
    requires
        a <= b,
    ensures
        1 <= pow256(a) <= pow256(b),
    decreases b,
{
    if b > a {
        lemma_pow256_monotone(a, (b - 1) as nat);
    } else if a > 0 {
        lemma_pow256_monotone((a - 1) as nat, (a - 1) as nat);
    }
}

/// `pow256(8)` is `2^64`: every 8-byte little-endian value fits in a `u64`.
pub proof fn lemma_pow256_8()
    ensures
        pow256(8) == 0x1_0000_0000_0000_0000,
{
    reveal_with_fuel(pow256, 9);
}

/// A little-endian value of `n` bytes is below `256^n`.
pub proof fn lemma_le_value_bound(s: Seq<u8>)
    ensures
        le_value(s) < pow256(s.len()),
    decreases s.len(),
{
    if s.len() > 0 {
        lemma_le_value_bound(s.drop_first());
    }
}

/// `le_bytes` produces exactly `n` bytes.
pub proof fn lemma_le_bytes_len(v: nat, n: nat)
    ensures
        le_bytes(v, n).len() == n,
    decreases n,
{
    if n > 0 {
        lemma_le_bytes_len(v / 256, (n - 1) as nat);
    }
}

/// Decoding the little-endian bytes of a value that fits in `n` bytes gives
/// the value back.
pub proof fn lemma_le_bytes_value(v: nat, n: nat)
    requires
        v < pow256(n),
    ensures
        le_value(le_bytes(v, n)) == v,
    decreases n,
{
    lemma_le_bytes_len(v, n);
    if n > 0 {
        let s = le_bytes(v, n);
        let q = v / 256;
        let r = v % 256;
        assert(v == 256 * q + r && 0 <= r < 256) by (nonlinear_arith)
            requires
                q == v / 256,
                r == v % 256,
        ;
        assert(q < pow256((n - 1) as nat)) by (nonlinear_arith)
            requires
                v == 256 * q + r,
                0 <= r,
                v < 256 * pow256((n - 1) as nat),
        ;
        lemma_le_bytes_value(q, (n - 1) as nat);
        assert(s.drop_first() =~= le_bytes(q, (n - 1) as nat));
    }
}

/// Encoding the value of `s` in `s.len()` little-endian bytes gives `s` back.
pub proof fn lemma_value_le_bytes(s: Seq<u8>)
    ensures
        le_bytes(le_value(s), s.len()) == s,
    decreases s.len(),
{
    if s.len() > 0 {
        let rest = s.drop_first();
        lemma_value_le_bytes(rest);
        let v = le_value(s);
        let a = s[0] as nat;
        let b = le_value(rest);
        assert(v % 256 == a && v / 256 == b) by (nonlinear_arith)
            requires
                v == a + 256 * b,
                a < 256,
        ;
        lemma_le_bytes_len(v / 256, rest.len());
        assert(le_bytes(v, s.len()) =~= s);
    }
}

/// The little-endian value of two bytes is `s[0] + 256 * s[1]`.
pub proof fn lemma_le_value_2(s: Seq<u8>)
    requires
        s.len() == 2,
    ensures
        le_value(s) == s[0] + 256 * s[1],
{
    reveal_with_fuel(le_value, 3);
    assert(s.drop_first().drop_first().len() == 0);
}

/// The little-endian value of four bytes is `s[0] + 2^8 s[1] + 2^16 s[2] + 2^24 s[3]`.
pub proof fn lemma_le_value_4(s: Seq<u8>)
    requires
        s.len() == 4,
    ensures
        le_value(s) == s[0] + 0x100 * s[1] + 0x1_0000 * s[2] + 0x100_0000 * s[3],
{
    let s1 = s.drop_first();
    lemma_le_value_2(s1.drop_first());
    assert(le_value(s1) == s1[0] + 256 * le_value(s1.drop_first()));
}

/// The little-endian value of eight bytes is the sum of `s[i] * 2^(8 i)`.
pub proof fn lemma_le_value_8(s: Seq<u8>)
    requires
        s.len() == 8,
    ensures
        le_value(s) == s[0] + 0x100 * s[1] + 0x1_0000 * s[2] + 0x100_0000 * s[3] + 0x1_0000_0000
            * s[4] + 0x100_0000_0000 * s[5] + 0x1_0000_0000_0000 * s[6] + 0x100_0000_0000_0000
            * s[7],
{
    let s1 = s.drop_first();
    let s2 = s1.drop_first();
    let s3 = s2.drop_first();
    let s4 = s3.drop_first();
    lemma_le_value_4(s4);
    assert(le_value(s3) == s3[0] + 256 * le_value(s4));
    assert(le_value(s2) == s2[0] + 256 * le_value(s3));
    assert(le_value(s1) == s1[0] + 256 * le_value(s2));
}

/// Writing the little-endian bytes of a `u64` and reading them back gives the
/// value: the encoding used by the builders' `set_amount` is undone by the
/// decoding used by the views' `amount`.
pub proof fn lemma_u64_le_roundtrip(v: u64)
    ensures
        le_bytes(v as nat, 8).len() == 8,
        le_value(le_bytes(v as nat, 8)) == v,
{
    lemma_le_bytes_len(v as nat, 8);
    lemma_pow256_8();
    lemma_le_bytes_value(v as nat, 8);
}

/// Overwriting a field and reading it back gives what was written; the bytes
/// outside the field are unchanged and the length is kept.
pub proof fn lemma_splice_read_back(s: Seq<u8>, pos: int, b: Seq<u8>)
    requires
        0 <= pos,
        pos + b.len() <= s.len(),
    ensures
        splice(s, pos, b).len() == s.len(),
        splice(s, pos, b).subrange(pos, pos + b.len()) == b,
        forall|i: int|
            0 <= i < s.len() && !(pos <= i < pos + b.len()) ==> #[trigger] splice(s, pos, b)[i]
                == s[i],
{
    assert(splice(s, pos, b).subrange(pos, pos + b.len()) =~= b);
}

/// Writes to disjoint fields commute: the order in which fields are set does
/// not matter.
pub proof fn lemma_splice_commute(s: Seq<u8>, p1: int, b1: Seq<u8>, p2: int, b2: Seq<u8>)
    requires
        0 <= p1,
        p1 + b1.len() <= p2,
        p2 + b2.len() <= s.len(),
    ensures
        splice(splice(s, p1, b1), p2, b2) == splice(splice(s, p2, b2), p1, b1),
{
    assert(splice(splice(s, p1, b1), p2, b2) =~= splice(splice(s, p2, b2), p1, b1));
}

/// Reads the `len`-byte little-endian unsigned integer stored at `start`.
pub(crate) fn read_le(data: &[u8], start: usize, len: usize) -> (v: u64)
    requires
        len <= 8,
        start + len <= data@.len(),
    ensures
        v == le_value(data@.subrange(start as int, start + len)),
{
    let n: usize = data.len();
    let mut v: u64 = 0;
    let mut i: usize = len;
    proof {
        assert(data@.subrange(start + i, start + len).len() == 0);
    }
    while i > 0
        invariant
            0 <= i <= len <= 8,
            start + len <= n,
            n == data@.len(),
            v == le_value(data@.subrange(start + i, start + len)),
        decreases i,
    {
        i = i - 1;
        proof {
            let s = data@.subrange(start + i, start + len);
            assert(s.drop_first() =~= data@.subrange(start + i + 1, start + len));
            lemma_le_value_bound(s.drop_first());
            lemma_pow256_monotone(s.drop_first().len(), 7);
            reveal_with_fuel(pow256, 8);
        }
        v = v * 256 + data[start + i] as u64;
    }
    v
}

/// Writes the 8 little-endian bytes of `v` into `buf` at `pos`.
pub(crate) fn write_le_u64<const N: usize>(buf: &mut [u8; N], pos: usize, v: u64)
    requires
        pos + 8 <= N,
    ensures
        final(buf)@ == splice(old(buf)@, pos as int, le_bytes(v as nat, 8)),
{
    let ghost target = le_bytes(v as nat, 8);
    proof {
        lemma_le_bytes_len(v as nat, 8);
    }
    let mut rem: u64 = v;
    let mut i: usize = 0;
    while i < 8
        invariant
            0 <= i <= 8,
            pos + 8 <= N,
            buf@.len() == N,
            old(buf)@.len() == N,
            target == le_bytes(v as nat, 8),
            target.len() == 8,
            target.skip(i as int) == le_bytes(rem as nat, (8 - i) as nat),
            forall|k: int| 0 <= k < pos ==> buf@[k] == old(buf)@[k],
            forall|k: int| pos + 8 <= k < N ==> buf@[k] == old(buf)@[k],
            forall|k: int| 0 <= k < i ==> buf@[pos + k] == target[k],
        decreases 8 - i,
    {
        proof {
            let tail = le_bytes(rem as nat, (8 - i) as nat);
            lemma_le_bytes_len((rem / 256) as nat, (8 - i - 1) as nat);
            assert(tail[0] == (rem % 256) as u8);
            assert(target[i as int] == target.skip(i as int)[0]);
            assert(target.skip(i + 1) =~= tail.drop_first());
        }
        buf[pos + i] = (rem % 256) as u8;
        rem = rem / 256;
        i = i + 1;
    }
    assert(buf@ =~= splice(old(buf)@, pos as int, target));
}

/// Copies `src` into `buf` at `pos`.
pub(crate) fn copy_into<const N: usize>(buf: &mut [u8; N], pos: usize, src: &[u8])
    requires
        pos + src@.len() <= N,
    ensures
        final(buf)@ == splice(old(buf)@, pos as int, src@),
{
    let mut i: usize = 0;
    while i < src.len()
        invariant
            0 <= i <= src@.len(),
            pos + src@.len() <= N,
            buf@.len() == N,
            old(buf)@.len() == N,
            forall|k: int| 0 <= k < pos ==> buf@[k] == old(buf)@[k],
            forall|k: int| pos + src@.len() <= k < N ==> buf@[k] == old(buf)@[k],
            forall|k: int| 0 <= k < i ==> buf@[pos + k] == src@[k],
        decreases src@.len() - i,
    {
        buf[pos + i] = src[i];
        i = i + 1;
    }
    assert(buf@ =~= splice(old(buf)@, pos as int, src@));
}

/// Copies the 32 bytes of `data` that start at `pos` (one public key) into a new array.
pub(crate) fn copy_key_out(data: &[u8], pos: usize) -> (out: [u8; 32])
    requires
        pos + 32 <= data@.len(),
    ensures
        out@ == data@.subrange(pos as int, pos + 32),
{
    let n: usize = data.len();
    let mut out = [0u8; 32];
    let mut i: usize = 0;
    while i < 32
        invariant
            0 <= i <= 32,
            pos + 32 <= n,
            n == data@.len(),
            out@.len() == 32,
            forall|k: int| 0 <= k < i ==> out@[k] == data@[pos + k],
        decreases 32 - i,
    {
        out[i] = data[pos + i];
        i = i + 1;
    }
    assert(out@ =~= data@.subrange(pos as int, pos + 32));
    out
}

} // verus!
