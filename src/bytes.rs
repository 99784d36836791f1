use vstd::prelude::*;

verus! {

/// The little-endian value of the `n` bytes of `s` from `off` (`n` is 1, 2
/// or 4).
pub open spec fn le_value(s: Seq<u8>, off: int, n: nat) -> u32 {
    if n == 1 {
        s[off] as u32
    } else if n == 2 {
        (s[off] + 0x100 * s[off + 1]) as u32
    } else {
        (s[off] + 0x100 * s[off + 1] + 0x1_0000 * s[off + 2] + 0x100_0000 * s[off + 3]) as u32
    }
}

/// Byte `k` (0 is the least significant) of `v`.
pub open spec fn byte_of(v: u32, k: int) -> u8 {
    ((v >> ((8 * k) as u32)) & 0xff) as u8
}

/// `s` with its `n` bytes from `off` replaced by the low `n` bytes of `v`,
/// least significant first.
pub open spec fn put_le(s: Seq<u8>, off: int, n: nat, v: u32) -> Seq<u8> {
    Seq::new(s.len(), |i: int| if off <= i < off + n { byte_of(v, i - off) } else { s[i] })
}

/// The low `n` bytes of `v` (`n` is 1, 2 or 4).
pub open spec fn low_bytes(v: u32, n: nat) -> u32 {
    if n == 1 {
        v & 0xff
    } else if n == 2 {
        v & 0xffff
    } else {
        v
    }
}

/// Reads the little-endian value of `n` bytes of `s` from `off`.
pub(crate) fn read_le(s: &Vec<u8>, off: usize, n: usize) -> (r: u32)
    requires
        n == 1 || n == 2 || n == 4,
        off + n <= s@.len(),
    ensures
        r == le_value(s@, off as int, n as nat),
{
    let _len = s.len();
    let b0 = s[off];
    if n == 1 {
        return b0 as u32;
    }
    let b1 = s[off + 1];
    if n == 2 {
        let r = (b0 as u32) | ((b1 as u32) << 8);
        assert(r == (b0 + 0x100 * b1) as u32) by (bit_vector)
            requires
                r == (b0 as u32) | ((b1 as u32) << 8),
        ;
        return r;
    }
    let b2 = s[off + 2];
    let b3 = s[off + 3];
    let r = (b0 as u32) | ((b1 as u32) << 8) | ((b2 as u32) << 16) | ((b3 as u32) << 24);
    assert(r == (b0 + 0x100 * b1 + 0x1_0000 * b2 + 0x100_0000 * b3) as u32) by (bit_vector)
        requires
            r == (b0 as u32) | ((b1 as u32) << 8) | ((b2 as u32) << 16) | ((b3 as u32) << 24),
    ;
    r
}

/// Writes the low `n` bytes of `v` into `s` from `off`, least significant
/// first.
pub(crate) fn write_le(s: &mut Vec<u8>, off: usize, n: usize, v: u32)
    requires
        n == 1 || n == 2 || n == 4,
        off + n <= old(s)@.len(),
    ensures
        final(s)@ == put_le(old(s)@, off as int, n as nat, v),
{
    let ghost s0 = s@;
    let _len = s.len();
    assert(v as u8 == byte_of(v, 0)) by (bit_vector);
    s.set(off, #[verifier::truncate] (v as u8));
    if n >= 2 {
        assert((v >> 8) as u8 == byte_of(v, 1)) by (bit_vector);
        s.set(off + 1, #[verifier::truncate] ((v >> 8) as u8));
    }
    if n == 4 {
        assert((v >> 16) as u8 == byte_of(v, 2)) by (bit_vector);
        assert((v >> 24) as u8 == byte_of(v, 3)) by (bit_vector);
        s.set(off + 2, #[verifier::truncate] ((v >> 16) as u8));
        s.set(off + 3, #[verifier::truncate] ((v >> 24) as u8));
    }
    assert(s@ =~= put_le(s0, off as int, n as nat, v));
}

/// Writing `n` bytes and reading them back gives the low `n` bytes of the
/// value written.
pub proof fn lemma_put_le_then_le_value(s: Seq<u8>, off: int, n: nat, v: u32)
    requires
        n == 1 || n == 2 || n == 4,
        0 <= off,
        off + n <= s.len(),
    ensures
        le_value(put_le(s, off, n, v), off, n) == low_bytes(v, n),
{
    let t = put_le(s, off, n, v);
    if n == 1 {
        assert(t[off] == byte_of(v, 0));
        assert(byte_of(v, 0) as u32 == v & 0xff) by (bit_vector);
    } else if n == 2 {
        assert(t[off] == byte_of(v, 0) && t[off + 1] == byte_of(v, 1));
        assert((byte_of(v, 0) + 0x100 * byte_of(v, 1)) as u32 == v & 0xffff) by (bit_vector);
    } else {
        assert(t[off] == byte_of(v, 0) && t[off + 1] == byte_of(v, 1) && t[off + 2] == byte_of(
            v,
            2,
        ) && t[off + 3] == byte_of(v, 3));
        assert((byte_of(v, 0) + 0x100 * byte_of(v, 1) + 0x1_0000 * byte_of(v, 2) + 0x100_0000
            * byte_of(v, 3)) as u32 == v) by (bit_vector);
    }
}

} // verus!
