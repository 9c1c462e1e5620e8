use vstd::prelude::*;

verus! {

/// 256 to the `k`-th power: the number of values `k` bytes can hold.
pub open spec fn pow256(k: nat) -> nat
    decreases k,
{
    if k == 0 {
        1
    } else {
        256 * pow256((k - 1) as nat)
    }
}

/// The `k` little-endian bytes of `n`, low byte first.
pub open spec fn le_bytes(n: nat, k: nat) -> Seq<u8>
    decreases k,
{
    if k == 0 {
        Seq::empty()
    } else {
        seq![(n % 256) as u8] + le_bytes(n / 256, (k - 1) as nat)
    }
}

/// The value a little-endian byte sequence reads back as.
pub open spec fn le_val(b: Seq<u8>) -> nat
    decreases b.len(),
{
    if b.len() == 0 {
        0
    } else {
        b.first() as nat + 256 * le_val(b.drop_first())
    }
}

pub proof fn lemma_pow256_pos(k: nat)
    ensures
        pow256(k) >= 1,
    decreases k,
{
    if k > 0 {
        lemma_pow256_pos((k - 1) as nat);
    }
}

pub proof fn lemma_pow256_monotone(a: nat, b: nat)
    requires
        a <= b,
    ensures
        pow256(a) <= pow256(b),
    decreases b,
{
    if a < b {
        lemma_pow256_monotone(a, (b - 1) as nat);
        lemma_pow256_pos((b - 1) as nat);
    }
}

pub proof fn lemma_le_bytes_len(n: nat, k: nat)
    ensures
        le_bytes(n, k).len() == k,
    decreases k,
{
    if k > 0 {
        lemma_le_bytes_len(n / 256, (k - 1) as nat);
    }
}

/// `k` bytes can hold no value of `pow256(k)` or above.
pub proof fn lemma_le_val_bound(b: Seq<u8>)
    ensures
        le_val(b) < pow256(b.len()),
    decreases b.len(),
{
    if b.len() > 0 {
        lemma_le_val_bound(b.drop_first());
    }
}

/// Law: writing a value that fits in `k` bytes and reading it back is the
/// identity.
pub proof fn lemma_le_roundtrip(n: nat, k: nat)
    requires
        n < pow256(k),
    ensures
        le_val(le_bytes(n, k)) == n,
    decreases k,
{
    if k > 0 {
        lemma_le_bytes_len(n / 256, (k - 1) as nat);
        assert(le_bytes(n, k).drop_first() =~= le_bytes(n / 256, (k - 1) as nat));
        lemma_le_roundtrip(n / 256, (k - 1) as nat);
    }
}

/// Appends the `k`-byte little-endian form of `n` to `out`.
pub fn push_le_bytes(out: &mut Vec<u8>, n: u64, k: usize)
    ensures
        final(out)@ == old(out)@ + le_bytes(n as nat, k as nat),
    decreases k,
{
    if k == 0 {
        proof {
            assert(out@ =~= old(out)@ + le_bytes(n as nat, 0));
        }
    } else {
        out.push((n % 256) as u8);
        push_le_bytes(out, n / 256, k - 1);
        proof {
            assert(out@ =~= old(out)@ + le_bytes(n as nat, k as nat));
        }
    }
}

/// Reads the `k` little-endian bytes at `off` back as a 64-bit value.
pub fn read_le_bytes(data: &[u8], off: usize, k: usize) -> (r: u64)
    requires
        off + k <= data@.len(),
        k <= 8,
    ensures
        r as nat == le_val(data@.subrange(off as int, off as int + k)),
    decreases k,
{
    if k == 0 {
        proof {
            assert(data@.subrange(off as int, off as int).len() == 0);
        }
        0
    } else {
        let b = data[off];
        let rest = read_le_bytes(data, off + 1, k - 1);
        proof {
            let s = data@.subrange(off as int, off as int + k);
            assert(s.first() == data@[off as int]);
            assert(s.drop_first() =~= data@.subrange(off as int + 1, off as int + k));
            lemma_le_val_bound(s.drop_first());
            lemma_pow256_monotone(s.drop_first().len() as nat, 7);
            assert(pow256(0) == 1);
            assert(pow256(1) == 256);
            assert(pow256(2) == 256 * 256);
            assert(pow256(3) == 256 * pow256(2));
            assert(pow256(4) == 256 * pow256(3));
            assert(pow256(5) == 256 * pow256(4));
            assert(pow256(6) == 256 * pow256(5));
            assert(pow256(7) == 256 * pow256(6));
        }
        b as u64 + 256 * rest
    }
}

} // verus!
