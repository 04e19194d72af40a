//! Command mailboxes: big-endian fields placed at byte offsets of a zeroed
//! buffer.
use vstd::prelude::*;

verus! {

/// `n` zero bytes.
pub open spec fn zero_bytes(n: nat) -> Seq<u8> {
    Seq::new(n, |i: int| 0u8)
}

/// The `n` low bytes of `x`, most significant first.
pub open spec fn be_bytes(x: int, n: nat) -> Seq<u8>
    decreases n,
{
    if n == 0 {
        Seq::empty()
    } else {
        be_bytes(x / 256, (n - 1) as nat).push((x % 256) as u8)
    }
}

/// `be_bytes(x, n)` has `n` bytes.
pub proof fn lemma_be_bytes_len(x: int, n: nat)
    ensures
        be_bytes(x, n).len() == n,
    decreases n,
{
    if n > 0 {
        lemma_be_bytes_len(x / 256, (n - 1) as nat);
    }
}

/// `s` with `bytes` written over it from byte `at`.
pub open spec fn put(s: Seq<u8>, at: int, bytes: Seq<u8>) -> Seq<u8> {
    s.take(at) + bytes + s.skip(at + bytes.len())
}

/// A zeroed buffer of `n` bytes.
pub fn zeroed(n: usize) -> (r: Vec<u8>)
    ensures
        r@ == zero_bytes(n as nat),
{
    let mut r: Vec<u8> = Vec::new();
    let mut i: usize = 0;
    while i < n
        invariant
            i <= n,
            r@.len() == i,
            forall|j: int| 0 <= j < i ==> r@[j] == 0,
        decreases n - i,
    {
        r.push(0);
        i = i + 1;
    }
    assert(r@ =~= zero_bytes(n as nat));
    r
}

/// Writes the `n` low bytes of `x`, most significant first, from byte `at`
/// of `buf`.
pub fn write_be(buf: &mut Vec<u8>, at: usize, x: u64, n: usize)
    requires
        at + n <= old(buf)@.len(),
    ensures
        final(buf)@ == put(old(buf)@, at as int, be_bytes(x as int, n as nat)),
        final(buf)@.len() == old(buf)@.len(),
    decreases n,
{
    let ghost o = buf@;
    if n == 0 {
        assert(o =~= put(o, at as int, be_bytes(x as int, 0)));
    } else {
        let len = buf.len();
        assert(at + n <= len);
        buf.set(at + n - 1, (x % 256) as u8);
        let ghost b1 = buf@;
        write_be(buf, at, x / 256, n - 1);
        proof {
            lemma_be_bytes_len(x as int / 256, (n - 1) as nat);
            lemma_be_bytes_len(x as int, n as nat);
            assert(b1.take(at as int) =~= o.take(at as int));
            assert(b1.skip(at + n - 1) =~= seq![(x % 256) as u8] + o.skip(at + n));
            assert(buf@ =~= put(o, at as int, be_bytes(x as int, n as nat)));
        }
    }
}

} // verus!
