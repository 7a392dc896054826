//! Element-wise reduction of a local buffer with the buffer received from the
//! peer.

use crate::fabric::ReduceOp;
use vstd::prelude::*;

verus! {

/// One output byte: the local byte combined with the byte received.
pub open spec fn combine(op: ReduceOp, local: u8, incoming: u8) -> u8 {
    match op {
        ReduceOp::Sum => ((local + incoming) % 256) as u8,
    }
}

/// The local buffer after the reduction. Where the two buffers differ in
/// length, the bytes that have no partner keep their value.
pub open spec fn reduced(op: ReduceOp, local: Seq<u8>, incoming: Seq<u8>) -> Seq<u8> {
    Seq::new(
        local.len(),
        |i: int|
            if i < incoming.len() {
                combine(op, local[i], incoming[i])
            } else {
                local[i]
            },
    )
}

/// Replaces each byte of `buf` by its combination with the byte of `incoming`
/// at the same index.
pub fn reduce(op: ReduceOp, buf: &mut [u8], incoming: &[u8])
    ensures
        final(buf)@ == reduced(op, old(buf)@, incoming@),
{
    let ghost before = buf@;
    let n = if buf.len() < incoming.len() {
        buf.len()
    } else {
        incoming.len()
    };
    let mut i: usize = 0;
    while i < n
        invariant
            i <= n,
            n <= before.len(),
            n <= incoming@.len(),
            n == before.len() || n == incoming@.len(),
            buf@.len() == before.len(),
            forall|k: int| 0 <= k < i ==> buf@[k] == combine(op, before[k], incoming@[k]),
            forall|k: int| i <= k < before.len() ==> buf@[k] == before[k],
        decreases n - i,
    {
        let sum = match op {
            ReduceOp::Sum => buf[i].wrapping_add(incoming[i]),
        };
        buf[i] = sum;
        i = i + 1;
    }
    assert(buf@ =~= reduced(op, before, incoming@));
}

/// Both ranks of an exchange end with the same bytes: when one reduces its
/// buffer `a` with the other's `b` and the other reduces `b` with `a`, each
/// holds `(a[i] + b[i]) mod 256` at every index.
pub proof fn lemma_sum_agrees(a: Seq<u8>, b: Seq<u8>)
    requires
        a.len() == b.len(),
    ensures
        reduced(ReduceOp::Sum, a, b) == reduced(ReduceOp::Sum, b, a),
        reduced(ReduceOp::Sum, a, b).len() == a.len(),
        forall|i: int|
            0 <= i < a.len() ==> #[trigger] reduced(ReduceOp::Sum, a, b)[i] == (a[i] + b[i]) % 256,
{
    assert(reduced(ReduceOp::Sum, a, b) =~= reduced(ReduceOp::Sum, b, a));
}

} // verus!
