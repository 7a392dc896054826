//! The partition rule: how a buffer of `len` bytes is shared out over
//! `stripes` byte streams, and how the shares fit together again.
//!
//! Every stripe carries `len / stripes` bytes and the first `len % stripes`
//! stripes carry one byte more. Shares are contiguous and follow the stripe
//! order, so both ends derive the same boundaries from `(len, stripes)` alone
//! and nothing about them travels on the wire.

use vstd::prelude::*;

verus! {

/// One stripe's share of a buffer: `len` bytes beginning at offset `start`.
#[derive(Clone, Copy, Debug, PartialEq, Eq, Structural)]
pub struct Chunk {
    pub start: usize,
    pub len: usize,
}

/// Number of bytes that stripe `i` carries of a buffer of `len` bytes.
pub open spec fn chunk_len(len: nat, stripes: nat, i: nat) -> nat {
    if i < len % stripes {
        len / stripes + 1
    } else {
        len / stripes
    }
}

/// Offset at which the share of stripe `i` begins: the bytes of all the
/// stripes before it. `chunk_start(len, stripes, stripes)` is the end of the
/// last share.
pub open spec fn chunk_start(len: nat, stripes: nat, i: nat) -> nat {
    if i < len % stripes {
        i * (len / stripes) + i
    } else {
        i * (len / stripes) + len % stripes
    }
}

/// The share of stripe `i` as it is described by a `Chunk`.
pub open spec fn is_chunk(c: Chunk, len: nat, stripes: nat, i: nat) -> bool {
    &&& c.start == chunk_start(len, stripes, i)
    &&& c.len == chunk_len(len, stripes, i)
}

/// `chunks` is the partition of `len` bytes over `stripes` stripes.
pub open spec fn is_partition(chunks: Seq<Chunk>, len: nat, stripes: nat) -> bool {
    &&& chunks.len() == stripes
    &&& forall|i: int| 0 <= i < stripes ==> is_chunk(#[trigger] chunks[i], len, stripes, i as nat)
}

/// The bytes of `bytes` that stripe `i` carries.
pub open spec fn chunk_of(bytes: Seq<u8>, stripes: nat, i: nat) -> Seq<u8> {
    bytes.subrange(
        chunk_start(bytes.len(), stripes, i) as int,
        (chunk_start(bytes.len(), stripes, i) + chunk_len(bytes.len(), stripes, i)) as int,
    )
}

/// What the sending side hands to its stripes, in stripe order.
pub open spec fn scatter(bytes: Seq<u8>, stripes: nat) -> Seq<Seq<u8>> {
    Seq::new(stripes, |i: int| chunk_of(bytes, stripes, i as nat))
}

/// What the receiving side holds once every stripe has filled its share:
/// the shares laid end to end in stripe order.
pub open spec fn gather(chunks: Seq<Seq<u8>>) -> Seq<u8> {
    chunks.flatten()
}

/// Each share begins where the one before it ends.
pub proof fn lemma_chunks_adjacent(len: nat, stripes: nat, i: nat)
    requires
        stripes > 0,
    ensures
        chunk_start(len, stripes, i + 1) == chunk_start(len, stripes, i) + chunk_len(
            len,
            stripes,
            i,
        ),
{
    let base = len / stripes;
    assert((i + 1) * base == i * base + base) by (nonlinear_arith);
}

/// The shares begin at offset zero and the last one ends at `len`.
pub proof fn lemma_chunks_span(len: nat, stripes: nat)
    requires
        stripes > 0,
    ensures
        chunk_start(len, stripes, 0) == 0,
        chunk_start(len, stripes, stripes) == len,
{
    let base = len / stripes;
    assert(0 * base == 0) by (nonlinear_arith);
    assert(len % stripes < stripes);
    assert(len == stripes * base + len % stripes) by {
        vstd::arithmetic::div_mod::lemma_fundamental_div_mod(len as int, stripes as int);
    }
}

/// Offsets grow with the stripe index.
pub proof fn lemma_chunk_start_monotonic(len: nat, stripes: nat, i: nat, j: nat)
    requires
        stripes > 0,
        i <= j,
    ensures
        chunk_start(len, stripes, i) <= chunk_start(len, stripes, j),
    decreases j - i,
{
    if i < j {
        lemma_chunk_start_monotonic(len, stripes, i, (j - 1) as nat);
        lemma_chunks_adjacent(len, stripes, (j - 1) as nat);
    }
}

/// Every share lies inside the buffer.
pub proof fn lemma_chunk_in_bounds(len: nat, stripes: nat, i: nat)
    requires
        stripes > 0,
        i < stripes,
    ensures
        chunk_start(len, stripes, i) + chunk_len(len, stripes, i) <= len,
{
    lemma_chunks_adjacent(len, stripes, i);
    lemma_chunk_start_monotonic(len, stripes, i + 1, stripes);
    lemma_chunks_span(len, stripes);
}

/// The sizes of the shares, in stripe order.
pub open spec fn chunk_sizes(len: nat, stripes: nat) -> Seq<nat> {
    Seq::new(stripes, |i: int| chunk_len(len, stripes, i as nat))
}

/// Sum of a sequence of sizes.
pub open spec fn total(sizes: Seq<nat>) -> nat
    decreases sizes.len(),
{
    if sizes.len() == 0 {
        0
    } else {
        total(sizes.drop_last()) + sizes.last()
    }
}

/// The first `k` shares together hold the first `chunk_start(len, stripes, k)`
/// bytes.
proof fn lemma_prefix_total(len: nat, stripes: nat, k: nat)
    requires
        stripes > 0,
    ensures
        total(Seq::new(k, |i: int| chunk_len(len, stripes, i as nat))) == chunk_start(
            len,
            stripes,
            k,
        ),
    decreases k,
{
    let sizes = Seq::new(k, |i: int| chunk_len(len, stripes, i as nat));
    if k == 0 {
        assert(0 * (len / stripes) == 0) by (nonlinear_arith);
    } else {
        let shorter = Seq::new((k - 1) as nat, |i: int| chunk_len(len, stripes, i as nat));
        assert(sizes.drop_last() =~= shorter);
        lemma_prefix_total(len, stripes, (k - 1) as nat);
        lemma_chunks_adjacent(len, stripes, (k - 1) as nat);
    }
}

/// The partition rule gives every length and stripe count one sequence of
/// sizes; the sizes add up to the length, and no two of them differ by more
/// than one.
pub proof fn lemma_partition_sizes(len: nat, stripes: nat)
    requires
        stripes > 0,
    ensures
        chunk_sizes(len, stripes).len() == stripes,
        total(chunk_sizes(len, stripes)) == len,
        forall|i: int, j: int|
            0 <= i < stripes && 0 <= j < stripes ==> #[trigger] chunk_sizes(len, stripes)[i]
                <= #[trigger] chunk_sizes(len, stripes)[j] + 1,
{
    lemma_prefix_total(len, stripes, stripes);
    lemma_chunks_span(len, stripes);
}

/// Two ends that agree on the length and on the stripe count derive the same
/// sizes and the same offsets, stripe by stripe.
pub proof fn lemma_partition_agreement(
    len_here: nat,
    stripes_here: nat,
    len_there: nat,
    stripes_there: nat,
)
    requires
        len_here == len_there,
        stripes_here == stripes_there,
    ensures
        chunk_sizes(len_here, stripes_here) == chunk_sizes(len_there, stripes_there),
        forall|i: nat|
            chunk_start(len_here, stripes_here, i) == chunk_start(len_there, stripes_there, i),
{
}

/// The first `k` shares of `bytes`, laid end to end, are its first
/// `chunk_start(len, stripes, k)` bytes.
proof fn lemma_prefix_gather(bytes: Seq<u8>, stripes: nat, k: nat)
    requires
        stripes > 0,
        k <= stripes,
    ensures
        chunk_start(bytes.len(), stripes, k) <= bytes.len(),
        gather(Seq::new(k, |i: int| chunk_of(bytes, stripes, i as nat))) == bytes.subrange(
            0,
            chunk_start(bytes.len(), stripes, k) as int,
        ),
    decreases k,
{
    let len = bytes.len();
    let shares = Seq::new(k, |i: int| chunk_of(bytes, stripes, i as nat));
    lemma_chunk_start_monotonic(len, stripes, k, stripes);
    lemma_chunks_span(len, stripes);
    if k == 0 {
        assert(shares =~= Seq::<Seq<u8>>::empty());
        assert(gather(shares) =~= bytes.subrange(0, 0));
    } else {
        let j = (k - 1) as nat;
        let shorter = Seq::new(j, |i: int| chunk_of(bytes, stripes, i as nat));
        lemma_prefix_gather(bytes, stripes, j);
        lemma_chunks_adjacent(len, stripes, j);
        assert(shares =~= shorter.push(chunk_of(bytes, stripes, j)));
        shorter.lemma_flatten_push(chunk_of(bytes, stripes, j));
        assert(gather(shares) =~= bytes.subrange(0, chunk_start(len, stripes, k) as int));
    }
}

/// Round trip: the shares of a buffer, each carried by its own stripe and laid
/// end to end in stripe order on arrival, are the buffer again, byte for byte.
pub proof fn lemma_round_trip(bytes: Seq<u8>, stripes: nat)
    requires
        stripes > 0,
    ensures
        scatter(bytes, stripes).len() == stripes,
        forall|i: int|
            0 <= i < stripes ==> (#[trigger] scatter(bytes, stripes)[i]).len() == chunk_len(
                bytes.len(),
                stripes,
                i as nat,
            ),
        gather(scatter(bytes, stripes)) == bytes,
{
    lemma_prefix_gather(bytes, stripes, stripes);
    lemma_chunks_span(bytes.len(), stripes);
    assert(bytes.subrange(0, bytes.len() as int) =~= bytes);
    assert forall|i: int| 0 <= i < stripes implies (#[trigger] scatter(bytes, stripes)[i]).len()
        == chunk_len(bytes.len(), stripes, i as nat) by {
        lemma_chunk_in_bounds(bytes.len(), stripes, i as nat);
    }
}

/// Delivery: where every stripe hands the receiving side exactly the share
/// that the sending side gave it, the receiving side ends with the bytes that
/// were sent.
pub proof fn lemma_delivery(sent: Seq<u8>, arrived: Seq<Seq<u8>>, stripes: nat)
    requires
        stripes > 0,
        arrived.len() == stripes,
        forall|i: int| 0 <= i < stripes ==> #[trigger] arrived[i] == chunk_of(sent, stripes, i as nat),
    ensures
        gather(arrived) == sent,
{
    assert(arrived =~= scatter(sent, stripes));
    lemma_round_trip(sent, stripes);
}

/// The partition of a buffer of `len` bytes over `stripes` stripes, in stripe
/// order.
pub fn partition(len: usize, stripes: usize) -> (chunks: Vec<Chunk>)
    requires
        stripes > 0,
    ensures
        is_partition(chunks@, len as nat, stripes as nat),
{
    let base = len / stripes;
    let rem = len % stripes;
    let mut chunks: Vec<Chunk> = Vec::new();
    let mut start: usize = 0;
    let mut i: usize = 0;
    proof {
        lemma_chunks_span(len as nat, stripes as nat);
    }
    while i < stripes
        invariant
            stripes > 0,
            i <= stripes,
            base == len / stripes,
            rem == len % stripes,
            start == chunk_start(len as nat, stripes as nat, i as nat),
            chunks@.len() == i,
            forall|k: int|
                0 <= k < i ==> is_chunk(#[trigger] chunks@[k], len as nat, stripes as nat, k as nat),
        decreases stripes - i,
    {
        proof {
            lemma_chunk_in_bounds(len as nat, stripes as nat, i as nat);
            lemma_chunks_adjacent(len as nat, stripes as nat, i as nat);
        }
        let n: usize = if i < rem {
            base + 1
        } else {
            base
        };
        chunks.push(Chunk { start, len: n });
        start = start + n;
        i = i + 1;
    }
    chunks
}

/// The shares of `buf`, one per stripe and in stripe order, for the sending
/// side to write out. The slices borrow from `buf`; nothing is copied.
pub fn split<'a>(buf: &'a [u8], stripes: usize) -> (chunks: Vec<&'a [u8]>)
    requires
        stripes > 0,
    ensures
        chunks@.len() == stripes,
        forall|i: int| 0 <= i < stripes ==> (#[trigger] chunks@[i])@ == chunk_of(buf@, stripes as nat, i as nat),
{
    let len = buf.len();
    let base = len / stripes;
    let rem = len % stripes;
    let mut chunks: Vec<&'a [u8]> = Vec::new();
    let mut start: usize = 0;
    let mut i: usize = 0;
    proof {
        lemma_chunks_span(len as nat, stripes as nat);
    }
    while i < stripes
        invariant
            stripes > 0,
            i <= stripes,
            len == buf@.len(),
            base == len / stripes,
            rem == len % stripes,
            start == chunk_start(len as nat, stripes as nat, i as nat),
            chunks@.len() == i,
            forall|k: int|
                0 <= k < i ==> (#[trigger] chunks@[k])@ == chunk_of(buf@, stripes as nat, k as nat),
        decreases stripes - i,
    {
        proof {
            lemma_chunk_in_bounds(len as nat, stripes as nat, i as nat);
            lemma_chunks_adjacent(len as nat, stripes as nat, i as nat);
        }
        let n: usize = if i < rem {
            base + 1
        } else {
            base
        };
        let chunk = vstd::slice::slice_subrange(buf, start, start + n);
        chunks.push(chunk);
        start = start + n;
        i = i + 1;
    }
    chunks
}

/// The shares of `buf`, one per stripe and in stripe order, for the receiving
/// side to fill. Whatever is written through the returned slices is, laid end
/// to end, what `buf` holds afterwards.
pub fn split_mut<'a>(buf: &'a mut [u8], stripes: usize) -> (chunks: Vec<&'a mut [u8]>)
    requires
        stripes > 0,
    ensures
        chunks@.len() == stripes,
        forall|i: int| 0 <= i < stripes ==> (*chunks@[i])@ == #[trigger] chunk_of(old(buf)@, stripes as nat, i as nat),
        final(buf)@ == gather(Seq::new(stripes as nat, |i: int| (*final(chunks@[i]))@)),
{
    let ghost whole = buf@;
    let ghost filled = final(buf)@;
    let len = buf.len();
    let base = len / stripes;
    let rem = len % stripes;
    let mut chunks: Vec<&'a mut [u8]> = Vec::new();
    let mut rest: &'a mut [u8] = buf;
    let mut start: usize = 0;
    let mut i: usize = 0;
    proof {
        lemma_chunks_span(len as nat, stripes as nat);
        assert(rest@ == whole.subrange(0, len as int));
    }
    while i < stripes
        invariant
            stripes > 0,
            i <= stripes,
            len == whole.len(),
            base == len / stripes,
            rem == len % stripes,
            start == chunk_start(len as nat, stripes as nat, i as nat),
            start <= len,
            chunks@.len() == i,
            rest@ == whole.subrange(start as int, len as int),
            forall|k: int| 0 <= k < i ==> (*chunks@[k])@ == #[trigger] chunk_of(whole, stripes as nat, k as nat),
            filled == gather(Seq::new(i as nat, |k: int| (*final(chunks@[k]))@)) + (*final(rest))@,
        decreases stripes - i,
    {
        proof {
            lemma_chunk_in_bounds(len as nat, stripes as nat, i as nat);
            lemma_chunks_adjacent(len as nat, stripes as nat, i as nat);
        }
        let n: usize = if i < rem {
            base + 1
        } else {
            base
        };
        let ghost before = Seq::new(i as nat, |k: int| (*final(chunks@[k]))@);
        let (head, tail) = rest.split_at_mut(n);
        let ghost head_filled = (*final(head))@;
        let ghost tail_filled = (*final(tail))@;
        chunks.push(head);
        rest = tail;
        start = start + n;
        i = i + 1;
        proof {
            let after = Seq::new(i as nat, |k: int| (*final(chunks@[k]))@);
            assert(after =~= before.push(head_filled));
            before.lemma_flatten_push(head_filled);
            assert(filled =~= gather(after) + tail_filled);
        }
    }
    chunks
}

} // verus!
