//! What a striped operation amounts to once every stripe has reported: the
//! result of a send, of a receive, and of an all-reduce.
//!
//! The stripes of one operation run side by side and each reports on its own.
//! An operation succeeds only if every stripe did; otherwise it fails with the
//! error of the first stripe, in stripe order, that failed.

use crate::fabric::{IoFault, ReduceOp, TransportError};
use crate::reduce::{reduce, reduced};
use crate::stripe::{
    chunk_len, chunk_start, lemma_chunk_in_bounds, lemma_chunks_adjacent, lemma_chunks_span,
    partition,
};
use vstd::prelude::*;

verus! {

/// `error` is the failure of the first stripe, in stripe order, that failed.
pub open spec fn is_first_failure(reports: Seq<Result<(), IoFault>>, error: TransportError) -> bool {
    &&& error.stripe < reports.len()
    &&& reports[error.stripe as int] == Err::<(), IoFault>(error.cause)
    &&& forall|j: int| 0 <= j < error.stripe ==> (#[trigger] reports[j]) is Ok
}

/// Every stripe succeeded.
pub open spec fn all_ok(reports: Seq<Result<(), IoFault>>) -> bool {
    forall|j: int| 0 <= j < reports.len() ==> (#[trigger] reports[j]) is Ok
}

/// The result of a striped send whose stripes reported `reports`, in stripe
/// order.
pub fn complete_send(reports: &[Result<(), IoFault>]) -> (sent: Result<(), TransportError>)
    ensures
        sent is Ok <==> all_ok(reports@),
        sent matches Err(error) ==> is_first_failure(reports@, error),
{
    let mut i: usize = 0;
    while i < reports.len()
        invariant
            i <= reports@.len(),
            forall|j: int| 0 <= j < i ==> (#[trigger] reports@[j]) is Ok,
        decreases reports@.len() - i,
    {
        match reports[i] {
            Ok(_) => {},
            Err(cause) => {
                return Err(TransportError { stripe: i, cause });
            },
        }
        i = i + 1;
    }
    Ok(())
}

/// The result of a striped receive into a buffer of `len` bytes whose stripes
/// reported `reports`, in stripe order. On success it is the number of bytes
/// received, the sizes of all shares added up, which is `len`: a receive
/// never succeeds on a buffer that is only partly filled.
pub fn complete_recv(len: usize, reports: &[Result<(), IoFault>]) -> (received: Result<
    usize,
    TransportError,
>)
    requires
        reports@.len() > 0,
    ensures
        received is Ok <==> all_ok(reports@),
        received matches Ok(n) ==> n == len,
        received matches Err(error) ==> is_first_failure(reports@, error),
{
    let stripes = reports.len();
    let plan = partition(len, stripes);
    let mut total: usize = 0;
    let mut i: usize = 0;
    proof {
        lemma_chunks_span(len as nat, stripes as nat);
    }
    while i < stripes
        invariant
            stripes == reports@.len(),
            stripes > 0,
            i <= stripes,
            crate::stripe::is_partition(plan@, len as nat, stripes as nat),
            total == chunk_start(len as nat, stripes as nat, i as nat),
            forall|j: int| 0 <= j < i ==> (#[trigger] reports@[j]) is Ok,
        decreases stripes - i,
    {
        proof {
            lemma_chunk_in_bounds(len as nat, stripes as nat, i as nat);
            lemma_chunks_adjacent(len as nat, stripes as nat, i as nat);
        }
        match reports[i] {
            Ok(_) => {
                total = total + plan[i].len;
            },
            Err(cause) => {
                return Err(TransportError { stripe: i, cause });
            },
        }
        i = i + 1;
    }
    Ok(total)
}

/// The result of an all-reduce once both legs of the exchange are over:
/// `sent` is how the send of `buf` went and `received` how the receive into
/// `incoming` went. A failed send is reported before a failed receive. Only
/// when both succeeded is `buf` reduced with `incoming`; on failure `buf` is
/// left as it was.
pub fn complete_allreduce(
    op: ReduceOp,
    buf: &mut [u8],
    incoming: &[u8],
    sent: Result<(), TransportError>,
    received: Result<usize, TransportError>,
) -> (done: Result<(), TransportError>)
    ensures
        done is Ok <==> sent is Ok && received is Ok,
        done is Ok ==> final(buf)@ == reduced(op, old(buf)@, incoming@),
        done is Err ==> final(buf)@ == old(buf)@,
        sent matches Err(error) ==> done == Err::<(), TransportError>(error),
        sent is Ok ==> (received matches Err(error) ==> done == Err::<(), TransportError>(error)),
{
    match sent {
        Err(error) => {
            return Err(error);
        },
        Ok(_) => {},
    }
    match received {
        Err(error) => {
            return Err(error);
        },
        Ok(_) => {},
    }
    reduce(op, buf, incoming);
    Ok(())
}

} // verus!
