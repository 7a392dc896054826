use thundercollective::exchange::{complete_allreduce, complete_recv, complete_send};
use thundercollective::fabric::{FaultKind, IoFault, ReduceOp, TransportError};
use thundercollective::reduce::reduce;

fn fault(code: i32) -> IoFault {
    IoFault { kind: FaultKind::Other, os_code: Some(code) }
}

fn closed() -> IoFault {
    IoFault { kind: FaultKind::ClosedEarly, os_code: None }
}

#[test]
fn reduce_sum_adds_byte_by_byte() {
    let mut buf = vec![1u8, 2, 3, 250];
    reduce(ReduceOp::Sum, &mut buf, &[10, 20, 30, 5]);
    assert_eq!(buf, vec![11, 22, 33, 255]);
}

#[test]
fn reduce_sum_wraps_modulo_256() {
    let mut buf = vec![200u8, 255, 128];
    reduce(ReduceOp::Sum, &mut buf, &[100, 1, 128]);
    assert_eq!(buf, vec![44, 0, 0]);
}

#[test]
fn reduce_of_empty_buffers_is_empty() {
    let mut buf: Vec<u8> = Vec::new();
    reduce(ReduceOp::Sum, &mut buf, &[]);
    assert!(buf.is_empty());
}

#[test]
fn reduce_leaves_bytes_without_a_partner() {
    let mut buf = vec![1u8, 2, 3];
    reduce(ReduceOp::Sum, &mut buf, &[5]);
    assert_eq!(buf, vec![6, 2, 3]);
    let mut short = vec![1u8];
    reduce(ReduceOp::Sum, &mut short, &[5, 6, 7]);
    assert_eq!(short, vec![6]);
}

#[test]
fn reduce_gives_both_ranks_the_same_bytes() {
    let a: Vec<u8> = (0..=255u8).collect();
    let b: Vec<u8> = (0..=255u8).map(|x| x.wrapping_mul(7).wrapping_add(3)).collect();
    let mut at_zero = a.clone();
    reduce(ReduceOp::Sum, &mut at_zero, &b);
    let mut at_one = b.clone();
    reduce(ReduceOp::Sum, &mut at_one, &a);
    assert_eq!(at_zero, at_one);
    for i in 0..a.len() {
        assert_eq!(at_zero[i] as u32, (a[i] as u32 + b[i] as u32) % 256);
    }
}

#[test]
fn allreduce_of_0x42_and_zero_is_0x42_on_both_ranks() {
    let len = 1 << 20;
    let mut at_zero = vec![0x42u8; len];
    let mut at_one = vec![0u8; len];
    let from_one = at_one.clone();
    let from_zero = at_zero.clone();
    let r0 = complete_allreduce(ReduceOp::Sum, &mut at_zero, &from_one, Ok(()), Ok(len));
    let r1 = complete_allreduce(ReduceOp::Sum, &mut at_one, &from_zero, Ok(()), Ok(len));
    assert_eq!(r0, Ok(()));
    assert_eq!(r1, Ok(()));
    assert!(at_zero.iter().all(|&b| b == 0x42));
    assert!(at_one.iter().all(|&b| b == 0x42));
}

#[test]
fn allreduce_reports_a_failed_send_first() {
    let mut buf = vec![1u8, 2, 3];
    let send_error = TransportError { stripe: 2, cause: fault(32) };
    let recv_error = TransportError { stripe: 0, cause: closed() };
    let done =
        complete_allreduce(ReduceOp::Sum, &mut buf, &[9, 9, 9], Err(send_error), Err(recv_error));
    assert_eq!(done, Err(send_error));
    assert_eq!(buf, vec![1, 2, 3]);
}

#[test]
fn allreduce_reports_a_failed_receive() {
    let mut buf = vec![1u8, 2, 3];
    let recv_error = TransportError { stripe: 1, cause: closed() };
    let done = complete_allreduce(ReduceOp::Sum, &mut buf, &[9, 9, 9], Ok(()), Err(recv_error));
    assert_eq!(done, Err(recv_error));
    assert_eq!(buf, vec![1, 2, 3]);
}

#[test]
fn send_succeeds_when_every_stripe_did() {
    assert_eq!(complete_send(&[Ok(()), Ok(()), Ok(())]), Ok(()));
    assert_eq!(complete_send(&[]), Ok(()));
}

#[test]
fn send_fails_with_the_first_failed_stripe() {
    let reports = [Ok(()), Err(fault(104)), Ok(()), Err(fault(32))];
    assert_eq!(complete_send(&reports), Err(TransportError { stripe: 1, cause: fault(104) }));
}

#[test]
fn recv_returns_the_length_of_the_buffer() {
    assert_eq!(complete_recv(10, &[Ok(()), Ok(()), Ok(()), Ok(())]), Ok(10));
    assert_eq!(complete_recv(0, &[Ok(())]), Ok(0));
    assert_eq!(complete_recv(usize::MAX, &[Ok(()), Ok(()), Ok(())]), Ok(usize::MAX));
}

#[test]
fn recv_fails_when_a_stream_closes_early() {
    let reports = [Ok(()), Ok(()), Err(closed()), Err(fault(104))];
    let received = complete_recv(64, &reports);
    assert_eq!(received, Err(TransportError { stripe: 2, cause: closed() }));
    assert_eq!(received.unwrap_err().cause.kind, FaultKind::ClosedEarly);
}
