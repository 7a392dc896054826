use thundercollective::stripe::{partition, split, split_mut, Chunk};

#[test]
fn partition_shares_ten_bytes_over_four_stripes() {
    let plan = partition(10, 4);
    assert_eq!(
        plan,
        vec![
            Chunk { start: 0, len: 3 },
            Chunk { start: 3, len: 3 },
            Chunk { start: 6, len: 2 },
            Chunk { start: 8, len: 2 },
        ]
    );
}

#[test]
fn partition_of_an_empty_buffer_has_empty_shares() {
    let plan = partition(0, 3);
    assert_eq!(plan, vec![Chunk { start: 0, len: 0 }; 3]);
}

#[test]
fn partition_with_more_stripes_than_bytes() {
    let plan = partition(2, 5);
    let sizes: Vec<usize> = plan.iter().map(|c| c.len).collect();
    assert_eq!(sizes, vec![1, 1, 0, 0, 0]);
    assert_eq!(plan[4].start, 2);
}

#[test]
fn partition_over_one_stripe_is_the_whole_buffer() {
    assert_eq!(partition(1 << 20, 1), vec![Chunk { start: 0, len: 1 << 20 }]);
}

#[test]
fn partition_is_the_same_on_every_call() {
    assert_eq!(partition(1_000_003, 7), partition(1_000_003, 7));
}

#[test]
fn partition_sizes_add_up_and_differ_by_at_most_one() {
    for len in 0..200usize {
        for stripes in 1..17usize {
            let plan = partition(len, stripes);
            assert_eq!(plan.len(), stripes);
            let sum: usize = plan.iter().map(|c| c.len).sum();
            assert_eq!(sum, len);
            let most = plan.iter().map(|c| c.len).max().unwrap();
            let least = plan.iter().map(|c| c.len).min().unwrap();
            assert!(most - least <= 1);
            let mut next = 0;
            for c in &plan {
                assert_eq!(c.start, next);
                next += c.len;
            }
        }
    }
}

#[test]
fn partition_of_the_largest_length() {
    let plan = partition(usize::MAX, 2);
    assert_eq!(plan[0], Chunk { start: 0, len: usize::MAX / 2 + 1 });
    assert_eq!(plan[1], Chunk { start: usize::MAX / 2 + 1, len: usize::MAX / 2 });
}

#[test]
fn split_hands_out_the_shares_in_order() {
    let buf: Vec<u8> = (0..10).collect();
    let chunks = split(&buf, 4);
    assert_eq!(chunks, vec![&[0u8, 1, 2][..], &[3, 4, 5][..], &[6, 7][..], &[8, 9][..]]);
}

#[test]
fn split_mut_writes_land_in_the_buffer() {
    let mut buf = vec![0u8; 5];
    {
        let mut chunks = split_mut(&mut buf, 2);
        assert_eq!(chunks[0].len(), 3);
        assert_eq!(chunks[1].len(), 2);
        chunks[0].copy_from_slice(&[1, 2, 3]);
        chunks[1].copy_from_slice(&[4, 5]);
    }
    assert_eq!(buf, vec![1, 2, 3, 4, 5]);
}

#[test]
fn striped_round_trip_gives_back_the_buffer() {
    for len in [0usize, 1, 2, 7, 64, 1000, 4099] {
        for stripes in [1usize, 2, 3, 4, 8, 13] {
            let sent: Vec<u8> = (0..len).map(|i| (i * 31 + 7) as u8).collect();
            let wires: Vec<Vec<u8>> = split(&sent, stripes).into_iter().map(|c| c.to_vec()).collect();
            let mut arrived = vec![0u8; len];
            for (share, wire) in split_mut(&mut arrived, stripes).into_iter().zip(wires.iter()) {
                assert_eq!(share.len(), wire.len());
                share.copy_from_slice(wire);
            }
            assert_eq!(arrived, sent);
        }
    }
}
