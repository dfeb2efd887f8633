use variance::lanes::{group_count, lane_group, tail_len, LANES};

#[test]
fn a_group_has_four_lanes() {
    assert_eq!(LANES, 4);
}

#[test]
fn group_count_is_the_length_over_four() {
    assert_eq!(group_count(0), 0);
    assert_eq!(group_count(1), 0);
    assert_eq!(group_count(3), 0);
    assert_eq!(group_count(4), 1);
    assert_eq!(group_count(7), 1);
    assert_eq!(group_count(8), 2);
    assert_eq!(group_count(1001), 250);
    assert_eq!(group_count(usize::MAX), usize::MAX / 4);
}

#[test]
fn tail_len_is_what_the_groups_leave_out() {
    assert_eq!(tail_len(0), 0);
    assert_eq!(tail_len(1), 1);
    assert_eq!(tail_len(2), 2);
    assert_eq!(tail_len(3), 3);
    assert_eq!(tail_len(4), 0);
    assert_eq!(tail_len(6), 2);
    assert_eq!(tail_len(1001), 1);
    for len in 0usize..64 {
        assert_eq!(4 * group_count(len) + tail_len(len), len);
        assert!(tail_len(len) < 4);
    }
}

#[test]
fn lane_group_reads_four_neighbours_in_order() {
    let v: Vec<f32> = vec![2.0, 4.0, 4.0, 4.0, 5.0, 5.0, 7.0, 9.0];
    assert_eq!(group_count(v.len()), 2);
    assert_eq!(lane_group(&v, 0), [2.0, 4.0, 4.0, 4.0]);
    assert_eq!(lane_group(&v, 1), [5.0, 5.0, 7.0, 9.0]);
}

#[test]
fn lane_group_leaves_the_tail_alone() {
    let v: Vec<u32> = (0..11).collect();
    assert_eq!(group_count(v.len()), 2);
    assert_eq!(tail_len(v.len()), 3);
    assert_eq!(lane_group(&v, 0), [0, 1, 2, 3]);
    assert_eq!(lane_group(&v, 1), [4, 5, 6, 7]);
}

#[test]
fn lanes_visit_every_element_of_a_whole_sequence_once() {
    let v: Vec<u64> = (0..40).map(|i| 3 * i + 1).collect();
    assert_eq!(tail_len(v.len()), 0);
    let mut seen: Vec<u64> = Vec::new();
    let mut lane_sums = [0u64; 4];
    for g in 0..group_count(v.len()) {
        let q = lane_group(&v, g);
        for k in 0..LANES {
            assert_eq!(q[k], v[4 * g + k]);
            lane_sums[k] += q[k];
            seen.push(q[k]);
        }
    }
    assert_eq!(seen, v);
    let total: u64 = v.iter().sum();
    assert_eq!(lane_sums.iter().sum::<u64>(), total);
}

#[test]
fn lane_sums_of_a_ragged_sequence_miss_the_tail() {
    let v: Vec<i64> = vec![1, 2, 3, 4, 5, 6, 7, 8, 100, 200];
    let mut sum = 0i64;
    for g in 0..group_count(v.len()) {
        let q = lane_group(&v, g);
        sum += q[0] + q[1] + q[2] + q[3];
    }
    assert_eq!(sum, 36);
    assert_eq!(tail_len(v.len()), 2);
}
