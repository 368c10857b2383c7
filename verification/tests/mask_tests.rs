use gemm_core::masks::mask_lanes;
use gemm_core::plan::Plan;

#[test]
fn index_zero_enables_every_lane() {
    assert_eq!(mask_lanes(8, 0), vec![true; 8]);
    assert_eq!(mask_lanes(16, 0), vec![true; 16]);
    assert_eq!(mask_lanes(2, 0), vec![true; 2]);
}

#[test]
fn nonzero_index_enables_exactly_the_leading_lanes() {
    assert_eq!(
        mask_lanes(8, 7),
        vec![true, true, true, true, true, true, true, false]
    );
    assert_eq!(mask_lanes(4, 1), vec![true, false, false, false]);
    assert_eq!(mask_lanes(2, 1), vec![true, false]);
}

#[test]
fn plan_last_mask_covers_exactly_the_in_bounds_rows() {
    // m = 31 on the AVX f32 tier: the trailing lane group starts at row 24,
    // so lanes 0..7 store rows 24..31 and lane 7 would fall outside.
    let p = Plan::new_f32_avx(31, 4, 8, true);
    let ks = p.kernels.unwrap();
    let mask = mask_lanes(ks.lane_width, ks.last_mask_index);
    let group_start = ((31 - 1) / ks.lane_width) * ks.lane_width;
    assert_eq!(group_start, 24);
    for lane in 0..ks.lane_width {
        assert_eq!(mask[lane], group_start + lane < 31);
    }
    // m a multiple of the lane width: the recorded index is 0 and the whole
    // group is in bounds.
    let p = Plan::new_f64_avx512(16, 4, 4, true);
    let ks = p.kernels.unwrap();
    assert_eq!(ks.last_mask_index, 0);
    let mask = mask_lanes(ks.lane_width, ks.last_mask_index);
    let group_start = ((16 - 1) / ks.lane_width) * ks.lane_width;
    for lane in 0..ks.lane_width {
        assert_eq!(mask[lane], group_start + lane < 16);
    }
}

#[test]
fn full_mask_index_is_always_zero() {
    for p in [
        Plan::new_f32_avx(31, 4, 8, true),
        Plan::new_c32_avx(7, 2, 3, true),
        Plan::new_c64_avx512(5, 5, 5, false),
    ] {
        assert_eq!(p.kernels.unwrap().full_mask_index, 0);
    }
}
