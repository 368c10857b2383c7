use gemm_core::plan::{Elem, MilliKernel, Plan};
use gemm_core::MicroKernelData;
use num_complex::{Complex32, Complex64};

#[test]
fn microkernel_data_carries_the_scalar_block() {
    let data = MicroKernelData::<f32> {
        alpha: 1.0,
        beta: 2.5,
        conj_lhs: false,
        conj_rhs: false,
        k: 3,
        dst_cs: 15,
        lhs_cs: 17,
        rhs_rs: 2,
        rhs_cs: 6,
        last_mask_index: 7,
    };
    assert_eq!(data.alpha, 1.0);
    assert_eq!(data.beta, 2.5);
    assert_eq!(data.k, 3);
    assert_eq!(data.dst_cs, 15);
    assert_eq!(data.lhs_cs, 17);
    assert_eq!(data.rhs_rs, 2);
    assert_eq!(data.rhs_cs, 6);
    assert_eq!(data.last_mask_index, 7);
}

#[test]
fn microkernel_data_carries_complex_scalars() {
    let data = MicroKernelData::<Complex32> {
        alpha: Complex32::new(1.0, 0.0),
        beta: Complex32::new(2.5, 3.5),
        conj_lhs: true,
        conj_rhs: false,
        k: 3,
        dst_cs: 7,
        lhs_cs: 9,
        rhs_rs: 2,
        rhs_cs: 6,
        last_mask_index: 3,
    };
    assert!(data.conj_lhs);
    assert!(!data.conj_rhs);
    assert_eq!(data.beta, Complex32::new(2.5, 3.5));
}

#[test]
fn c64_seed_shape_plans() {
    // m = n = k = 4, column-major: on the AVX tier the c64 tile is 4 x 2,
    // a single row block, last mask index 0 (4 is a multiple of 2 lanes).
    let p = Plan::new_c64_avx(4, 4, 4, true);
    assert_eq!(p.elem, Elem::C64);
    assert_eq!(p.millikernel, MilliKernel::Direct);
    assert_eq!(p.mr, 4);
    assert_eq!(p.nr, 2);
    let ks = p.kernels.unwrap();
    assert_eq!(ks.lane_width, 2);
    assert_eq!(ks.last_mask_index, 0);
    assert_eq!(ks.interior.k_index, 3);
    let _alpha = Complex64::new(2.7, 3.7);
}

#[test]
fn c32_avx_edge_shape_plan() {
    // m = 7, n = 2, k = 3 at the AVX microkernel entry: 4 c32 lanes, tile
    // 8 x 2, one block on both edges, last mask index 7 mod 4 = 3.
    let p = Plan::new_c32_avx(7, 2, 3, true);
    assert_eq!(p.mr, 8);
    assert_eq!(p.nr, 2);
    let ks = p.kernels.unwrap();
    assert_eq!(ks.last_mask_index, 3);
    assert_eq!(ks.interior.k_index, 2);
    // The trailing MR-block holds rows 0..7: tile index (6 / 4) % 2 = 1.
    assert_eq!(ks.m_edge.mr_index, 1);
    assert_eq!(ks.mn_edge.nr_index, 1);
}
