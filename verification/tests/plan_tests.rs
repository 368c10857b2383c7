use gemm_core::plan::{Elem, Isa, MicroKernelId, MilliKernel, Plan, StrideWitness};

/// The public constructors select a tier at run time; whatever they picked,
/// the rest of the plan must be the one the per-tier constructor builds.
fn rebuild_with_isa(p: &Plan, m: usize, n: usize, k: usize, col_major: bool) -> Plan {
    match (p.elem, p.isa) {
        (Elem::F32, Isa::Scalar) => Plan::new_f32_scalar(m, n, k, col_major),
        (Elem::F32, Isa::Avx) => Plan::new_f32_avx(m, n, k, col_major),
        (Elem::F32, Isa::Avx512) => Plan::new_f32_avx512(m, n, k, col_major),
        (Elem::F64, Isa::Scalar) => Plan::new_f64_scalar(m, n, k, col_major),
        (Elem::F64, Isa::Avx) => Plan::new_f64_avx(m, n, k, col_major),
        (Elem::F64, Isa::Avx512) => Plan::new_f64_avx512(m, n, k, col_major),
        (Elem::C32, Isa::Scalar) => Plan::new_c32_scalar(m, n, k, col_major),
        (Elem::C32, Isa::Avx) => Plan::new_c32_avx(m, n, k, col_major),
        (Elem::C32, Isa::Avx512) => Plan::new_c32_avx512(m, n, k, col_major),
        (Elem::C64, Isa::Scalar) => Plan::new_c64_scalar(m, n, k, col_major),
        (Elem::C64, Isa::Avx) => Plan::new_c64_avx(m, n, k, col_major),
        (Elem::C64, Isa::Avx512) => Plan::new_c64_avx512(m, n, k, col_major),
    }
}

#[test]
fn public_constructors_match_their_tier() {
    let cases = [(31usize, 4usize, 8usize), (4, 4, 4), (1, 1, 1), (0, 5, 3), (5, 0, 3), (7, 2, 0)];
    for &(m, n, k) in &cases {
        for (p, elem, col_major) in [
            (Plan::new_colmajor_lhs_and_dst_f32(m, n, k), Elem::F32, true),
            (Plan::new_f32(m, n, k), Elem::F32, false),
            (Plan::new_colmajor_lhs_and_dst_f64(m, n, k), Elem::F64, true),
            (Plan::new_f64(m, n, k), Elem::F64, false),
            (Plan::new_colmajor_lhs_and_dst_c32(m, n, k), Elem::C32, true),
            (Plan::new_c32(m, n, k), Elem::C32, false),
            (Plan::new_colmajor_lhs_and_dst_c64(m, n, k), Elem::C64, true),
            (Plan::new_c64(m, n, k), Elem::C64, false),
        ] {
            assert_eq!(p.elem, elem);
            assert_eq!(p.m, m);
            assert_eq!(p.n, n);
            assert_eq!(p.k, k);
            assert_eq!(p, rebuild_with_isa(&p, m, n, k, col_major));
        }
    }
}

#[test]
fn f32_avx_plan_selects_the_documented_kernels() {
    let p = Plan::new_f32_avx(31, 4, 8, true);
    assert_eq!(p.mr, 16);
    assert_eq!(p.nr, 4);
    assert_eq!(p.millikernel, MilliKernel::Direct);
    let ks = p.kernels.unwrap();
    assert_eq!(ks.lane_width, 8);
    // k_index = min(k - 1, 16) = 7; full MR tile count index = 1;
    // nr edge index = (4 - 1) % 4 = 3 (a full-width column block).
    assert_eq!(ks.interior, MicroKernelId { k_index: 7, mr_index: 1, nr_index: 3 });
    assert_eq!(ks.n_edge, MicroKernelId { k_index: 7, mr_index: 1, nr_index: 3 });
    // mr edge index = ((31 - 1) / 8) % 2 = 1.
    assert_eq!(ks.m_edge, MicroKernelId { k_index: 7, mr_index: 1, nr_index: 3 });
    assert_eq!(ks.mn_edge, MicroKernelId { k_index: 7, mr_index: 1, nr_index: 3 });
    assert_eq!(ks.full_mask_index, 0);
    assert_eq!(ks.last_mask_index, 31 % 8);
}

#[test]
fn edge_indices_follow_the_shape() {
    // m = 17: the trailing MR-block holds a single lane group, so the
    // M-edge kernels use MR-tile index 0; n = 6 leaves two columns in the
    // trailing NR-block, so the N-edge kernels use column index 1.
    let p = Plan::new_f32_avx(17, 6, 20, true);
    let ks = p.kernels.unwrap();
    assert_eq!(ks.interior, MicroKernelId { k_index: 16, mr_index: 1, nr_index: 3 });
    assert_eq!(ks.n_edge, MicroKernelId { k_index: 16, mr_index: 1, nr_index: 1 });
    assert_eq!(ks.m_edge, MicroKernelId { k_index: 16, mr_index: 0, nr_index: 3 });
    assert_eq!(ks.mn_edge, MicroKernelId { k_index: 16, mr_index: 0, nr_index: 1 });
    assert_eq!(ks.last_mask_index, 17 % 8);
}

#[test]
fn tile_shapes_per_type_and_tier() {
    assert_eq!(Plan::new_f32_avx(9, 9, 9, true).mr, 16);
    assert_eq!(Plan::new_f32_avx512(9, 9, 9, true).mr, 32);
    assert_eq!(Plan::new_f64_avx(9, 9, 9, true).mr, 8);
    assert_eq!(Plan::new_f64_avx512(9, 9, 9, true).mr, 16);
    assert_eq!(Plan::new_c32_avx(9, 9, 9, true).mr, 8);
    assert_eq!(Plan::new_c32_avx512(9, 9, 9, true).mr, 16);
    assert_eq!(Plan::new_c64_avx(9, 9, 9, true).mr, 4);
    assert_eq!(Plan::new_c64_avx512(9, 9, 9, true).mr, 8);
    assert_eq!(Plan::new_f32_avx(9, 9, 9, true).nr, 4);
    assert_eq!(Plan::new_f64_avx512(9, 9, 9, true).nr, 4);
    assert_eq!(Plan::new_c32_avx(9, 9, 9, true).nr, 2);
    assert_eq!(Plan::new_c64_avx512(9, 9, 9, true).nr, 2);
}

#[test]
fn scalar_tier_has_no_kernels() {
    let p = Plan::new_c32_scalar(5, 6, 7, false);
    assert_eq!(p.millikernel, MilliKernel::Naive);
    assert_eq!(p.mr, 0);
    assert_eq!(p.nr, 0);
    assert!(p.kernels.is_none());
    assert_eq!(p.dst_rs, StrideWitness::Any);
    let q = Plan::new_f64_scalar(5, 6, 7, true);
    assert_eq!(q.millikernel, MilliKernel::Naive);
    assert_eq!(q.dst_rs, StrideWitness::Exact(1));
    assert_eq!(q.lhs_rs, StrideWitness::Exact(1));
}

#[test]
fn millikernel_selection_priorities() {
    // Empty destination: noop, whatever k or the layout says.
    assert_eq!(Plan::new_f32_avx(0, 4, 8, true).millikernel, MilliKernel::Noop);
    assert_eq!(Plan::new_f32_avx(4, 0, 0, false).millikernel, MilliKernel::Noop);
    assert_eq!(Plan::new_c64_avx512(0, 0, 9, true).millikernel, MilliKernel::Noop);
    // Empty product: fill.
    assert_eq!(Plan::new_f32_avx(4, 4, 0, true).millikernel, MilliKernel::Fill);
    assert_eq!(Plan::new_c32_avx512(7, 2, 0, false).millikernel, MilliKernel::Fill);
    // Unit-row-stride promise: direct; otherwise: copy.
    assert_eq!(Plan::new_f64_avx(4, 4, 4, true).millikernel, MilliKernel::Direct);
    assert_eq!(Plan::new_f64_avx(4, 4, 4, false).millikernel, MilliKernel::Copy);
}

#[test]
fn stride_witnesses_per_layout_class() {
    let general = Plan::new_f32_avx(31, 4, 8, false);
    assert_eq!(general.dst_rs, StrideWitness::Any);
    assert_eq!(general.dst_cs, StrideWitness::Any);
    assert_eq!(general.lhs_rs, StrideWitness::Any);
    assert_eq!(general.lhs_cs, StrideWitness::Any);
    assert_eq!(general.rhs_rs, StrideWitness::Any);
    assert_eq!(general.rhs_cs, StrideWitness::Any);
    let promised = Plan::new_f32_avx(31, 4, 8, true);
    assert_eq!(promised.dst_rs, StrideWitness::Exact(1));
    assert_eq!(promised.lhs_rs, StrideWitness::Exact(1));
    assert_eq!(promised.dst_cs, StrideWitness::Any);
    assert_eq!(promised.rhs_cs, StrideWitness::Any);
}

#[test]
fn args_match_accepts_any_strides_on_the_general_plan() {
    // The strided seed shape: dst strides (3, 44), lhs strides (2, 33),
    // rhs column-major (1, 8).
    let p = Plan::new_f32_avx(31, 4, 8, false);
    assert!(p.execute_args_match(31, 4, 8, 3, 44, 2, 33, 1, 8));
    assert!(p.execute_args_match(31, 4, 8, -3, 44, 2, -33, -1, 8));
    assert!(p.execute_args_match(31, 4, 8, 1, 31, 1, 31, 1, 8));
    // Shape mismatches are refused.
    assert!(!p.execute_args_match(30, 4, 8, 3, 44, 2, 33, 1, 8));
    assert!(!p.execute_args_match(31, 5, 8, 3, 44, 2, 33, 1, 8));
    assert!(!p.execute_args_match(31, 4, 9, 3, 44, 2, 33, 1, 8));
}

#[test]
fn args_match_enforces_the_colmajor_promise() {
    let p = Plan::new_f32_avx(31, 4, 8, true);
    assert!(p.execute_args_match(31, 4, 8, 1, 31, 1, 31, 1, 8));
    assert!(!p.execute_args_match(31, 4, 8, 3, 31, 1, 31, 1, 8));
    assert!(!p.execute_args_match(31, 4, 8, 1, 31, 2, 31, 1, 8));
    // Column strides stay free under the promise.
    assert!(p.execute_args_match(31, 4, 8, 1, 44, 1, 33, 2, 16));
}

#[test]
fn corner_lookup_matches_the_edge_flags() {
    let ks = Plan::new_f32_avx(17, 6, 20, true).kernels.unwrap();
    assert_eq!(ks.corner(false, false), ks.interior);
    assert_eq!(ks.corner(false, true), ks.n_edge);
    assert_eq!(ks.corner(true, false), ks.m_edge);
    assert_eq!(ks.corner(true, true), ks.mn_edge);
    assert_eq!(ks.mask_index_for(false), ks.full_mask_index);
    assert_eq!(ks.mask_index_for(true), ks.last_mask_index);
}

#[test]
fn k_index_saturates_at_the_looping_slot() {
    assert_eq!(Plan::new_f64_avx(8, 4, 1, true).kernels.unwrap().interior.k_index, 0);
    assert_eq!(Plan::new_f64_avx(8, 4, 17, true).kernels.unwrap().interior.k_index, 16);
    assert_eq!(Plan::new_f64_avx(8, 4, 100, true).kernels.unwrap().interior.k_index, 16);
    // k == 0 records the top slot, which the fill millikernel never reads.
    assert_eq!(Plan::new_f64_avx(8, 4, 0, true).kernels.unwrap().interior.k_index, 16);
}
