use gemm_core::walk::{copy_steps, direct_steps, CopyStep, DirectStep};

#[test]
fn direct_walk_of_the_f32_seed_shape() {
    // m = 31, n = 4 with the AVX f32 tile (MR 16, NR 4): two row blocks,
    // one column block, visited row block by row block.
    let steps = direct_steps(31, 4, 16, 4);
    assert_eq!(
        steps,
        vec![
            DirectStep { i: 0, j: 0, m_edge: false, n_edge: true },
            DirectStep { i: 16, j: 0, m_edge: true, n_edge: true },
        ]
    );
}

#[test]
fn direct_walk_of_the_c32_edge_shape() {
    // m = 7, n = 2 with the AVX c32 tile (MR 8, NR 2): one block on both
    // trailing edges.
    let steps = direct_steps(7, 2, 8, 2);
    assert_eq!(steps, vec![DirectStep { i: 0, j: 0, m_edge: true, n_edge: true }]);
}

#[test]
fn direct_walk_orders_row_blocks_outermost() {
    let steps = direct_steps(64, 8, 16, 4);
    assert_eq!(steps.len(), 8);
    for a in 0..4usize {
        for b in 0..2usize {
            let s = steps[a * 2 + b];
            assert_eq!(s.i, a * 16);
            assert_eq!(s.j, b * 4);
            assert_eq!(s.m_edge, a == 3);
            assert_eq!(s.n_edge, b == 1);
        }
    }
}

#[test]
fn direct_walk_of_an_empty_destination_is_empty() {
    assert!(direct_steps(0, 4, 16, 4).is_empty());
    assert!(direct_steps(31, 0, 16, 4).is_empty());
}

#[test]
fn copy_walk_of_a_single_block() {
    // The strided f32 seed shape fits one scratch tile along every extent.
    let steps = copy_steps(31, 4, 8);
    assert_eq!(
        steps,
        vec![CopyStep {
            depth: 0,
            i: 0,
            j: 0,
            depth_bs: 8,
            i_bs: 31,
            j_bs: 4,
            scale_by_alpha: true,
            m_edge: true,
        }]
    );
}

#[test]
fn copy_walk_blocks_and_forces_alpha_after_the_first_k_block() {
    let steps = copy_steps(40, 33, 70);
    // ceil(70 / 32) = 3 K-blocks, ceil(40 / 32) = 2 row blocks,
    // ceil(33 / 32) = 2 column blocks, K-blocks outermost.
    assert_eq!(steps.len(), 12);
    for d in 0..3usize {
        for a in 0..2usize {
            for b in 0..2usize {
                let s = steps[(d * 2 + a) * 2 + b];
                assert_eq!(s.depth, d * 32);
                assert_eq!(s.i, a * 32);
                assert_eq!(s.j, b * 32);
                assert_eq!(s.depth_bs, if d == 2 { 6 } else { 32 });
                assert_eq!(s.i_bs, if a == 1 { 8 } else { 32 });
                assert_eq!(s.j_bs, if b == 1 { 1 } else { 32 });
                // Only the first K-block applies the caller's alpha.
                assert_eq!(s.scale_by_alpha, d == 0);
                // Only blocks reaching the last row store through the last
                // mask.
                assert_eq!(s.m_edge, a == 1);
            }
        }
    }
}

#[test]
fn direct_walk_covers_every_cell_exactly_once() {
    let (m, n, mr, nr) = (31usize, 4usize, 16usize, 4usize);
    let steps = direct_steps(m, n, mr, nr);
    for r in 0..m {
        for c in 0..n {
            let covering = steps
                .iter()
                .filter(|s| s.i <= r && r < s.i + mr && s.j <= c && c < s.j + nr)
                .count();
            assert_eq!(covering, 1);
        }
    }
}

#[test]
fn copy_walk_covers_every_position_exactly_once() {
    let (m, n, k) = (40usize, 33usize, 70usize);
    let steps = copy_steps(m, n, k);
    for dd in 0..k {
        for r in 0..m {
            for c in 0..n {
                let covering = steps
                    .iter()
                    .filter(|s| {
                        s.depth <= dd
                            && dd < s.depth + s.depth_bs
                            && s.i <= r
                            && r < s.i + s.i_bs
                            && s.j <= c
                            && c < s.j + s.j_bs
                    })
                    .count();
                assert_eq!(covering, 1);
            }
        }
    }
}

#[test]
fn copy_walk_of_an_empty_problem_is_empty() {
    assert!(copy_steps(0, 33, 70).is_empty());
    assert!(copy_steps(40, 0, 70).is_empty());
    assert!(copy_steps(40, 33, 0).is_empty());
}
