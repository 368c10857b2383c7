//! The per-lane enable masks used by masked stores on the trailing M-edge.
//!
//! The engine's static mask table holds one ISA-specific mask word
//! per remainder `m mod lane_width`; lanes `[0, remainder)` are enabled and
//! the rest disabled, and index 0 doubles as the all-lanes-enabled mask.
//! This module states that table as plain booleans and proves that, for the
//! trailing lane group of the trailing MR-block, the enabled lanes are
//! exactly the rows that lie inside the matrix.

use crate::plan::lane_width_spec;
use crate::plan::plan_spec;
use crate::plan::Elem;
use crate::plan::Isa;
use vstd::arithmetic::div_mod::lemma_fundamental_div_mod;
use vstd::arithmetic::div_mod::lemma_fundamental_div_mod_converse;
use vstd::prelude::*;

verus! {

/// Whether lane `lane` is enabled in the mask at table index `index`. Index
/// 0 is the all-lanes-enabled mask; index r in [1, lane_width) enables
/// exactly the lanes below r.
pub open spec fn lane_enabled(index: nat, lane: nat) -> bool {
    index == 0 || lane < index
}

/// The mask at table index `index`, one boolean per lane.
pub fn mask_lanes(lane_width: usize, index: usize) -> (mask: Vec<bool>)
    requires
        0 < lane_width,
        index < lane_width,
    ensures
        mask.len() == lane_width,
        forall|lane: int| 0 <= lane < lane_width ==> mask[lane] == lane_enabled(index as nat, lane as nat),
{
    let mut mask: Vec<bool> = Vec::new();
    let mut lane: usize = 0;
    while lane < lane_width
        invariant
            lane <= lane_width,
            index < lane_width,
            mask.len() == lane,
            forall|l: int| 0 <= l < lane ==> mask[l] == lane_enabled(index as nat, l as nat),
        decreases lane_width - lane,
    {
        mask.push(index == 0 || lane < index);
        lane = lane + 1;
    }
    mask
}

/// Edge-mask law: in the mask at index `m mod lane_width` — the index every
/// plan records as its last mask — the enabled lanes are exactly the rows of
/// the trailing lane group that lie inside the matrix. The trailing lane
/// group of an m-row matrix starts at row `((m - 1) / lane_width) *
/// lane_width`; lane `lane` of a masked store there touches row `start +
/// lane`, so the lanes beyond the M-edge are exactly the disabled ones.
pub proof fn lemma_last_mask_exact(m: nat, lane_width: nat, lane: nat)
    requires
        0 < lane_width,
        0 < m,
        lane < lane_width,
    ensures
        lane_enabled(m % lane_width, lane) <==> (((m - 1) as nat / lane_width) * lane_width + lane
            < m),
{
    let lw = lane_width as int;
    let q = (m - 1) / lw;
    let r = (m - 1) % lw;
    lemma_fundamental_div_mod(m as int - 1, lw);
    assert(q * lw == lw * q) by (nonlinear_arith);
    assert(m == q * lw + r + 1);
    if r + 1 == lw {
        assert(m == (q + 1) * lw + 0) by (nonlinear_arith)
            requires
                m == q * lw + lw,
        ;
        lemma_fundamental_div_mod_converse(m as int, lw, q + 1, 0);
        assert(m % lane_width == 0);
    } else {
        lemma_fundamental_div_mod_converse(m as int, lw, q, r + 1);
        assert(m % lane_width == r + 1);
    }
}

/// The trailing lane group of the trailing MR-block is the trailing lane
/// group of the whole matrix: if the last block of the direct walk starts at
/// row `block_start` — a multiple of the lane width, as every block start is
/// — then the last lane group inside it starts at row
/// `((m - 1) / lane_width) * lane_width`, the row the edge-mask law speaks
/// of.
pub proof fn lemma_trailing_group_of_trailing_block(m: nat, lane_width: nat, block_start: nat)
    requires
        0 < lane_width,
        block_start < m,
        block_start % lane_width == 0,
    ensures
        block_start + (((m - block_start - 1) as nat) / lane_width) * lane_width == (((m
            - 1) as nat) / lane_width) * lane_width,
{
    let lw = lane_width as int;
    let c = block_start as int / lw;
    lemma_fundamental_div_mod(block_start as int, lw);
    assert(block_start as int == lw * c);
    let x = m as int - block_start - 1;
    vstd::arithmetic::div_mod::lemma_hoist_over_denominator(x, c, lane_width);
    assert(x + c * lw == m - 1) by (nonlinear_arith)
        requires
            block_start as int == lw * c,
            x == m as int - block_start - 1,
    ;
    assert((x / lw + c) * lw == (x / lw) * lw + c * lw) by (nonlinear_arith);
    assert(c * lw == block_start) by (nonlinear_arith)
        requires
            block_start as int == lw * c,
    ;
}

/// The same law, stated of a plan: for any SIMD-tier plan with at least one
/// row, a lane of the recorded last mask is enabled exactly when the row it
/// would store in the trailing lane group of the trailing MR-block lies
/// inside the matrix.
pub proof fn lemma_plan_edge_mask(elem: Elem, isa: Isa, m: usize, n: usize, k: usize, col_major: bool, lane: nat)
    requires
        isa != Isa::Scalar,
        0 < m,
        lane < lane_width_spec(elem, isa),
    ensures
        ({
            let p = plan_spec(elem, isa, m, n, k, col_major);
            let lw = lane_width_spec(elem, isa);
            let group_start = ((m - 1) as nat / lw) * lw;
            &&& p.kernels is Some
            &&& p.kernels->Some_0.last_mask_index == m as nat % lw
            &&& (lane_enabled(p.kernels->Some_0.last_mask_index as nat, lane) <==> group_start
                + lane < m)
        }),
{
    lemma_last_mask_exact(m as nat, lane_width_spec(elem, isa), lane);
}

} // verus!
