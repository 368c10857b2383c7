//! The tile walks of the blocked millikernels, as explicit block
//! descriptors.
//!
//! The direct millikernel walks the destination in MR x NR register blocks,
//! row blocks outermost, and picks one of four corner microkernels per block;
//! the copying millikernel first cuts the problem into scratch-sized blocks
//! along all three extents. Both walks are pure address arithmetic, so they
//! are computed and proved here; the execute path runs the numeric kernel of
//! each step in the order given.

use vstd::arithmetic::div_mod::lemma_fundamental_div_mod;
use vstd::arithmetic::div_mod::lemma_fundamental_div_mod_converse;
use vstd::arithmetic::div_mod::lemma_mod_multiples_vanish;
use vstd::arithmetic::div_mod::lemma_small_mod;
use vstd::arithmetic::mul::lemma_mul_inequality;
use vstd::prelude::*;

verus! {

/// The side of one scratch tile of the copying millikernel, in elements:
/// blocks are at most this size along each of the three extents.
pub const COPY_BLOCK: usize = 32;

/// One step of the direct millikernel's walk: the register block whose rows
/// start at `i` and whose columns start at `j`.
#[derive(Clone, Copy, Debug, PartialEq, Eq, Structural)]
pub struct DirectStep {
    /// First row of the block.
    pub i: usize,
    /// First column of the block.
    pub j: usize,
    /// This is the trailing MR-block: fewer than MR rows may remain, the
    /// M-edge corner kernels run, and the trailing lane group is stored
    /// through the plan's last mask instead of the full mask.
    pub m_edge: bool,
    /// This is the trailing NR-block: fewer than NR columns may remain and
    /// the N-edge corner kernels run.
    pub n_edge: bool,
}

/// One step of the copying millikernel's walk: a block of at most
/// `COPY_BLOCK` elements along each extent, staged through unit-row-stride
/// scratch tiles.
#[derive(Clone, Copy, Debug, PartialEq, Eq, Structural)]
pub struct CopyStep {
    /// First depth (K position) of the block.
    pub depth: usize,
    /// First row of the block.
    pub i: usize,
    /// First column of the block.
    pub j: usize,
    /// K extent of the block.
    pub depth_bs: usize,
    /// Row extent of the block.
    pub i_bs: usize,
    /// Column extent of the block.
    pub j_bs: usize,
    /// Apply the caller's alpha to the destination block. True exactly on
    /// the first K-block: after it, the destination already holds
    /// `alpha * D + beta * partial`, and later K-blocks must accumulate with
    /// alpha forced to one.
    pub scale_by_alpha: bool,
    /// The block reaches the last row, so its trailing lane group is stored
    /// through the plan's last mask.
    pub m_edge: bool,
}

/// The smaller of two naturals.
pub open spec fn min_nat(a: nat, b: nat) -> nat {
    if a <= b {
        a
    } else {
        b
    }
}

/// Number of blocks that a walk of step `step` lays over an extent of
/// `extent`: the least count whose blocks reach `extent`.
pub open spec fn block_count(extent: nat, step: nat) -> nat
    recommends
        step > 0,
{
    (((extent + step - 1) as int) / (step as int)) as nat
}

/// The step the direct walk makes at block row `a`, block column `b`.
pub open spec fn direct_step_spec(m: nat, n: nat, mr: nat, nr: nat, a: nat, b: nat) -> DirectStep {
    DirectStep {
        i: (a * mr) as usize,
        j: (b * nr) as usize,
        m_edge: a * mr + mr >= m,
        n_edge: b * nr + nr >= n,
    }
}

/// The step the copying walk makes at K-block `d`, block row `a`, block
/// column `b`.
pub open spec fn copy_step_spec(m: nat, n: nat, k: nat, d: nat, a: nat, b: nat) -> CopyStep {
    let depth = d * (COPY_BLOCK as nat);
    let i = a * (COPY_BLOCK as nat);
    let j = b * (COPY_BLOCK as nat);
    CopyStep {
        depth: depth as usize,
        i: i as usize,
        j: j as usize,
        depth_bs: min_nat(COPY_BLOCK as nat, (k - depth) as nat) as usize,
        i_bs: min_nat(COPY_BLOCK as nat, (m - i) as nat) as usize,
        j_bs: min_nat(COPY_BLOCK as nat, (n - j) as nat) as usize,
        scale_by_alpha: d == 0,
        m_edge: m - i <= COPY_BLOCK as nat,
    }
}

/// A block starts below the extent exactly when its index is below the
/// block count.
pub proof fn lemma_block_count(extent: nat, step: nat, a: nat)
    requires
        step > 0,
    ensures
        (a * step < extent) <==> (a < block_count(extent, step)),
{
    let x = extent as int + step - 1;
    let s = step as int;
    let q = x / s;
    let r = x % s;
    lemma_fundamental_div_mod(x, s);
    assert(q >= 0) by {
        if q < 0 {
            lemma_mul_inequality(q, -1, s);
            assert(-1 * s == -s) by (nonlinear_arith);
        }
    }
    assert(block_count(extent, step) == q);
    if a < q {
        lemma_mul_inequality(a as int + 1, q, s);
        assert((a as int + 1) * s == a * s + s) by (nonlinear_arith);
        assert(s * q == q * s) by (nonlinear_arith);
        assert(a * step < extent);
    }
    if a >= q {
        lemma_mul_inequality(q, a as int, s);
        assert(s * q == q * s) by (nonlinear_arith);
        assert(!(a * step < extent));
    }
}

/// The blocks of the direct walk, row blocks outermost, exactly as the
/// direct millikernel visits them: step `t` is the block at block row
/// `t / col_blocks`, block column `t mod col_blocks`.
pub fn direct_steps(m: usize, n: usize, mr: usize, nr: usize) -> (steps: Vec<DirectStep>)
    requires
        0 < mr,
        0 < nr,
        m + mr <= usize::MAX,
        n + nr <= usize::MAX,
    ensures
        steps@.len() == block_count(m as nat, mr as nat) * block_count(n as nat, nr as nat),
        forall|t: int|
            0 <= t < steps@.len() ==> steps@[t] == direct_step_spec(
                m as nat,
                n as nat,
                mr as nat,
                nr as nat,
                (t / (block_count(n as nat, nr as nat) as int)) as nat,
                (t % (block_count(n as nat, nr as nat) as int)) as nat,
            ),
{
    let ghost rb = block_count(m as nat, mr as nat);
    let ghost cb = block_count(n as nat, nr as nat);
    let mut steps: Vec<DirectStep> = Vec::new();
    let mut i: usize = 0;
    let ghost mut a: nat = 0nat;
    while i < m
        invariant
            0 < mr,
            0 < nr,
            m + mr <= usize::MAX,
            n + nr <= usize::MAX,
            rb == block_count(m as nat, mr as nat),
            cb == block_count(n as nat, nr as nat),
            i as int == a * mr,
            a <= rb,
            steps@.len() == a * cb,
            forall|t: int|
                0 <= t < steps@.len() ==> steps@[t] == direct_step_spec(
                    m as nat,
                    n as nat,
                    mr as nat,
                    nr as nat,
                    (t / (cb as int)) as nat,
                    (t % (cb as int)) as nat,
                ),
        decreases m + mr - i,
    {
        proof {
            lemma_block_count(m as nat, mr as nat, a);
        }
        let m_edge: bool = i + mr >= m;
        let mut j: usize = 0;
        let ghost mut b: nat = 0nat;
        while j < n
            invariant
                0 < mr,
                0 < nr,
                m + mr <= usize::MAX,
                n + nr <= usize::MAX,
                rb == block_count(m as nat, mr as nat),
                cb == block_count(n as nat, nr as nat),
                i < m,
                a < rb,
                i as int == a * mr,
                m_edge == (i + mr >= m),
                j as int == b * nr,
                b <= cb,
                steps@.len() == a * cb + b,
                forall|t: int|
                    0 <= t < steps@.len() ==> steps@[t] == direct_step_spec(
                        m as nat,
                        n as nat,
                        mr as nat,
                        nr as nat,
                        (t / (cb as int)) as nat,
                        (t % (cb as int)) as nat,
                    ),
            decreases n + nr - j,
        {
            proof {
                lemma_block_count(n as nat, nr as nat, b);
                assert(b < cb);
                lemma_fundamental_div_mod_converse(
                    (a * cb + b) as int,
                    cb as int,
                    a as int,
                    b as int,
                );
            }
            let n_edge: bool = j + nr >= n;
            steps.push(DirectStep { i, j, m_edge, n_edge });
            j = j + nr;
            proof {
                b = b + 1;
                assert(j as int == b * nr) by (nonlinear_arith)
                    requires
                        j as int == (b - 1) * nr + nr,
                ;
                assert(steps@.len() == a * cb + b);
            }
        }
        proof {
            lemma_block_count(n as nat, nr as nat, b);
            assert(b == cb);
            a = a + 1;
            assert(steps@.len() == a * cb) by (nonlinear_arith)
                requires
                    steps@.len() == (a - 1) * cb + cb,
            ;
        }
        i = i + mr;
        proof {
            assert(i as int == a * mr) by (nonlinear_arith)
                requires
                    i as int == (a - 1) * mr + mr,
            ;
        }
    }
    proof {
        lemma_block_count(m as nat, mr as nat, a);
        assert(a == rb);
    }
    steps
}

/// The blocks of the copying walk, K-blocks outermost, then row blocks, then
/// column blocks, exactly as the copying millikernel visits them: step `t`
/// is the block at K-block `t / (row_blocks * col_blocks)`, block row
/// `(t / col_blocks) mod row_blocks`, block column `t mod col_blocks`.
pub fn copy_steps(m: usize, n: usize, k: usize) -> (steps: Vec<CopyStep>)
    ensures
        steps@.len() == block_count(k as nat, COPY_BLOCK as nat) * (block_count(
            m as nat,
            COPY_BLOCK as nat,
        ) * block_count(n as nat, COPY_BLOCK as nat)),
        forall|t: int|
            0 <= t < steps@.len() ==> steps@[t] == copy_step_spec(
                m as nat,
                n as nat,
                k as nat,
                ((t as int) / ((block_count(m as nat, COPY_BLOCK as nat) * block_count(
                    n as nat,
                    COPY_BLOCK as nat,
                )) as int)) as nat,
                (((t as int) / (block_count(n as nat, COPY_BLOCK as nat) as int)) % (block_count(
                    m as nat,
                    COPY_BLOCK as nat,
                ) as int)) as nat,
                ((t as int) % (block_count(n as nat, COPY_BLOCK as nat) as int)) as nat,
            ),
{
    let ghost kb = block_count(k as nat, COPY_BLOCK as nat);
    let ghost rb = block_count(m as nat, COPY_BLOCK as nat);
    let ghost cb = block_count(n as nat, COPY_BLOCK as nat);
    let ghost rcb = rb * cb;
    let mut steps: Vec<CopyStep> = Vec::new();
    let mut depth: usize = 0;
    let ghost mut d: nat = 0nat;
    while depth < k
        invariant
            kb == block_count(k as nat, COPY_BLOCK as nat),
            rb == block_count(m as nat, COPY_BLOCK as nat),
            cb == block_count(n as nat, COPY_BLOCK as nat),
            rcb == rb * cb,
            depth as int == min_nat((d * 32) as nat, k as nat),
            d <= kb,
            steps@.len() == d * rcb,
            forall|t: int|
                0 <= t < steps@.len() ==> steps@[t] == copy_step_spec(
                    m as nat,
                    n as nat,
                    k as nat,
                    ((t as int) / (rcb as int)) as nat,
                    (((t as int) / (cb as int)) % (rb as int)) as nat,
                    ((t as int) % (cb as int)) as nat,
                ),
        decreases k - depth,
    {
        proof {
            lemma_block_count(k as nat, COPY_BLOCK as nat, d);
            assert(d * 32 < k);
            assert(d < kb);
        }
        let depth_bs: usize = if k - depth < COPY_BLOCK {
            k - depth
        } else {
            COPY_BLOCK
        };
        let scale_by_alpha: bool = depth == 0;
        let mut i: usize = 0;
        let ghost mut a: nat = 0nat;
        while i < m
            invariant
                kb == block_count(k as nat, COPY_BLOCK as nat),
                rb == block_count(m as nat, COPY_BLOCK as nat),
                cb == block_count(n as nat, COPY_BLOCK as nat),
                rcb == rb * cb,
                depth < k,
                d < kb,
                depth as int == d * 32,
                depth_bs as int == min_nat(32nat, (k - depth) as nat),
                scale_by_alpha == (d == 0),
                i as int == min_nat((a * 32) as nat, m as nat),
                a <= rb,
                steps@.len() == d * rcb + a * cb,
                forall|t: int|
                    0 <= t < steps@.len() ==> steps@[t] == copy_step_spec(
                        m as nat,
                        n as nat,
                        k as nat,
                        ((t as int) / (rcb as int)) as nat,
                        (((t as int) / (cb as int)) % (rb as int)) as nat,
                        ((t as int) % (cb as int)) as nat,
                    ),
            decreases m - i,
        {
            proof {
                lemma_block_count(m as nat, COPY_BLOCK as nat, a);
                assert(i as int == a * 32);
                assert(a < rb);
            }
            let i_bs: usize = if m - i < COPY_BLOCK {
                m - i
            } else {
                COPY_BLOCK
            };
            let m_edge: bool = i + i_bs == m;
            let mut j: usize = 0;
            let ghost mut b: nat = 0nat;
            while j < n
                invariant
                    kb == block_count(k as nat, COPY_BLOCK as nat),
                    rb == block_count(m as nat, COPY_BLOCK as nat),
                    cb == block_count(n as nat, COPY_BLOCK as nat),
                    rcb == rb * cb,
                    depth < k,
                    d < kb,
                    depth as int == d * 32,
                    depth_bs as int == min_nat(32nat, (k - depth) as nat),
                    scale_by_alpha == (d == 0),
                    i < m,
                    a < rb,
                    i as int == a * 32,
                    i_bs as int == min_nat(32nat, (m - i) as nat),
                    m_edge == ((m - i) as int <= 32),
                    j as int == min_nat((b * 32) as nat, n as nat),
                    b <= cb,
                    steps@.len() == d * rcb + a * cb + b,
                    forall|t: int|
                        0 <= t < steps@.len() ==> steps@[t] == copy_step_spec(
                            m as nat,
                            n as nat,
                            k as nat,
                            ((t as int) / (rcb as int)) as nat,
                            (((t as int) / (cb as int)) % (rb as int)) as nat,
                            ((t as int) % (cb as int)) as nat,
                        ),
                decreases n - j,
            {
                proof {
                    assert(j as int == b * 32);
                    lemma_block_count(n as nat, COPY_BLOCK as nat, b);
                    assert(b < cb);
                    let t0 = (d * rcb + a * cb + b) as int;
                    assert(t0 == (d * rb + a) * (cb as int) + b) by (nonlinear_arith)
                        requires
                            rcb == rb * cb,
                            t0 == d * rcb + a * cb + b,
                    ;
                    lemma_fundamental_div_mod_converse(
                        t0,
                        cb as int,
                        (d * rb + a) as int,
                        b as int,
                    );
                    lemma_mod_multiples_vanish(d as int, a as int, rb as int);
                    assert((rb * d) as int == (d * rb) as int) by (nonlinear_arith);
                    lemma_small_mod(a, rb);
                    assert(a * cb + b < rcb) by {
                        lemma_mul_inequality(a as int + 1, rb as int, cb as int);
                        assert((a as int + 1) * cb == a * cb + cb) by (nonlinear_arith);
                    }
                    lemma_fundamental_div_mod_converse(
                        t0,
                        rcb as int,
                        d as int,
                        (a * cb + b) as int,
                    );
                }
                let j_bs: usize = if n - j < COPY_BLOCK {
                    n - j
                } else {
                    COPY_BLOCK
                };
                steps.push(
                    CopyStep { depth, i, j, depth_bs, i_bs, j_bs, scale_by_alpha, m_edge },
                );
                j = j + j_bs;
                proof {
                    b = b + 1;
                    assert(j as int == min_nat((b * 32) as nat, n as nat));
                }
            }
            proof {
                lemma_block_count(n as nat, COPY_BLOCK as nat, b);
                assert(!(b * 32 < n));
                assert(b == cb);
            }
            i = i + i_bs;
            proof {
                a = a + 1;
                assert(i as int == min_nat((a * 32) as nat, m as nat)) by (nonlinear_arith)
                    requires
                        i as int == min_nat(((a - 1) * 32 + min_nat(
                            32nat,
                            (m - (a - 1) * 32) as nat,
                        )) as nat, m as nat) || i as int == (a - 1) * 32 + min_nat(
                            32nat,
                            (m - (a - 1) * 32) as nat,
                        ),
                        (a - 1) * 32 < m,
                        i as int == (a - 1) * 32 + min_nat(32nat, (m - (a - 1) * 32) as nat),
                ;
                lemma_block_count(m as nat, COPY_BLOCK as nat, (a - 1) as nat);
                if i < m {
                    assert(a * 32 < m) by (nonlinear_arith)
                        requires
                            i as int == min_nat((a * 32) as nat, m as nat),
                            i < m,
                    ;
                    lemma_block_count(m as nat, COPY_BLOCK as nat, a);
                } else {
                    lemma_block_count(m as nat, COPY_BLOCK as nat, a);
                    assert(!(a * 32 < m)) by (nonlinear_arith)
                        requires
                            i as int == min_nat((a * 32) as nat, m as nat),
                            !(i < m),
                    ;
                }
                assert(steps@.len() == d * rcb + a * cb) by (nonlinear_arith)
                    requires
                        steps@.len() == d * rcb + (a - 1) * cb + cb,
                ;
            }
        }
        proof {
            lemma_block_count(m as nat, COPY_BLOCK as nat, a);
            assert(a == rb);
        }
        depth = depth + depth_bs;
        proof {
            d = d + 1;
            assert(depth as int == min_nat((d * 32) as nat, k as nat)) by (nonlinear_arith)
                requires
                    depth as int == (d - 1) * 32 + min_nat(32nat, (k - (d - 1) * 32) as nat),
                    (d - 1) * 32 < k,
            ;
            assert(steps@.len() == d * rcb) by (nonlinear_arith)
                requires
                    steps@.len() == (d - 1) * rcb + rb * cb,
                    rcb == rb * cb,
            ;
        }
    }
    proof {
        lemma_block_count(k as nat, COPY_BLOCK as nat, d);
        assert(!(d * 32 < k)) by (nonlinear_arith)
            requires
                depth as int == min_nat((d * 32) as nat, k as nat),
                !(depth < k),
        ;
        assert(d == kb);
    }
    steps
}

/// Every cell of the destination lies in exactly one block of the direct
/// walk: the step at block row `r / mr`, block column `c / nr`.
pub proof fn lemma_direct_steps_cover(m: nat, n: nat, mr: nat, nr: nat, r: nat, c: nat)
    requires
        0 < mr,
        0 < nr,
        r < m,
        c < n,
        m <= usize::MAX,
        n <= usize::MAX,
    ensures
        ({
            let a = r / mr;
            let b = c / nr;
            let cb = block_count(n, nr);
            let t = a * cb + b;
            let s = direct_step_spec(m, n, mr, nr, a, b);
            &&& a < block_count(m, mr)
            &&& b < cb
            &&& t < block_count(m, mr) * cb
            &&& (t as int) / (cb as int) == a as int
            &&& (t as int) % (cb as int) == b as int
            &&& s.i <= r < s.i + mr
            &&& s.j <= c < s.j + nr
        }),
{
    let a = r / mr;
    let b = c / nr;
    let rb = block_count(m, mr);
    let cb = block_count(n, nr);
    lemma_fundamental_div_mod(r as int, mr as int);
    lemma_fundamental_div_mod(c as int, nr as int);
    assert((mr as int) * (a as int) == (a as int) * (mr as int)) by (nonlinear_arith);
    assert((nr as int) * (b as int) == (b as int) * (nr as int)) by (nonlinear_arith);
    assert(a * mr <= r < a * mr + mr);
    assert(b * nr <= c < b * nr + nr);
    lemma_block_count(m, mr, a);
    lemma_block_count(n, nr, b);
    let t = a * cb + b;
    assert(t < rb * cb) by {
        lemma_mul_inequality(a as int + 1, rb as int, cb as int);
        assert((a as int + 1) * cb == a * cb + cb) by (nonlinear_arith);
    }
    lemma_fundamental_div_mod_converse(t as int, cb as int, a as int, b as int);
}

/// Every (depth, row, column) position of the problem lies in exactly one
/// block of the copying walk: the step at K-block `dd / COPY_BLOCK`, block
/// row `r / COPY_BLOCK`, block column `c / COPY_BLOCK`.
pub proof fn lemma_copy_steps_cover(m: nat, n: nat, k: nat, dd: nat, r: nat, c: nat)
    requires
        dd < k,
        r < m,
        c < n,
        m <= usize::MAX,
        n <= usize::MAX,
        k <= usize::MAX,
    ensures
        ({
            let d = dd / (COPY_BLOCK as nat);
            let a = r / (COPY_BLOCK as nat);
            let b = c / (COPY_BLOCK as nat);
            let kb = block_count(k, COPY_BLOCK as nat);
            let rb = block_count(m, COPY_BLOCK as nat);
            let cb = block_count(n, COPY_BLOCK as nat);
            let t = (d * rb + a) * cb + b;
            let s = copy_step_spec(m, n, k, d, a, b);
            &&& d < kb
            &&& a < rb
            &&& b < cb
            &&& t < kb * (rb * cb)
            &&& (t as int) / ((rb * cb) as int) == d as int
            &&& ((t as int) / (cb as int)) % (rb as int) == a as int
            &&& (t as int) % (cb as int) == b as int
            &&& s.depth <= dd < s.depth + s.depth_bs
            &&& s.i <= r < s.i + s.i_bs
            &&& s.j <= c < s.j + s.j_bs
        }),
{
    let d = dd / (COPY_BLOCK as nat);
    let a = r / (COPY_BLOCK as nat);
    let b = c / (COPY_BLOCK as nat);
    let kb = block_count(k, COPY_BLOCK as nat);
    let rb = block_count(m, COPY_BLOCK as nat);
    let cb = block_count(n, COPY_BLOCK as nat);
    lemma_fundamental_div_mod(dd as int, 32);
    lemma_fundamental_div_mod(r as int, 32);
    lemma_fundamental_div_mod(c as int, 32);
    assert(d * 32 <= dd < d * 32 + 32);
    assert(a * 32 <= r < a * 32 + 32);
    assert(b * 32 <= c < b * 32 + 32);
    lemma_block_count(k, COPY_BLOCK as nat, d);
    lemma_block_count(m, COPY_BLOCK as nat, a);
    lemma_block_count(n, COPY_BLOCK as nat, b);
    let t = (d * rb + a) * cb + b;
    assert(a * cb + b < rb * cb) by {
        lemma_mul_inequality(a as int + 1, rb as int, cb as int);
        assert((a as int + 1) * cb == a * cb + cb) by (nonlinear_arith);
    }
    assert(t == d * (rb * cb) + (a * cb + b)) by (nonlinear_arith)
        requires
            t == (d * rb + a) * cb + b,
    ;
    assert(t < kb * (rb * cb)) by {
        lemma_mul_inequality(d as int + 1, kb as int, (rb * cb) as int);
        assert((d as int + 1) * (rb * cb) == d * (rb * cb) + rb * cb) by (nonlinear_arith);
    }
    lemma_fundamental_div_mod_converse(t as int, (rb * cb) as int, d as int, (a * cb + b) as int);
    lemma_fundamental_div_mod_converse(t as int, cb as int, (d * rb + a) as int, b as int);
    lemma_mod_multiples_vanish(d as int, a as int, rb as int);
    assert((rb as int) * (d as int) == (d as int) * (rb as int)) by (nonlinear_arith);
    lemma_small_mod(a, rb);
}

/// Only that block covers the cell: a block of the direct walk that
/// contains row `r` and column `c` is the block at (`r / mr`, `c / nr`).
pub proof fn lemma_direct_steps_unique(m: nat, n: nat, mr: nat, nr: nat, r: nat, c: nat, a: nat, b: nat)
    requires
        0 < mr,
        0 < nr,
        a * mr <= r < a * mr + mr,
        b * nr <= c < b * nr + nr,
    ensures
        a == r / mr,
        b == c / nr,
{
    lemma_fundamental_div_mod_converse(r as int, mr as int, a as int, r - a * mr);
    lemma_fundamental_div_mod_converse(c as int, nr as int, b as int, c - b * nr);
}

} // verus!
