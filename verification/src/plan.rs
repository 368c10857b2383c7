//! The `Plan`: an immutable descriptor, built once per (element type, layout
//! class, m, n, k), that records every decision the execute path needs:
//! which ISA tier was selected, the register-tile shape (MR, NR), the four
//! corner microkernels as indices into the generated microkernel table, the
//! two mask-table indices, the millikernel strategy, and the stride
//! witnesses a later call must honour.

use vstd::prelude::*;

verus! {

/// The four element types the engine supports. A complex element is a pair
/// of scalars (real part then imaginary part), and strides are measured in
/// whole elements.
#[derive(Clone, Copy, Debug, PartialEq, Eq, Structural)]
pub enum Elem {
    F32,
    F64,
    C32,
    C64,
}

/// The instruction-set tier a plan was built for, in ascending order of
/// preference. `Scalar` means no SIMD tier qualified and the naive
/// millikernel is used with no microkernel table at all.
#[derive(Clone, Copy, Debug, PartialEq, Eq, Structural)]
pub enum Isa {
    Scalar,
    Avx,
    Avx512,
}

/// The outer M/N walking strategy recorded in a plan.
#[derive(Clone, Copy, Debug, PartialEq, Eq, Structural)]
pub enum MilliKernel {
    /// m == 0 or n == 0: nothing to do.
    Noop,
    /// k == 0: the product is an empty sum, so the destination is scaled by
    /// alpha in place (or zeroed when alpha == 0), independent of L and R.
    Fill,
    /// Scalar fallback: the triple-nested loop, no tiling, no masks.
    Naive,
    /// Fast path: L and D have unit row stride, so microkernels run directly
    /// on the caller's buffers.
    Direct,
    /// General strides: blocks of D and L are copied into unit-row-stride
    /// scratch tiles, the direct walk runs on the scratch, and the result is
    /// written back through the caller's strides.
    Copy,
}

/// A stride expectation recorded by a plan: either any value is acceptable
/// at execute time, or the caller must pass exactly the recorded value.
#[derive(Clone, Copy, Debug, PartialEq, Eq, Structural)]
pub enum StrideWitness {
    Any,
    Exact(isize),
}

/// The position of one microkernel in the generated table, which is indexed
/// by (k-unroll index, MR-tile count - 1, NR-column count - 1).
#[derive(Clone, Copy, Debug, PartialEq, Eq, Structural)]
pub struct MicroKernelId {
    pub k_index: usize,
    pub mr_index: usize,
    pub nr_index: usize,
}

/// The microkernel selection of a SIMD plan: the four corner kernels of the
/// 2x2 (M-edge?, N-edge?) table, the SIMD lane width for the element type,
/// and the two indices into the static mask table.
#[derive(Clone, Copy, Debug, PartialEq, Eq, Structural)]
pub struct KernelSelect {
    /// Number of elements of the plan's type in one SIMD register.
    pub lane_width: usize,
    /// Corner kernel for blocks on neither edge.
    pub interior: MicroKernelId,
    /// Corner kernel for the trailing NR-block.
    pub n_edge: MicroKernelId,
    /// Corner kernel for the trailing MR-block.
    pub m_edge: MicroKernelId,
    /// Corner kernel for the block on both trailing edges.
    pub mn_edge: MicroKernelId,
    /// Mask-table index of the all-lanes-enabled mask.
    pub full_mask_index: usize,
    /// Mask-table index consulted on M-edge blocks: `m % lane_width`.
    pub last_mask_index: usize,
}

impl KernelSelect {
    /// The corner kernel for a block with the given edge flags.
    pub open spec fn corner_spec(self, m_edge: bool, n_edge: bool) -> MicroKernelId {
        if m_edge {
            if n_edge {
                self.mn_edge
            } else {
                self.m_edge
            }
        } else {
            if n_edge {
                self.n_edge
            } else {
                self.interior
            }
        }
    }

    /// The 2x2 table lookup the direct walk makes at each block: the corner
    /// kernel selected by the block's two edge flags.
    pub fn corner(&self, m_edge: bool, n_edge: bool) -> (id: MicroKernelId)
        ensures
            id == self.corner_spec(m_edge, n_edge),
    {
        if m_edge {
            if n_edge {
                self.mn_edge
            } else {
                self.m_edge
            }
        } else {
            if n_edge {
                self.n_edge
            } else {
                self.interior
            }
        }
    }

    /// The mask a block's stores go through: the last mask on the trailing
    /// MR-block, the full mask everywhere else.
    pub fn mask_index_for(&self, m_edge: bool) -> (index: usize)
        ensures
            index == if m_edge {
                self.last_mask_index
            } else {
                self.full_mask_index
            },
    {
        if m_edge {
            self.last_mask_index
        } else {
            self.full_mask_index
        }
    }
}

/// The per-invocation scalar parameter block handed to every microkernel.
/// `T` is the element type; the engine instantiates it with f32, f64 and the
/// two complex types.
pub struct MicroKernelData<T> {
    /// Scale applied to the pre-existing destination. An exactly-zero alpha
    /// selects the replacing store path, which never reads the destination.
    pub alpha: T,
    /// Scale applied to the freshly computed product.
    pub beta: T,
    /// Conjugate L's elements first (ignored by kernels for real types).
    pub conj_lhs: bool,
    /// Conjugate R's elements first (ignored by kernels for real types).
    pub conj_rhs: bool,
    /// The K extent in elements.
    pub k: usize,
    /// Destination column stride in elements (row stride is unity).
    pub dst_cs: isize,
    /// L column stride in elements (L is MR-contiguous along rows).
    pub lhs_cs: isize,
    /// R row stride in elements.
    pub rhs_rs: isize,
    /// R column stride in elements.
    pub rhs_cs: isize,
    /// Mask-table index for the store of the trailing lane group.
    pub last_mask_index: usize,
}

/// An immutable plan for one (element type, layout class, m, n, k) profile.
/// It owns no buffers and may be reused across any number of executions
/// whose arguments match its witnesses.
#[derive(Clone, Copy, Debug, PartialEq, Eq, Structural)]
pub struct Plan {
    pub elem: Elem,
    pub isa: Isa,
    pub millikernel: MilliKernel,
    /// Rows of one register tile; 0 for the scalar tier.
    pub mr: usize,
    /// Columns of one register tile; 0 for the scalar tier.
    pub nr: usize,
    /// Microkernel and mask selection; `None` for the scalar tier.
    pub kernels: Option<KernelSelect>,
    pub m: usize,
    pub n: usize,
    pub k: usize,
    pub dst_rs: StrideWitness,
    pub dst_cs: StrideWitness,
    pub lhs_rs: StrideWitness,
    pub lhs_cs: StrideWitness,
    pub rhs_rs: StrideWitness,
    pub rhs_cs: StrideWitness,
}

/// SIMD lane width, in elements of `elem`, for each tier. The scalar tier
/// has no lanes.
pub open spec fn lane_width_spec(elem: Elem, isa: Isa) -> nat {
    match isa {
        Isa::Scalar => 0,
        Isa::Avx => match elem {
            Elem::F32 => 8,
            Elem::F64 => 4,
            Elem::C32 => 4,
            Elem::C64 => 2,
        },
        Isa::Avx512 => match elem {
            Elem::F32 => 16,
            Elem::F64 => 8,
            Elem::C32 => 8,
            Elem::C64 => 4,
        },
    }
}

/// Register-tile columns for each element type: 4 for real, 2 for complex.
pub open spec fn nr_spec(elem: Elem) -> nat {
    match elem {
        Elem::F32 => 4,
        Elem::F64 => 4,
        Elem::C32 => 2,
        Elem::C64 => 2,
    }
}

/// The k-unroll index: `min(k - 1, 16)`. The generated table fully unrolls
/// the first seventeen K extents; the top slot loops internally for larger
/// k. A plan with k == 0 never consults its kernels (the fill millikernel is
/// chosen), and records the top slot.
pub open spec fn k_index_spec(k: nat) -> nat {
    if k == 0 {
        16
    } else if k - 1 < 16 {
        (k - 1) as nat
    } else {
        16
    }
}

/// MR-tile count index of the trailing MR-block: `((m - 1) / lane_width)
/// mod (MR / lane_width)`, with MR / lane_width == 2. A plan with m == 0
/// never consults its kernels (the noop millikernel is chosen), and records
/// index 0.
pub open spec fn mr_edge_index_spec(m: nat, lane_width: nat) -> nat {
    if m == 0 {
        0
    } else {
        (((m - 1) as nat) / lane_width) % 2
    }
}

/// Column-count index of the trailing NR-block: `(n - 1) mod NR`. A plan
/// with n == 0 never consults its kernels, and records index 0.
pub open spec fn nr_edge_index_spec(n: nat, nr: nat) -> nat {
    if n == 0 {
        0
    } else {
        ((n - 1) as nat) % nr
    }
}

/// Millikernel selection. The scalar tier always walks the naive loop; a
/// SIMD tier picks, in priority order: noop for an empty destination, fill
/// for an empty product, the direct walk when the caller promised unit row
/// stride on L and D, and the copying walk otherwise.
pub open spec fn millikernel_spec(isa: Isa, m: nat, n: nat, k: nat, col_major: bool) -> MilliKernel {
    if isa == Isa::Scalar {
        MilliKernel::Naive
    } else if m == 0 || n == 0 {
        MilliKernel::Noop
    } else if k == 0 {
        MilliKernel::Fill
    } else if col_major {
        MilliKernel::Direct
    } else {
        MilliKernel::Copy
    }
}

/// The kernel selection of a SIMD plan, as a function of the element type,
/// the tier and the shape alone.
pub open spec fn kernel_select_spec(elem: Elem, isa: Isa, m: usize, n: usize, k: usize) -> KernelSelect {
    let lw = lane_width_spec(elem, isa);
    let nr = nr_spec(elem);
    let ki = k_index_spec(k as nat);
    let me = mr_edge_index_spec(m as nat, lw);
    let ne = nr_edge_index_spec(n as nat, nr);
    KernelSelect {
        lane_width: lw as usize,
        interior: MicroKernelId { k_index: ki as usize, mr_index: 1, nr_index: (nr - 1) as usize },
        n_edge: MicroKernelId { k_index: ki as usize, mr_index: 1, nr_index: ne as usize },
        m_edge: MicroKernelId { k_index: ki as usize, mr_index: me as usize, nr_index: (nr - 1) as usize },
        mn_edge: MicroKernelId { k_index: ki as usize, mr_index: me as usize, nr_index: ne as usize },
        full_mask_index: 0,
        last_mask_index: ((m as nat) % lw) as usize,
    }
}

/// The whole plan for a given tier, as a function of the constructor's
/// arguments. Every constructor's result equals this record exactly.
pub open spec fn plan_spec(elem: Elem, isa: Isa, m: usize, n: usize, k: usize, col_major: bool) -> Plan {
    let lw = lane_width_spec(elem, isa);
    Plan {
        elem,
        isa,
        millikernel: millikernel_spec(isa, m as nat, n as nat, k as nat, col_major),
        mr: if isa == Isa::Scalar { 0 } else { (2 * lw) as usize },
        nr: if isa == Isa::Scalar { 0 } else { nr_spec(elem) as usize },
        kernels: if isa == Isa::Scalar { None } else { Some(kernel_select_spec(elem, isa, m, n, k)) },
        m,
        n,
        k,
        dst_rs: if col_major { StrideWitness::Exact(1) } else { StrideWitness::Any },
        dst_cs: StrideWitness::Any,
        lhs_rs: if col_major { StrideWitness::Exact(1) } else { StrideWitness::Any },
        lhs_cs: StrideWitness::Any,
        rhs_rs: StrideWitness::Any,
        rhs_cs: StrideWitness::Any,
    }
}

/// The id lies inside the generated microkernel table for a tile of two
/// lane groups and `nr` columns: every tier's table is populated for
/// k-unroll indices 0 through 16, one or two MR lane groups, and 1 through
/// `nr` columns.
pub open spec fn kernel_id_in_table(id: MicroKernelId, nr: nat) -> bool {
    &&& id.k_index <= 16
    &&& id.mr_index < 2
    &&& id.nr_index < nr
}

impl Plan {
    /// Well-formedness, as every constructor establishes it. The scalar
    /// tier carries no kernel selection, has no register tile, and walks
    /// the naive loop. A SIMD tier carries a selection whose lane width and
    /// tile shape belong to the tier, whose mask indices lie inside the
    /// mask table, and whose four corner kernels lie inside the generated
    /// table; its millikernel is the noop walker exactly for an empty
    /// destination, the fill walker exactly for an empty product, and the
    /// direct walker only under recorded unit row strides on L and D.
    pub open spec fn wf(self) -> bool {
        &&& (self.isa == Isa::Scalar ==> {
            &&& self.kernels is None
            &&& self.mr == 0
            &&& self.nr == 0
            &&& self.millikernel == MilliKernel::Naive
        })
        &&& (self.isa != Isa::Scalar ==> {
            let lw = lane_width_spec(self.elem, self.isa);
            &&& self.kernels is Some
            &&& {
                let ks = self.kernels->Some_0;
                &&& lw > 0
                &&& ks.lane_width == lw
                &&& self.mr == 2 * lw
                &&& self.nr == nr_spec(self.elem)
                &&& ks.full_mask_index == 0
                &&& ks.last_mask_index < lw
                &&& kernel_id_in_table(ks.interior, self.nr as nat)
                &&& kernel_id_in_table(ks.n_edge, self.nr as nat)
                &&& kernel_id_in_table(ks.m_edge, self.nr as nat)
                &&& kernel_id_in_table(ks.mn_edge, self.nr as nat)
            }
            &&& (self.millikernel == MilliKernel::Noop <==> (self.m == 0 || self.n == 0))
            &&& (self.m > 0 && self.n > 0 ==> (self.millikernel == MilliKernel::Fill <==> self.k
                == 0))
            &&& (self.millikernel == MilliKernel::Direct ==> self.dst_rs == StrideWitness::Exact(1)
                && self.lhs_rs == StrideWitness::Exact(1))
        })
    }
}

/// Every constructed plan is well formed.
pub proof fn lemma_plans_wf(elem: Elem, isa: Isa, m: usize, n: usize, k: usize, col_major: bool)
    ensures
        plan_spec(elem, isa, m, n, k, col_major).wf(),
{
}

/// Whether a concrete execute-time stride satisfies a recorded witness.
pub open spec fn stride_matches(w: StrideWitness, s: isize) -> bool {
    match w {
        StrideWitness::Any => true,
        StrideWitness::Exact(v) => s == v,
    }
}

/// Relies on raw_cpuid: `CpuId::new().get_extended_feature_info()` reads
/// CPUID leaf 7 and `ExtendedFeatures::has_avx512f` reports the AVX512F
/// flag. The result depends on the machine the call runs on, so nothing is
/// stated of it.
#[verifier::external_body]
fn cpu_has_avx512f() -> bool {
    match raw_cpuid::CpuId::new().get_extended_feature_info() {
        Some(features) => features.has_avx512f(),
        None => false,
    }
}

/// Relies on raw_cpuid: `CpuId::new().get_feature_info()` reads CPUID leaf 1
/// and `FeatureInfo::has_avx` reports the AVX flag. The result depends on
/// the machine, so nothing is stated of it.
#[verifier::external_body]
fn cpu_has_avx() -> bool {
    match raw_cpuid::CpuId::new().get_feature_info() {
        Some(features) => features.has_avx(),
        None => false,
    }
}

/// Relies on raw_cpuid: `CpuId::new().get_extended_feature_info()` reads
/// CPUID leaf 7 and `ExtendedFeatures::has_avx2` reports the AVX2 flag. The
/// result depends on the machine, so nothing is stated of it.
#[verifier::external_body]
fn cpu_has_avx2() -> bool {
    match raw_cpuid::CpuId::new().get_extended_feature_info() {
        Some(features) => features.has_avx2(),
        None => false,
    }
}

/// Relies on raw_cpuid: `CpuId::new().get_feature_info()` reads CPUID leaf 1
/// and `FeatureInfo::has_fma` reports the FMA flag. The result depends on
/// the machine, so nothing is stated of it.
#[verifier::external_body]
fn cpu_has_fma() -> bool {
    match raw_cpuid::CpuId::new().get_feature_info() {
        Some(features) => features.has_fma(),
        None => false,
    }
}

/// Lane width of one SIMD register for `elem` under `isa`, in elements.
pub fn lane_width(elem: Elem, isa: Isa) -> (w: usize)
    ensures
        w == lane_width_spec(elem, isa),
{
    match isa {
        Isa::Scalar => 0,
        Isa::Avx => match elem {
            Elem::F32 => 8,
            Elem::F64 => 4,
            Elem::C32 => 4,
            Elem::C64 => 2,
        },
        Isa::Avx512 => match elem {
            Elem::F32 => 16,
            Elem::F64 => 8,
            Elem::C32 => 8,
            Elem::C64 => 4,
        },
    }
}

impl Plan {
    /// Builds the plan for a known tier. The public constructors select the
    /// tier by runtime feature detection and delegate here.
    fn new_with_isa(elem: Elem, isa: Isa, m: usize, n: usize, k: usize, is_col_major: bool) -> (r: Plan)
        ensures
            r == plan_spec(elem, isa, m, n, k, is_col_major),
    {
        let row_witness: StrideWitness = if is_col_major {
            StrideWitness::Exact(1)
        } else {
            StrideWitness::Any
        };
        if matches!(isa, Isa::Scalar) {
            Plan {
                elem,
                isa,
                millikernel: MilliKernel::Naive,
                mr: 0,
                nr: 0,
                kernels: None,
                m,
                n,
                k,
                dst_rs: row_witness,
                dst_cs: StrideWitness::Any,
                lhs_rs: row_witness,
                lhs_cs: StrideWitness::Any,
                rhs_rs: StrideWitness::Any,
                rhs_cs: StrideWitness::Any,
            }
        } else {
            let lw: usize = lane_width(elem, isa);
            let nr: usize = match elem {
                Elem::F32 => 4,
                Elem::F64 => 4,
                Elem::C32 => 2,
                Elem::C64 => 2,
            };
            let ki: usize = if k == 0 {
                16
            } else if k - 1 < 16 {
                k - 1
            } else {
                16
            };
            let me: usize = if m == 0 { 0 } else { ((m - 1) / lw) % 2 };
            let ne: usize = if n == 0 { 0 } else { (n - 1) % nr };
            let millikernel: MilliKernel = if m == 0 || n == 0 {
                MilliKernel::Noop
            } else if k == 0 {
                MilliKernel::Fill
            } else if is_col_major {
                MilliKernel::Direct
            } else {
                MilliKernel::Copy
            };
            Plan {
                elem,
                isa,
                millikernel,
                mr: 2 * lw,
                nr,
                kernels: Some(KernelSelect {
                    lane_width: lw,
                    interior: MicroKernelId { k_index: ki, mr_index: 1, nr_index: nr - 1 },
                    n_edge: MicroKernelId { k_index: ki, mr_index: 1, nr_index: ne },
                    m_edge: MicroKernelId { k_index: ki, mr_index: me, nr_index: nr - 1 },
                    mn_edge: MicroKernelId { k_index: ki, mr_index: me, nr_index: ne },
                    full_mask_index: 0,
                    last_mask_index: m % lw,
                }),
                m,
                n,
                k,
                dst_rs: row_witness,
                dst_cs: StrideWitness::Any,
                lhs_rs: row_witness,
                lhs_cs: StrideWitness::Any,
                rhs_rs: StrideWitness::Any,
                rhs_cs: StrideWitness::Any,
            }
        }
    }

    /// f32 plan for the scalar tier.
    pub fn new_f32_scalar(m: usize, n: usize, k: usize, is_col_major: bool) -> (r: Plan)
        ensures
            r == plan_spec(Elem::F32, Isa::Scalar, m, n, k, is_col_major),
    {
        Self::new_with_isa(Elem::F32, Isa::Scalar, m, n, k, is_col_major)
    }

    /// f32 plan for the AVX tier: 8 f32 lanes, a 16 x 4 register tile.
    pub fn new_f32_avx(m: usize, n: usize, k: usize, is_col_major: bool) -> (r: Plan)
        ensures
            r == plan_spec(Elem::F32, Isa::Avx, m, n, k, is_col_major),
    {
        Self::new_with_isa(Elem::F32, Isa::Avx, m, n, k, is_col_major)
    }

    /// f32 plan for the AVX-512 tier: 16 f32 lanes, a 32 x 4 register tile.
    pub fn new_f32_avx512(m: usize, n: usize, k: usize, is_col_major: bool) -> (r: Plan)
        ensures
            r == plan_spec(Elem::F32, Isa::Avx512, m, n, k, is_col_major),
    {
        Self::new_with_isa(Elem::F32, Isa::Avx512, m, n, k, is_col_major)
    }

    /// f32 plan promising unit row stride on L and D at execute time. Picks
    /// the best available tier: AVX-512, then AVX (with AVX2 and FMA), then
    /// scalar.
    pub fn new_colmajor_lhs_and_dst_f32(m: usize, n: usize, k: usize) -> (r: Plan)
        ensures
            r == plan_spec(Elem::F32, r.isa, m, n, k, true),
    {
        if cpu_has_avx512f() {
            Self::new_f32_avx512(m, n, k, true)
        } else if cpu_has_avx() && cpu_has_avx2() && cpu_has_fma() {
            Self::new_f32_avx(m, n, k, true)
        } else {
            Self::new_f32_scalar(m, n, k, true)
        }
    }

    /// f32 plan with no stride promises. Picks the best available tier:
    /// AVX-512, then AVX (with AVX2 and FMA), then scalar.
    pub fn new_f32(m: usize, n: usize, k: usize) -> (r: Plan)
        ensures
            r == plan_spec(Elem::F32, r.isa, m, n, k, false),
    {
        if cpu_has_avx512f() {
            Self::new_f32_avx512(m, n, k, false)
        } else if cpu_has_avx() && cpu_has_avx2() && cpu_has_fma() {
            Self::new_f32_avx(m, n, k, false)
        } else {
            Self::new_f32_scalar(m, n, k, false)
        }
    }

    /// f64 plan for the scalar tier.
    pub fn new_f64_scalar(m: usize, n: usize, k: usize, is_col_major: bool) -> (r: Plan)
        ensures
            r == plan_spec(Elem::F64, Isa::Scalar, m, n, k, is_col_major),
    {
        Self::new_with_isa(Elem::F64, Isa::Scalar, m, n, k, is_col_major)
    }

    /// f64 plan for the AVX tier: 4 f64 lanes, an 8 x 4 register tile.
    pub fn new_f64_avx(m: usize, n: usize, k: usize, is_col_major: bool) -> (r: Plan)
        ensures
            r == plan_spec(Elem::F64, Isa::Avx, m, n, k, is_col_major),
    {
        Self::new_with_isa(Elem::F64, Isa::Avx, m, n, k, is_col_major)
    }

    /// f64 plan for the AVX-512 tier: 8 f64 lanes, a 16 x 4 register tile.
    pub fn new_f64_avx512(m: usize, n: usize, k: usize, is_col_major: bool) -> (r: Plan)
        ensures
            r == plan_spec(Elem::F64, Isa::Avx512, m, n, k, is_col_major),
    {
        Self::new_with_isa(Elem::F64, Isa::Avx512, m, n, k, is_col_major)
    }

    /// f64 plan promising unit row stride on L and D at execute time. Picks
    /// the best available tier: AVX-512, then AVX (with AVX2 and FMA), then
    /// scalar.
    pub fn new_colmajor_lhs_and_dst_f64(m: usize, n: usize, k: usize) -> (r: Plan)
        ensures
            r == plan_spec(Elem::F64, r.isa, m, n, k, true),
    {
        if cpu_has_avx512f() {
            Self::new_f64_avx512(m, n, k, true)
        } else if cpu_has_avx() && cpu_has_avx2() && cpu_has_fma() {
            Self::new_f64_avx(m, n, k, true)
        } else {
            Self::new_f64_scalar(m, n, k, true)
        }
    }

    /// f64 plan with no stride promises. Picks the best available tier:
    /// AVX-512, then AVX (with AVX2 and FMA), then scalar.
    pub fn new_f64(m: usize, n: usize, k: usize) -> (r: Plan)
        ensures
            r == plan_spec(Elem::F64, r.isa, m, n, k, false),
    {
        if cpu_has_avx512f() {
            Self::new_f64_avx512(m, n, k, false)
        } else if cpu_has_avx() && cpu_has_avx2() && cpu_has_fma() {
            Self::new_f64_avx(m, n, k, false)
        } else {
            Self::new_f64_scalar(m, n, k, false)
        }
    }

    /// c32 plan for the scalar tier.
    pub fn new_c32_scalar(m: usize, n: usize, k: usize, is_col_major: bool) -> (r: Plan)
        ensures
            r == plan_spec(Elem::C32, Isa::Scalar, m, n, k, is_col_major),
    {
        Self::new_with_isa(Elem::C32, Isa::Scalar, m, n, k, is_col_major)
    }

    /// c32 plan for the AVX tier: 4 c32 lanes, an 8 x 2 register tile.
    pub fn new_c32_avx(m: usize, n: usize, k: usize, is_col_major: bool) -> (r: Plan)
        ensures
            r == plan_spec(Elem::C32, Isa::Avx, m, n, k, is_col_major),
    {
        Self::new_with_isa(Elem::C32, Isa::Avx, m, n, k, is_col_major)
    }

    /// c32 plan for the AVX-512 tier: 8 c32 lanes, a 16 x 2 register tile.
    pub fn new_c32_avx512(m: usize, n: usize, k: usize, is_col_major: bool) -> (r: Plan)
        ensures
            r == plan_spec(Elem::C32, Isa::Avx512, m, n, k, is_col_major),
    {
        Self::new_with_isa(Elem::C32, Isa::Avx512, m, n, k, is_col_major)
    }

    /// c32 plan promising unit row stride on L and D at execute time. Picks
    /// the best available tier: AVX-512, then AVX (with AVX2 and FMA), then
    /// scalar.
    pub fn new_colmajor_lhs_and_dst_c32(m: usize, n: usize, k: usize) -> (r: Plan)
        ensures
            r == plan_spec(Elem::C32, r.isa, m, n, k, true),
    {
        if cpu_has_avx512f() {
            Self::new_c32_avx512(m, n, k, true)
        } else if cpu_has_avx() && cpu_has_avx2() && cpu_has_fma() {
            Self::new_c32_avx(m, n, k, true)
        } else {
            Self::new_c32_scalar(m, n, k, true)
        }
    }

    /// c32 plan with no stride promises. Picks the best available tier:
    /// AVX-512, then AVX (with AVX2 and FMA), then scalar.
    pub fn new_c32(m: usize, n: usize, k: usize) -> (r: Plan)
        ensures
            r == plan_spec(Elem::C32, r.isa, m, n, k, false),
    {
        if cpu_has_avx512f() {
            Self::new_c32_avx512(m, n, k, false)
        } else if cpu_has_avx() && cpu_has_avx2() && cpu_has_fma() {
            Self::new_c32_avx(m, n, k, false)
        } else {
            Self::new_c32_scalar(m, n, k, false)
        }
    }

    /// c64 plan for the scalar tier.
    pub fn new_c64_scalar(m: usize, n: usize, k: usize, is_col_major: bool) -> (r: Plan)
        ensures
            r == plan_spec(Elem::C64, Isa::Scalar, m, n, k, is_col_major),
    {
        Self::new_with_isa(Elem::C64, Isa::Scalar, m, n, k, is_col_major)
    }

    /// c64 plan for the AVX tier: 2 c64 lanes, a 4 x 2 register tile.
    pub fn new_c64_avx(m: usize, n: usize, k: usize, is_col_major: bool) -> (r: Plan)
        ensures
            r == plan_spec(Elem::C64, Isa::Avx, m, n, k, is_col_major),
    {
        Self::new_with_isa(Elem::C64, Isa::Avx, m, n, k, is_col_major)
    }

    /// c64 plan for the AVX-512 tier: 4 c64 lanes, an 8 x 2 register tile.
    pub fn new_c64_avx512(m: usize, n: usize, k: usize, is_col_major: bool) -> (r: Plan)
        ensures
            r == plan_spec(Elem::C64, Isa::Avx512, m, n, k, is_col_major),
    {
        Self::new_with_isa(Elem::C64, Isa::Avx512, m, n, k, is_col_major)
    }

    /// c64 plan promising unit row stride on L and D at execute time. Picks
    /// the best available tier: AVX-512, then AVX (with AVX2 and FMA), then
    /// scalar.
    pub fn new_colmajor_lhs_and_dst_c64(m: usize, n: usize, k: usize) -> (r: Plan)
        ensures
            r == plan_spec(Elem::C64, r.isa, m, n, k, true),
    {
        if cpu_has_avx512f() {
            Self::new_c64_avx512(m, n, k, true)
        } else if cpu_has_avx() && cpu_has_avx2() && cpu_has_fma() {
            Self::new_c64_avx(m, n, k, true)
        } else {
            Self::new_c64_scalar(m, n, k, true)
        }
    }

    /// c64 plan with no stride promises. Picks the best available tier:
    /// AVX-512, then AVX (with AVX2 and FMA), then scalar.
    pub fn new_c64(m: usize, n: usize, k: usize) -> (r: Plan)
        ensures
            r == plan_spec(Elem::C64, r.isa, m, n, k, false),
    {
        if cpu_has_avx512f() {
            Self::new_c64_avx512(m, n, k, false)
        } else if cpu_has_avx() && cpu_has_avx2() && cpu_has_fma() {
            Self::new_c64_avx(m, n, k, false)
        } else {
            Self::new_c64_scalar(m, n, k, false)
        }
    }

    /// True exactly when the given execute-time shape and strides satisfy
    /// this plan's recorded profile: m, n and k must match, and each stride
    /// must satisfy its witness. The execute path is unchecked in release
    /// builds; this is the cross-check it applies in debug builds.
    pub fn execute_args_match(
        &self,
        m: usize,
        n: usize,
        k: usize,
        dst_rs: isize,
        dst_cs: isize,
        lhs_rs: isize,
        lhs_cs: isize,
        rhs_rs: isize,
        rhs_cs: isize,
    ) -> (ok: bool)
        ensures
            ok == (m == self.m && n == self.n && k == self.k
                && stride_matches(self.dst_rs, dst_rs)
                && stride_matches(self.dst_cs, dst_cs)
                && stride_matches(self.lhs_rs, lhs_rs)
                && stride_matches(self.lhs_cs, lhs_cs)
                && stride_matches(self.rhs_rs, rhs_rs)
                && stride_matches(self.rhs_cs, rhs_cs)),
    {
        m == self.m && n == self.n && k == self.k
            && Self::stride_ok(self.dst_rs, dst_rs)
            && Self::stride_ok(self.dst_cs, dst_cs)
            && Self::stride_ok(self.lhs_rs, lhs_rs)
            && Self::stride_ok(self.lhs_cs, lhs_cs)
            && Self::stride_ok(self.rhs_rs, rhs_rs)
            && Self::stride_ok(self.rhs_cs, rhs_cs)
    }

    /// Whether one concrete stride satisfies one recorded witness.
    pub fn stride_ok(w: StrideWitness, s: isize) -> (ok: bool)
        ensures
            ok == stride_matches(w, s),
    {
        match w {
            StrideWitness::Any => true,
            StrideWitness::Exact(v) => s == v,
        }
    }
}

/// Millikernel-selection law. The scalar tier always records the naive
/// loop. A SIMD-tier plan records the noop walker exactly when the
/// destination is empty (m == 0 or n == 0), so such a call touches nothing;
/// the fill walker exactly when the destination is non-empty and k == 0, so
/// the update is alpha * D alone, independent of L and R (zeros when alpha
/// is zero); and otherwise the direct walker under the column-major promise
/// and the copying walker without it.
pub proof fn lemma_millikernel_selection(
    elem: Elem,
    isa: Isa,
    m: usize,
    n: usize,
    k: usize,
    col_major: bool,
)
    ensures
        ({
            let p = plan_spec(elem, isa, m, n, k, col_major);
            &&& (isa == Isa::Scalar ==> p.millikernel == MilliKernel::Naive)
            &&& (isa != Isa::Scalar ==> (p.millikernel == MilliKernel::Noop <==> (m == 0 || n
                == 0)))
            &&& (isa != Isa::Scalar ==> (p.millikernel == MilliKernel::Fill <==> (m > 0 && n > 0
                && k == 0)))
            &&& (isa != Isa::Scalar ==> (p.millikernel == MilliKernel::Direct <==> (m > 0 && n > 0
                && k > 0 && col_major)))
            &&& (isa != Isa::Scalar ==> (p.millikernel == MilliKernel::Copy <==> (m > 0 && n > 0
                && k > 0 && !col_major)))
        }),
{
}

/// Stride-witness law. A plan built without the column-major promise
/// records no stride expectation at all: its execute-time cross-check
/// accepts every combination of the six strides, so arbitrary row and
/// column strides — unit, non-unit or negative — reach the recorded
/// millikernel unchanged. A plan built with the promise pins exactly the
/// two row strides of L and D to one and constrains nothing else.
pub proof fn lemma_stride_witnesses(elem: Elem, isa: Isa, m: usize, n: usize, k: usize)
    ensures
        ({
            let general = plan_spec(elem, isa, m, n, k, false);
            &&& general.dst_rs == StrideWitness::Any
            &&& general.dst_cs == StrideWitness::Any
            &&& general.lhs_rs == StrideWitness::Any
            &&& general.lhs_cs == StrideWitness::Any
            &&& general.rhs_rs == StrideWitness::Any
            &&& general.rhs_cs == StrideWitness::Any
            &&& forall|s: isize| stride_matches(general.dst_rs, s)
            &&& forall|s: isize| stride_matches(general.dst_cs, s)
            &&& forall|s: isize| stride_matches(general.lhs_rs, s)
            &&& forall|s: isize| stride_matches(general.lhs_cs, s)
            &&& forall|s: isize| stride_matches(general.rhs_rs, s)
            &&& forall|s: isize| stride_matches(general.rhs_cs, s)
        }),
        ({
            let promised = plan_spec(elem, isa, m, n, k, true);
            &&& promised.dst_rs == StrideWitness::Exact(1)
            &&& promised.lhs_rs == StrideWitness::Exact(1)
            &&& promised.dst_cs == StrideWitness::Any
            &&& promised.lhs_cs == StrideWitness::Any
            &&& promised.rhs_rs == StrideWitness::Any
            &&& promised.rhs_cs == StrideWitness::Any
        }),
{
}

} // verus!

