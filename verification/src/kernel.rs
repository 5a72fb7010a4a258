use vstd::prelude::*;

use crate::data_type::MetricType;
use crate::error::{is_unsupported, Error, Result};

verus! {

/// Maximum dimension accepted by `i8` kernels.
///
/// The `i32` accumulation is exact up to this dimension.
pub const MAX_I8_DIMENSION: usize = 32_768;

/// An instruction-set path a kernel can execute on.
#[non_exhaustive]
#[derive(Clone, Copy, Debug, Eq, Hash, PartialEq, Structural)]
pub enum KernelPath {
    /// Portable scalar fallback; available on every CPU.
    Scalar,
    /// x86-64 AVX2 family.
    Avx2,
    /// x86-64 AVX-512 family.
    Avx512,
    /// `AArch64` NEON.
    Neon,
}

/// The element type of the vectors a kernel scores.
#[derive(Clone, Copy, Debug, Eq, PartialEq, Structural)]
pub enum ElementKind {
    /// Single-precision components.
    F32,
    /// Half-precision components.
    F16,
    /// Signed 8-bit integer components.
    I8,
}

/// A target architecture with kernel paths of its own.
#[derive(Clone, Copy, Debug, Eq, PartialEq, Structural)]
pub enum Arch {
    /// x86-64.
    X86_64,
    /// `AArch64`.
    Aarch64,
}

/// The CPU features that decide which kernel paths can run.
#[derive(Clone, Copy, Debug, Eq, PartialEq, Structural)]
pub struct FeatureSet {
    /// AVX2.
    pub avx2: bool,
    /// Fused multiply-add.
    pub fma: bool,
    /// Half-precision conversion instructions.
    pub f16c: bool,
    /// AVX-512 foundation.
    pub avx512f: bool,
    /// AVX-512 byte and word instructions.
    pub avx512bw: bool,
    /// AVX-512 vector neural-network instructions.
    pub avx512vnni: bool,
    /// `AArch64` NEON.
    pub neon: bool,
}

impl Default for FeatureSet {
    /// No features.
    fn default() -> (r: Self)
        ensures
            r == (FeatureSet {
                avx2: false,
                fma: false,
                f16c: false,
                avx512f: false,
                avx512bw: false,
                avx512vnni: false,
                neon: false,
            }),
    {
        FeatureSet {
            avx2: false,
            fma: false,
            f16c: false,
            avx512f: false,
            avx512bw: false,
            avx512vnni: false,
            neon: false,
        }
    }
}

/// The kernel paths for which a kernel table holds an implementation.
#[derive(Clone, Copy, Debug, Eq, PartialEq, Structural)]
pub struct ImplementedPaths {
    /// The portable scalar kernel.
    pub scalar: bool,
    /// An AVX2 kernel.
    pub avx2: bool,
    /// An AVX-512 kernel.
    pub avx512: bool,
    /// A NEON kernel.
    pub neon: bool,
}

impl ImplementedPaths {
    /// A table holding only the scalar kernel.
    pub open spec fn spec_scalar_only() -> ImplementedPaths {
        ImplementedPaths { scalar: true, avx2: false, avx512: false, neon: false }
    }

    /// Returns the paths of a table that holds only the scalar kernel, as every kernel table of
    /// this version does.
    pub fn scalar_only() -> (r: Self)
        ensures
            r == Self::spec_scalar_only(),
    {
        ImplementedPaths { scalar: true, avx2: false, avx512: false, neon: false }
    }
}

/// Whether a path can run an element type's kernel for a metric: it is implemented, belongs to
/// the architecture, and the CPU has the features the element type needs on it. On AVX-512,
/// `i8` squared L2 widens with BW instructions, while the `i8` dot metrics also need VNNI.
pub open spec fn path_supported(
    arch: Arch,
    features: FeatureSet,
    implemented: ImplementedPaths,
    element: ElementKind,
    metric: MetricType,
    path: KernelPath,
) -> bool {
    match path {
        KernelPath::Scalar => implemented.scalar,
        KernelPath::Avx2 => arch == Arch::X86_64 && implemented.avx2 && features.avx2 && match element {
            ElementKind::F32 => features.fma,
            ElementKind::F16 => features.fma && features.f16c,
            ElementKind::I8 => true,
        },
        KernelPath::Avx512 => arch == Arch::X86_64 && implemented.avx512 && features.avx512f && match element {
            ElementKind::F32 => true,
            ElementKind::F16 => features.f16c,
            ElementKind::I8 => features.avx512bw && (metric == MetricType::L2 || features.avx512vnni),
        },
        KernelPath::Neon => arch == Arch::Aarch64 && implemented.neon && features.neon,
    }
}

/// The paths tried when none is requested, best first.
pub open spec fn candidate_paths(arch: Arch) -> Seq<KernelPath> {
    match arch {
        Arch::X86_64 => seq![KernelPath::Avx512, KernelPath::Avx2, KernelPath::Scalar],
        Arch::Aarch64 => seq![KernelPath::Neon, KernelPath::Scalar],
    }
}

/// The first supported path among the candidates from position `i` on.
pub open spec fn first_supported(
    arch: Arch,
    features: FeatureSet,
    implemented: ImplementedPaths,
    element: ElementKind,
    metric: MetricType,
    i: int,
) -> Option<KernelPath>
    decreases candidate_paths(arch).len() - i,
{
    if i < 0 || i >= candidate_paths(arch).len() {
        None
    } else if path_supported(arch, features, implemented, element, metric, candidate_paths(arch)[i]) {
        Some(candidate_paths(arch)[i])
    } else {
        first_supported(arch, features, implemented, element, metric, i + 1)
    }
}

/// The `Debug` name of a kernel path.
pub open spec fn path_name(path: KernelPath) -> Seq<char> {
    match path {
        KernelPath::Scalar => "Scalar"@,
        KernelPath::Avx2 => "Avx2"@,
        KernelPath::Avx512 => "Avx512"@,
        KernelPath::Neon => "Neon"@,
    }
}

/// The `Debug` name of an element kind.
pub open spec fn element_name(element: ElementKind) -> Seq<char> {
    match element {
        ElementKind::F32 => "F32"@,
        ElementKind::F16 => "F16"@,
        ElementKind::I8 => "I8"@,
    }
}

/// The `Debug` name of an architecture.
pub open spec fn arch_name(arch: Arch) -> Seq<char> {
    match arch {
        Arch::X86_64 => "X86_64"@,
        Arch::Aarch64 => "Aarch64"@,
    }
}

/// The path chosen for an element type, or the message of the unsupported-operation error: a
/// requested path is taken exactly when it is supported; otherwise the best supported
/// candidate is taken.
pub open spec fn resolved_path(
    arch: Arch,
    features: FeatureSet,
    implemented: ImplementedPaths,
    element: ElementKind,
    metric: MetricType,
    requested: Option<KernelPath>,
) -> core::result::Result<KernelPath, Seq<char>> {
    match requested {
        Some(path) => if path_supported(arch, features, implemented, element, metric, path) {
            Ok(path)
        } else {
            Err(path_name(path) + " is unavailable for "@ + element_name(element) + " on "@ + arch_name(arch))
        },
        None => match first_supported(arch, features, implemented, element, metric, 0) {
            Some(path) => Ok(path),
            None => Err("no implemented score-kernel path is available"@),
        },
    }
}

fn path_text(path: KernelPath) -> (r: &'static str)
    ensures
        r@ == path_name(path),
{
    match path {
        KernelPath::Scalar => "Scalar",
        KernelPath::Avx2 => "Avx2",
        KernelPath::Avx512 => "Avx512",
        KernelPath::Neon => "Neon",
    }
}

fn element_text(element: ElementKind) -> (r: &'static str)
    ensures
        r@ == element_name(element),
{
    match element {
        ElementKind::F32 => "F32",
        ElementKind::F16 => "F16",
        ElementKind::I8 => "I8",
    }
}

fn arch_text(arch: Arch) -> (r: &'static str)
    ensures
        r@ == arch_name(arch),
{
    match arch {
        Arch::X86_64 => "X86_64",
        Arch::Aarch64 => "Aarch64",
    }
}

fn supported(
    arch: Arch,
    features: &FeatureSet,
    implemented: &ImplementedPaths,
    element: ElementKind,
    metric: MetricType,
    path: KernelPath,
) -> (r: bool)
    ensures
        r == path_supported(arch, *features, *implemented, element, metric, path),
{
    match path {
        KernelPath::Scalar => implemented.scalar,
        KernelPath::Avx2 => {
            arch == Arch::X86_64 && implemented.avx2 && features.avx2 && match element {
                ElementKind::F32 => features.fma,
                ElementKind::F16 => features.fma && features.f16c,
                ElementKind::I8 => true,
            }
        },
        KernelPath::Avx512 => {
            arch == Arch::X86_64 && implemented.avx512 && features.avx512f && match element {
                ElementKind::F32 => true,
                ElementKind::F16 => features.f16c,
                ElementKind::I8 => features.avx512bw && (metric == MetricType::L2 || features.avx512vnni),
            }
        },
        KernelPath::Neon => arch == Arch::Aarch64 && implemented.neon && features.neon,
    }
}

/// Chooses the kernel path for an element type and metric: the requested path if it is
/// supported, or else the best supported path of the architecture.
///
/// # Errors
///
/// Returns [`Error::Unsupported`] when the requested path is not supported, or when no path
/// is.
pub fn resolve_path(
    arch: Arch,
    features: &FeatureSet,
    implemented: &ImplementedPaths,
    element: ElementKind,
    metric: MetricType,
    requested: Option<KernelPath>,
) -> (r: Result<KernelPath>)
    ensures
        match resolved_path(arch, *features, *implemented, element, metric, requested) {
            Ok(p) => r matches Ok(q) && q == p,
            Err(m) => r matches Err(e) && is_unsupported(e, m),
        },
{
    if let Some(path) = requested {
        if supported(arch, features, implemented, element, metric, path) {
            return Ok(path);
        } else {
            let mut s = path_text(path).to_owned();
            s.append(" is unavailable for ");
            s.append(element_text(element));
            s.append(" on ");
            s.append(arch_text(arch));
            return Err(Error::Unsupported { message: s });
        }
    }
    let candidates: Vec<KernelPath> = match arch {
        Arch::X86_64 => vec![KernelPath::Avx512, KernelPath::Avx2, KernelPath::Scalar],
        Arch::Aarch64 => vec![KernelPath::Neon, KernelPath::Scalar],
    };
    assert(candidates@ =~= candidate_paths(arch));
    let mut i: usize = 0;
    while i < candidates.len()
        invariant
            requested is None,
            candidates@ == candidate_paths(arch),
            0 <= i <= candidates@.len(),
            first_supported(arch, *features, *implemented, element, metric, 0)
                == first_supported(arch, *features, *implemented, element, metric, i as int),
        decreases candidates@.len() - i,
    {
        let path = candidates[i];
        if supported(arch, features, implemented, element, metric, path) {
            return Ok(path);
        }
        i = i + 1;
    }
    Err(Error::unsupported("no implemented score-kernel path is available"))
}

/// Resolution against a table that holds only the scalar kernel always yields the scalar path,
/// whether a path was requested or not, so a resolved path always has a kernel to run.
pub proof fn lemma_scalar_only_resolves_to_scalar(
    arch: Arch,
    features: FeatureSet,
    element: ElementKind,
    metric: MetricType,
    requested: Option<KernelPath>,
)
    ensures
        resolved_path(arch, features, ImplementedPaths::spec_scalar_only(), element, metric, requested) matches Ok(p)
            ==> p == KernelPath::Scalar,
        requested is None ==> resolved_path(arch, features, ImplementedPaths::spec_scalar_only(), element, metric, requested)
            == Ok::<KernelPath, Seq<char>>(KernelPath::Scalar),
        requested == Some(KernelPath::Scalar) ==> resolved_path(
            arch,
            features,
            ImplementedPaths::spec_scalar_only(),
            element,
            metric,
            requested,
        ) == Ok::<KernelPath, Seq<char>>(KernelPath::Scalar),
{
    let imp = ImplementedPaths::spec_scalar_only();
    match arch {
        Arch::X86_64 => {
            assert(first_supported(arch, features, imp, element, metric, 3) is None);
            assert(first_supported(arch, features, imp, element, metric, 2) == Some(KernelPath::Scalar));
        },
        Arch::Aarch64 => {
            assert(first_supported(arch, features, imp, element, metric, 2) is None);
            assert(first_supported(arch, features, imp, element, metric, 1) == Some(KernelPath::Scalar));
        },
    }
}

/// The score a kernel computes: squared Euclidean distance, or the negated dot product.
#[derive(Clone, Copy, Debug, Eq, PartialEq, Structural)]
pub enum ScoreFormula {
    /// `Σ (a_i − b_i)²`, for [`MetricType::L2`].
    SquaredL2,
    /// `−Σ a_i·b_i`, for [`MetricType::InnerProduct`] and [`MetricType::Cosine`] over
    /// pre-normalized inputs.
    NegatedDot,
}

/// The formula that scores a metric: smaller scores are better for every metric.
pub open spec fn spec_score_formula(metric: MetricType) -> ScoreFormula {
    match metric {
        MetricType::L2 => ScoreFormula::SquaredL2,
        MetricType::InnerProduct => ScoreFormula::NegatedDot,
        MetricType::Cosine => ScoreFormula::NegatedDot,
    }
}

/// Returns the formula that scores a metric.
pub fn score_formula(metric: MetricType) -> (r: ScoreFormula)
    ensures
        r == spec_score_formula(metric),
{
    match metric {
        MetricType::L2 => ScoreFormula::SquaredL2,
        MetricType::InnerProduct | MetricType::Cosine => ScoreFormula::NegatedDot,
    }
}

/// Cosine and inner product are scored by the same kernel.
pub proof fn lemma_cosine_shares_inner_product()
    ensures
        spec_score_formula(MetricType::Cosine) == spec_score_formula(MetricType::InnerProduct),
{
}

/// The exact sum `Σ (a_i − b_i)²` over the first `n` components.
pub open spec fn squared_l2_i8_exact(a: Seq<i8>, b: Seq<i8>, n: int) -> int
    decreases n,
{
    if n <= 0 {
        0
    } else {
        squared_l2_i8_exact(a, b, n - 1) + (a[n - 1] - b[n - 1]) * (a[n - 1] - b[n - 1])
    }
}

/// The exact sum `Σ a_i·b_i` over the first `n` components.
pub open spec fn dot_i8_exact(a: Seq<i8>, b: Seq<i8>, n: int) -> int
    decreases n,
{
    if n <= 0 {
        0
    } else {
        dot_i8_exact(a, b, n - 1) + a[n - 1] * b[n - 1]
    }
}

/// Returns whether an `i8` vector dimension is within the kernels' exact range.
pub fn i8_dimension_supported(dimension: usize) -> (r: bool)
    ensures
        r == (dimension <= MAX_I8_DIMENSION),
{
    dimension <= MAX_I8_DIMENSION
}

/// The first target whose length differs from the query's, if any: scoring a batch requires
/// every target to have the query's dimension.
pub fn first_ragged_target(query_len: usize, target_lens: &[usize]) -> (r: Option<usize>)
    ensures
        match r {
            Some(i) => i < target_lens@.len() && target_lens@[i as int] != query_len
                && forall|j: int| 0 <= j < i ==> target_lens@[j] == query_len,
            None => forall|j: int| 0 <= j < target_lens@.len() ==> target_lens@[j] == query_len,
        },
{
    let mut i: usize = 0;
    while i < target_lens.len()
        invariant
            0 <= i <= target_lens@.len(),
            forall|j: int| 0 <= j < i ==> target_lens@[j] == query_len,
        decreases target_lens@.len() - i,
    {
        if target_lens[i] != query_len {
            return Some(i);
        }
        i = i + 1;
    }
    None
}

/// Why a row-major block of vectors does not fit a query and a row count.
#[derive(Clone, Copy, Debug, Eq, PartialEq, Structural)]
pub enum LayoutProblem {
    /// The query is empty, so rows cannot be told apart.
    EmptyQuery,
    /// The query length times the row count does not fit in `usize`.
    LengthOverflow,
    /// The block's length is not the query length times the row count.
    LengthMismatch {
        /// The length the block must have.
        expected: usize,
    },
}

/// Checks that `vectors_len` elements hold exactly `rows` rows of the query's dimension. The
/// checks run in order: an empty query, then an overflowing product, then a length mismatch.
pub fn contiguous_layout(query_len: usize, vectors_len: usize, rows: usize) -> (r: core::result::Result<(), LayoutProblem>)
    ensures
        query_len == 0 ==> r == Err::<(), LayoutProblem>(LayoutProblem::EmptyQuery),
        query_len > 0 && query_len * rows > usize::MAX ==> r == Err::<(), LayoutProblem>(
            LayoutProblem::LengthOverflow,
        ),
        query_len > 0 && query_len * rows <= usize::MAX && vectors_len != query_len * rows ==> r
            == Err::<(), LayoutProblem>(LayoutProblem::LengthMismatch { expected: (query_len * rows) as usize }),
        r is Ok <==> (query_len > 0 && vectors_len == query_len * rows),
{
    if query_len == 0 {
        return Err(LayoutProblem::EmptyQuery);
    }
    match query_len.checked_mul(rows) {
        None => Err(LayoutProblem::LengthOverflow),
        Some(expected) => {
            if vectors_len != expected {
                Err(LayoutProblem::LengthMismatch { expected })
            } else {
                Ok(())
            }
        },
    }
}

/// Accumulates `Σ (a_i − b_i)²` over `i8` vectors in `i32`, exactly.
pub fn squared_l2_i8_sum(a: &[i8], b: &[i8]) -> (r: i32)
    requires
        a@.len() == b@.len(),
        a@.len() <= MAX_I8_DIMENSION,
    ensures
        r == squared_l2_i8_exact(a@, b@, a@.len() as int),
{
    let mut sum: i32 = 0;
    let mut i: usize = 0;
    while i < a.len()
        invariant
            a@.len() == b@.len(),
            a@.len() <= MAX_I8_DIMENSION,
            0 <= i <= a@.len(),
            sum == squared_l2_i8_exact(a@, b@, i as int),
            0 <= sum <= i * 65025,
        decreases a@.len() - i,
    {
        sum = sum + squared_difference(a, b, i);
        i = i + 1;
    }
    sum
}

/// Accumulates `Σ a_i·b_i` over `i8` vectors in `i32`, exactly.
pub fn dot_i8_sum(a: &[i8], b: &[i8]) -> (r: i32)
    requires
        a@.len() == b@.len(),
        a@.len() <= MAX_I8_DIMENSION,
    ensures
        r == dot_i8_exact(a@, b@, a@.len() as int),
{
    let mut sum: i32 = 0;
    let mut i: usize = 0;
    while i < a.len()
        invariant
            a@.len() == b@.len(),
            a@.len() <= MAX_I8_DIMENSION,
            0 <= i <= a@.len(),
            sum == dot_i8_exact(a@, b@, i as int),
            -(i * 16384) <= sum <= i * 16384,
        decreases a@.len() - i,
    {
        sum = sum + product(a, b, i);
        i = i + 1;
    }
    sum
}

fn squared_difference(a: &[i8], b: &[i8], i: usize) -> (r: i32)
    requires
        i < a@.len(),
        i < b@.len(),
    ensures
        r == (a@[i as int] - b@[i as int]) * (a@[i as int] - b@[i as int]),
        0 <= r <= 65025,
{
    let difference: i32 = a[i] as i32 - b[i] as i32;
    assert(0 <= difference * difference <= 65025) by (nonlinear_arith)
        requires
            -255 <= difference <= 255,
    ;
    difference * difference
}

fn product(a: &[i8], b: &[i8], i: usize) -> (r: i32)
    requires
        i < a@.len(),
        i < b@.len(),
    ensures
        r == a@[i as int] * b@[i as int],
        -16384 <= r <= 16384,
{
    let x: i32 = a[i] as i32;
    let y: i32 = b[i] as i32;
    assert(-16384 <= x * y <= 16384) by (nonlinear_arith)
        requires
            -128 <= x <= 127,
            -128 <= y <= 127,
    ;
    x * y
}

/// Accumulates `Σ (a_i − b_i)²` over `i8` vectors in eight independent `i32` accumulators,
/// one per lane of each eight-component chunk, then adds the remainder; the result is the exact
/// sum.
pub fn chunked_squared_l2_i8_sum(a: &[i8], b: &[i8]) -> (r: i32)
    requires
        a@.len() == b@.len(),
        a@.len() <= MAX_I8_DIMENSION,
    ensures
        r == squared_l2_i8_exact(a@, b@, a@.len() as int),
{
    let n = a.len();
    let chunks = n / 8;
    let (mut s0, mut s1, mut s2, mut s3, mut s4, mut s5, mut s6, mut s7): (i32, i32, i32, i32, i32, i32, i32, i32) =
        (0, 0, 0, 0, 0, 0, 0, 0);
    let mut c: usize = 0;
    while c < chunks
        invariant
            n == a@.len(),
            a@.len() == b@.len(),
            n <= MAX_I8_DIMENSION,
            chunks == n / 8,
            0 <= c <= chunks,
            0 <= s0 <= c * 65025,
            0 <= s1 <= c * 65025,
            0 <= s2 <= c * 65025,
            0 <= s3 <= c * 65025,
            0 <= s4 <= c * 65025,
            0 <= s5 <= c * 65025,
            0 <= s6 <= c * 65025,
            0 <= s7 <= c * 65025,
            s0 + s1 + s2 + s3 + s4 + s5 + s6 + s7 == squared_l2_i8_exact(a@, b@, 8 * c),
        decreases chunks - c,
    {
        let base = 8 * c;
        let t0 = squared_difference(a, b, base);
        let t1 = squared_difference(a, b, base + 1);
        let t2 = squared_difference(a, b, base + 2);
        let t3 = squared_difference(a, b, base + 3);
        let t4 = squared_difference(a, b, base + 4);
        let t5 = squared_difference(a, b, base + 5);
        let t6 = squared_difference(a, b, base + 6);
        let t7 = squared_difference(a, b, base + 7);
        assert(squared_l2_i8_exact(a@, b@, 8 * c + 8) == squared_l2_i8_exact(a@, b@, 8 * c)
            + t0 + t1 + t2 + t3 + t4 + t5 + t6 + t7) by {
            reveal_with_fuel(squared_l2_i8_exact, 9);
        }
        s0 = s0 + t0;
        s1 = s1 + t1;
        s2 = s2 + t2;
        s3 = s3 + t3;
        s4 = s4 + t4;
        s5 = s5 + t5;
        s6 = s6 + t6;
        s7 = s7 + t7;
        c = c + 1;
    }
    let mut sum: i32 = s0 + s1 + s2 + s3 + s4 + s5 + s6 + s7;
    let mut i: usize = 8 * chunks;
    while i < n
        invariant
            n == a@.len(),
            a@.len() == b@.len(),
            n <= MAX_I8_DIMENSION,
            8 * chunks <= i <= n,
            0 <= sum <= i * 65025,
            sum == squared_l2_i8_exact(a@, b@, i as int),
        decreases n - i,
    {
        sum = sum + squared_difference(a, b, i);
        i = i + 1;
    }
    sum
}

/// Accumulates `Σ a_i·b_i` over `i8` vectors in eight independent `i32` accumulators, one per
/// lane of each eight-component chunk, then adds the remainder; the result is the exact sum.
pub fn chunked_dot_i8_sum(a: &[i8], b: &[i8]) -> (r: i32)
    requires
        a@.len() == b@.len(),
        a@.len() <= MAX_I8_DIMENSION,
    ensures
        r == dot_i8_exact(a@, b@, a@.len() as int),
{
    let n = a.len();
    let chunks = n / 8;
    let (mut s0, mut s1, mut s2, mut s3, mut s4, mut s5, mut s6, mut s7): (i32, i32, i32, i32, i32, i32, i32, i32) =
        (0, 0, 0, 0, 0, 0, 0, 0);
    let mut c: usize = 0;
    while c < chunks
        invariant
            n == a@.len(),
            a@.len() == b@.len(),
            n <= MAX_I8_DIMENSION,
            chunks == n / 8,
            0 <= c <= chunks,
            -(c * 16384) <= s0 <= c * 16384,
            -(c * 16384) <= s1 <= c * 16384,
            -(c * 16384) <= s2 <= c * 16384,
            -(c * 16384) <= s3 <= c * 16384,
            -(c * 16384) <= s4 <= c * 16384,
            -(c * 16384) <= s5 <= c * 16384,
            -(c * 16384) <= s6 <= c * 16384,
            -(c * 16384) <= s7 <= c * 16384,
            s0 + s1 + s2 + s3 + s4 + s5 + s6 + s7 == dot_i8_exact(a@, b@, 8 * c),
        decreases chunks - c,
    {
        let base = 8 * c;
        let t0 = product(a, b, base);
        let t1 = product(a, b, base + 1);
        let t2 = product(a, b, base + 2);
        let t3 = product(a, b, base + 3);
        let t4 = product(a, b, base + 4);
        let t5 = product(a, b, base + 5);
        let t6 = product(a, b, base + 6);
        let t7 = product(a, b, base + 7);
        assert(dot_i8_exact(a@, b@, 8 * c + 8) == dot_i8_exact(a@, b@, 8 * c)
            + t0 + t1 + t2 + t3 + t4 + t5 + t6 + t7) by {
            reveal_with_fuel(dot_i8_exact, 9);
        }
        s0 = s0 + t0;
        s1 = s1 + t1;
        s2 = s2 + t2;
        s3 = s3 + t3;
        s4 = s4 + t4;
        s5 = s5 + t5;
        s6 = s6 + t6;
        s7 = s7 + t7;
        c = c + 1;
    }
    let mut sum: i32 = s0 + s1 + s2 + s3 + s4 + s5 + s6 + s7;
    let mut i: usize = 8 * chunks;
    while i < n
        invariant
            n == a@.len(),
            a@.len() == b@.len(),
            n <= MAX_I8_DIMENSION,
            8 * chunks <= i <= n,
            -(i * 16384) <= sum <= i * 16384,
            sum == dot_i8_exact(a@, b@, i as int),
        decreases n - i,
    {
        sum = sum + product(a, b, i);
        i = i + 1;
    }
    sum
}

/// The exact sums stay within the ranges their component bounds give.
pub proof fn lemma_i8_sum_bounds(a: Seq<i8>, b: Seq<i8>, n: int)
    requires
        0 <= n,
    ensures
        0 <= squared_l2_i8_exact(a, b, n) <= n * 65025,
        -(n * 16384) <= dot_i8_exact(a, b, n) <= n * 16384,
    decreases n,
{
    if n > 0 {
        lemma_i8_sum_bounds(a, b, n - 1);
        let d = a[n - 1] - b[n - 1];
        assert(-255 <= d <= 255);
        assert(0 <= d * d <= 65025) by (nonlinear_arith)
            requires
                -255 <= d <= 255,
        ;
        let x = a[n - 1] as int;
        let y = b[n - 1] as int;
        assert(-16384 <= x * y <= 16384) by (nonlinear_arith)
            requires
                -128 <= x <= 127,
                -128 <= y <= 127,
        ;
    }
}

fn squared_pair(a: &[i8], b: &[i8], i: usize) -> (r: i32)
    requires
        i + 1 < a@.len(),
        a@.len() == b@.len(),
        a@.len() <= MAX_I8_DIMENSION,
    ensures
        r == squared_l2_i8_exact(a@, b@, i + 2) - squared_l2_i8_exact(a@, b@, i as int),
        0 <= r <= 130050,
{
    let x = squared_difference(a, b, i);
    let y = squared_difference(a, b, i + 1);
    assert(squared_l2_i8_exact(a@, b@, i + 1) == squared_l2_i8_exact(a@, b@, i as int) + x);
    assert(squared_l2_i8_exact(a@, b@, i + 2) == squared_l2_i8_exact(a@, b@, i + 1) + y);
    x + y
}

fn product_pair(a: &[i8], b: &[i8], i: usize) -> (r: i32)
    requires
        i + 1 < a@.len(),
        a@.len() == b@.len(),
        a@.len() <= MAX_I8_DIMENSION,
    ensures
        r == dot_i8_exact(a@, b@, i + 2) - dot_i8_exact(a@, b@, i as int),
        -32768 <= r <= 32768,
{
    let x = product(a, b, i);
    let y = product(a, b, i + 1);
    assert(dot_i8_exact(a@, b@, i + 1) == dot_i8_exact(a@, b@, i as int) + x);
    assert(dot_i8_exact(a@, b@, i + 2) == dot_i8_exact(a@, b@, i + 1) + y);
    x + y
}

/// Accumulates `Σ (a_i − b_i)²` over `i8` vectors in the lane layout of the AVX2 kernel:
/// 32-component chunks whose halves feed two banks of eight `i32` lanes, each lane taking the
/// squared differences of an adjacent pair; a 16-component tail feeds the first bank; the lanes
/// are summed and the remaining components added one by one. The result is the exact sum.
#[verifier::rlimit(60)]
pub fn avx2_squared_l2_i8_sum(a: &[i8], b: &[i8]) -> (r: i32)
    requires
        a@.len() == b@.len(),
        a@.len() <= MAX_I8_DIMENSION,
    ensures
        r == squared_l2_i8_exact(a@, b@, a@.len() as int),
{
    let n = a.len();
    let (mut f0, mut f1, mut f2, mut f3, mut f4, mut f5, mut f6, mut f7, mut s0, mut s1, mut s2, mut s3, mut s4, mut s5, mut s6, mut s7): (i32, i32, i32, i32, i32, i32, i32, i32, i32, i32, i32, i32, i32, i32, i32, i32) = (0, 0, 0, 0, 0, 0, 0, 0, 0, 0, 0, 0, 0, 0, 0, 0);
    let mut index: usize = 0;
    let mut c: usize = 0;
    while n - index >= 32
        invariant
            n == a@.len(),
            a@.len() == b@.len(),
            n <= MAX_I8_DIMENSION,
            index == 32 * c,
            index <= n,
            0 <= f0 <= (c + 1) * 130050,
            0 <= f1 <= (c + 1) * 130050,
            0 <= f2 <= (c + 1) * 130050,
            0 <= f3 <= (c + 1) * 130050,
            0 <= f4 <= (c + 1) * 130050,
            0 <= f5 <= (c + 1) * 130050,
            0 <= f6 <= (c + 1) * 130050,
            0 <= f7 <= (c + 1) * 130050,
            0 <= s0 <= (c + 1) * 130050,
            0 <= s1 <= (c + 1) * 130050,
            0 <= s2 <= (c + 1) * 130050,
            0 <= s3 <= (c + 1) * 130050,
            0 <= s4 <= (c + 1) * 130050,
            0 <= s5 <= (c + 1) * 130050,
            0 <= s6 <= (c + 1) * 130050,
            0 <= s7 <= (c + 1) * 130050,
            f0 + f1 + f2 + f3 + f4 + f5 + f6 + f7 + s0 + s1 + s2 + s3 + s4 + s5 + s6 + s7 == squared_l2_i8_exact(a@, b@, index as int),
        decreases n - index,
    {
        let x0 = squared_pair(a, b, index + 0);
        let y0 = squared_pair(a, b, index + 16);
        let x1 = squared_pair(a, b, index + 2);
        let y1 = squared_pair(a, b, index + 18);
        let x2 = squared_pair(a, b, index + 4);
        let y2 = squared_pair(a, b, index + 20);
        let x3 = squared_pair(a, b, index + 6);
        let y3 = squared_pair(a, b, index + 22);
        let x4 = squared_pair(a, b, index + 8);
        let y4 = squared_pair(a, b, index + 24);
        let x5 = squared_pair(a, b, index + 10);
        let y5 = squared_pair(a, b, index + 26);
        let x6 = squared_pair(a, b, index + 12);
        let y6 = squared_pair(a, b, index + 28);
        let x7 = squared_pair(a, b, index + 14);
        let y7 = squared_pair(a, b, index + 30);
        assert(squared_l2_i8_exact(a@, b@, index + 32) == squared_l2_i8_exact(a@, b@, index as int) + x0 + x1 + x2 + x3 + x4 + x5 + x6 + x7 + y0 + y1 + y2 + y3 + y4 + y5 + y6 + y7);
        f0 = f0 + x0;
        s0 = s0 + y0;
        f1 = f1 + x1;
        s1 = s1 + y1;
        f2 = f2 + x2;
        s2 = s2 + y2;
        f3 = f3 + x3;
        s3 = s3 + y3;
        f4 = f4 + x4;
        s4 = s4 + y4;
        f5 = f5 + x5;
        s5 = s5 + y5;
        f6 = f6 + x6;
        s6 = s6 + y6;
        f7 = f7 + x7;
        s7 = s7 + y7;
        index = index + 32;
        c = c + 1;
    }
    if n - index >= 16 {
        let x0 = squared_pair(a, b, index + 0);
        let x1 = squared_pair(a, b, index + 2);
        let x2 = squared_pair(a, b, index + 4);
        let x3 = squared_pair(a, b, index + 6);
        let x4 = squared_pair(a, b, index + 8);
        let x5 = squared_pair(a, b, index + 10);
        let x6 = squared_pair(a, b, index + 12);
        let x7 = squared_pair(a, b, index + 14);
        assert(squared_l2_i8_exact(a@, b@, index + 16) == squared_l2_i8_exact(a@, b@, index as int) + x0 + x1 + x2 + x3 + x4 + x5 + x6 + x7);
        f0 = f0 + x0;
        f1 = f1 + x1;
        f2 = f2 + x2;
        f3 = f3 + x3;
        f4 = f4 + x4;
        f5 = f5 + x5;
        f6 = f6 + x6;
        f7 = f7 + x7;
        index = index + 16;
    }
    proof {
        lemma_i8_sum_bounds(a@, b@, index as int);
    }
    let mut sum: i32 = f0 + f1 + f2 + f3 + f4 + f5 + f6 + f7 + s0 + s1 + s2 + s3 + s4 + s5 + s6 + s7;
    while index < n
        invariant
            n == a@.len(),
            a@.len() == b@.len(),
            n <= MAX_I8_DIMENSION,
            index <= n,
            0 <= sum <= index * 65025,
            sum == squared_l2_i8_exact(a@, b@, index as int),
        decreases n - index,
    {
        sum = sum + squared_difference(a, b, index);
        index = index + 1;
    }
    sum
}

/// Accumulates `Σ a_i·b_i` over `i8` vectors in the lane layout of the AVX2 kernel:
/// 32-component chunks whose halves feed two banks of eight `i32` lanes, each lane taking the
/// products of an adjacent pair; a 16-component tail feeds the first bank; the lanes are summed
/// and the remaining products added one by one. The result is the exact sum.
#[verifier::rlimit(60)]
pub fn avx2_dot_i8_sum(a: &[i8], b: &[i8]) -> (r: i32)
    requires
        a@.len() == b@.len(),
        a@.len() <= MAX_I8_DIMENSION,
    ensures
        r == dot_i8_exact(a@, b@, a@.len() as int),
{
    let n = a.len();
    let (mut f0, mut f1, mut f2, mut f3, mut f4, mut f5, mut f6, mut f7, mut s0, mut s1, mut s2, mut s3, mut s4, mut s5, mut s6, mut s7): (i32, i32, i32, i32, i32, i32, i32, i32, i32, i32, i32, i32, i32, i32, i32, i32) = (0, 0, 0, 0, 0, 0, 0, 0, 0, 0, 0, 0, 0, 0, 0, 0);
    let mut index: usize = 0;
    let mut c: usize = 0;
    while n - index >= 32
        invariant
            n == a@.len(),
            a@.len() == b@.len(),
            n <= MAX_I8_DIMENSION,
            index == 32 * c,
            index <= n,
            -((c + 1) * 32768) <= f0 <= (c + 1) * 32768,
            -((c + 1) * 32768) <= f1 <= (c + 1) * 32768,
            -((c + 1) * 32768) <= f2 <= (c + 1) * 32768,
            -((c + 1) * 32768) <= f3 <= (c + 1) * 32768,
            -((c + 1) * 32768) <= f4 <= (c + 1) * 32768,
            -((c + 1) * 32768) <= f5 <= (c + 1) * 32768,
            -((c + 1) * 32768) <= f6 <= (c + 1) * 32768,
            -((c + 1) * 32768) <= f7 <= (c + 1) * 32768,
            -((c + 1) * 32768) <= s0 <= (c + 1) * 32768,
            -((c + 1) * 32768) <= s1 <= (c + 1) * 32768,
            -((c + 1) * 32768) <= s2 <= (c + 1) * 32768,
            -((c + 1) * 32768) <= s3 <= (c + 1) * 32768,
            -((c + 1) * 32768) <= s4 <= (c + 1) * 32768,
            -((c + 1) * 32768) <= s5 <= (c + 1) * 32768,
            -((c + 1) * 32768) <= s6 <= (c + 1) * 32768,
            -((c + 1) * 32768) <= s7 <= (c + 1) * 32768,
            f0 + f1 + f2 + f3 + f4 + f5 + f6 + f7 + s0 + s1 + s2 + s3 + s4 + s5 + s6 + s7 == dot_i8_exact(a@, b@, index as int),
        decreases n - index,
    {
        let x0 = product_pair(a, b, index + 0);
        let y0 = product_pair(a, b, index + 16);
        let x1 = product_pair(a, b, index + 2);
        let y1 = product_pair(a, b, index + 18);
        let x2 = product_pair(a, b, index + 4);
        let y2 = product_pair(a, b, index + 20);
        let x3 = product_pair(a, b, index + 6);
        let y3 = product_pair(a, b, index + 22);
        let x4 = product_pair(a, b, index + 8);
        let y4 = product_pair(a, b, index + 24);
        let x5 = product_pair(a, b, index + 10);
        let y5 = product_pair(a, b, index + 26);
        let x6 = product_pair(a, b, index + 12);
        let y6 = product_pair(a, b, index + 28);
        let x7 = product_pair(a, b, index + 14);
        let y7 = product_pair(a, b, index + 30);
        assert(dot_i8_exact(a@, b@, index + 32) == dot_i8_exact(a@, b@, index as int) + x0 + x1 + x2 + x3 + x4 + x5 + x6 + x7 + y0 + y1 + y2 + y3 + y4 + y5 + y6 + y7);
        f0 = f0 + x0;
        s0 = s0 + y0;
        f1 = f1 + x1;
        s1 = s1 + y1;
        f2 = f2 + x2;
        s2 = s2 + y2;
        f3 = f3 + x3;
        s3 = s3 + y3;
        f4 = f4 + x4;
        s4 = s4 + y4;
        f5 = f5 + x5;
        s5 = s5 + y5;
        f6 = f6 + x6;
        s6 = s6 + y6;
        f7 = f7 + x7;
        s7 = s7 + y7;
        index = index + 32;
        c = c + 1;
    }
    if n - index >= 16 {
        let x0 = product_pair(a, b, index + 0);
        let x1 = product_pair(a, b, index + 2);
        let x2 = product_pair(a, b, index + 4);
        let x3 = product_pair(a, b, index + 6);
        let x4 = product_pair(a, b, index + 8);
        let x5 = product_pair(a, b, index + 10);
        let x6 = product_pair(a, b, index + 12);
        let x7 = product_pair(a, b, index + 14);
        assert(dot_i8_exact(a@, b@, index + 16) == dot_i8_exact(a@, b@, index as int) + x0 + x1 + x2 + x3 + x4 + x5 + x6 + x7);
        f0 = f0 + x0;
        f1 = f1 + x1;
        f2 = f2 + x2;
        f3 = f3 + x3;
        f4 = f4 + x4;
        f5 = f5 + x5;
        f6 = f6 + x6;
        f7 = f7 + x7;
        index = index + 16;
    }
    proof {
        lemma_i8_sum_bounds(a@, b@, index as int);
    }
    let mut sum: i32 = f0 + f1 + f2 + f3 + f4 + f5 + f6 + f7 + s0 + s1 + s2 + s3 + s4 + s5 + s6 + s7;
    while index < n
        invariant
            n == a@.len(),
            a@.len() == b@.len(),
            n <= MAX_I8_DIMENSION,
            index <= n,
            -(index * 16384) <= sum <= index * 16384,
            sum == dot_i8_exact(a@, b@, index as int),
        decreases n - index,
    {
        sum = sum + product(a, b, index);
        index = index + 1;
    }
    sum
}

/// Accumulates `Σ (a_i − b_i)²` over `i8` vectors in the lane layout of the AVX-512 kernel:
/// 64-component chunks whose halves feed two banks of sixteen `i32` lanes, each lane taking the
/// squared differences of an adjacent pair; the lanes are summed and the remaining components
/// added one by one. The result is the exact sum.
#[verifier::rlimit(60)]
pub fn avx512_squared_l2_i8_sum(a: &[i8], b: &[i8]) -> (r: i32)
    requires
        a@.len() == b@.len(),
        a@.len() <= MAX_I8_DIMENSION,
    ensures
        r == squared_l2_i8_exact(a@, b@, a@.len() as int),
{
    let n = a.len();
    let (mut f0, mut f1, mut f2, mut f3, mut f4, mut f5, mut f6, mut f7, mut f8, mut f9, mut f10, mut f11, mut f12, mut f13, mut f14, mut f15, mut s0, mut s1, mut s2, mut s3, mut s4, mut s5, mut s6, mut s7, mut s8, mut s9, mut s10, mut s11, mut s12, mut s13, mut s14, mut s15): (i32, i32, i32, i32, i32, i32, i32, i32, i32, i32, i32, i32, i32, i32, i32, i32, i32, i32, i32, i32, i32, i32, i32, i32, i32, i32, i32, i32, i32, i32, i32, i32) = (0, 0, 0, 0, 0, 0, 0, 0, 0, 0, 0, 0, 0, 0, 0, 0, 0, 0, 0, 0, 0, 0, 0, 0, 0, 0, 0, 0, 0, 0, 0, 0);
    let mut index: usize = 0;
    let mut c: usize = 0;
    while n - index >= 64
        invariant
            n == a@.len(),
            a@.len() == b@.len(),
            n <= MAX_I8_DIMENSION,
            index == 64 * c,
            index <= n,
            0 <= f0 <= (c + 1) * 130050,
            0 <= f1 <= (c + 1) * 130050,
            0 <= f2 <= (c + 1) * 130050,
            0 <= f3 <= (c + 1) * 130050,
            0 <= f4 <= (c + 1) * 130050,
            0 <= f5 <= (c + 1) * 130050,
            0 <= f6 <= (c + 1) * 130050,
            0 <= f7 <= (c + 1) * 130050,
            0 <= f8 <= (c + 1) * 130050,
            0 <= f9 <= (c + 1) * 130050,
            0 <= f10 <= (c + 1) * 130050,
            0 <= f11 <= (c + 1) * 130050,
            0 <= f12 <= (c + 1) * 130050,
            0 <= f13 <= (c + 1) * 130050,
            0 <= f14 <= (c + 1) * 130050,
            0 <= f15 <= (c + 1) * 130050,
            0 <= s0 <= (c + 1) * 130050,
            0 <= s1 <= (c + 1) * 130050,
            0 <= s2 <= (c + 1) * 130050,
            0 <= s3 <= (c + 1) * 130050,
            0 <= s4 <= (c + 1) * 130050,
            0 <= s5 <= (c + 1) * 130050,
            0 <= s6 <= (c + 1) * 130050,
            0 <= s7 <= (c + 1) * 130050,
            0 <= s8 <= (c + 1) * 130050,
            0 <= s9 <= (c + 1) * 130050,
            0 <= s10 <= (c + 1) * 130050,
            0 <= s11 <= (c + 1) * 130050,
            0 <= s12 <= (c + 1) * 130050,
            0 <= s13 <= (c + 1) * 130050,
            0 <= s14 <= (c + 1) * 130050,
            0 <= s15 <= (c + 1) * 130050,
            f0 + f1 + f2 + f3 + f4 + f5 + f6 + f7 + f8 + f9 + f10 + f11 + f12 + f13 + f14 + f15 + s0 + s1 + s2 + s3 + s4 + s5 + s6 + s7 + s8 + s9 + s10 + s11 + s12 + s13 + s14 + s15 == squared_l2_i8_exact(a@, b@, index as int),
        decreases n - index,
    {
        let x0 = squared_pair(a, b, index + 0);
        let y0 = squared_pair(a, b, index + 32);
        let x1 = squared_pair(a, b, index + 2);
        let y1 = squared_pair(a, b, index + 34);
        let x2 = squared_pair(a, b, index + 4);
        let y2 = squared_pair(a, b, index + 36);
        let x3 = squared_pair(a, b, index + 6);
        let y3 = squared_pair(a, b, index + 38);
        let x4 = squared_pair(a, b, index + 8);
        let y4 = squared_pair(a, b, index + 40);
        let x5 = squared_pair(a, b, index + 10);
        let y5 = squared_pair(a, b, index + 42);
        let x6 = squared_pair(a, b, index + 12);
        let y6 = squared_pair(a, b, index + 44);
        let x7 = squared_pair(a, b, index + 14);
        let y7 = squared_pair(a, b, index + 46);
        let x8 = squared_pair(a, b, index + 16);
        let y8 = squared_pair(a, b, index + 48);
        let x9 = squared_pair(a, b, index + 18);
        let y9 = squared_pair(a, b, index + 50);
        let x10 = squared_pair(a, b, index + 20);
        let y10 = squared_pair(a, b, index + 52);
        let x11 = squared_pair(a, b, index + 22);
        let y11 = squared_pair(a, b, index + 54);
        let x12 = squared_pair(a, b, index + 24);
        let y12 = squared_pair(a, b, index + 56);
        let x13 = squared_pair(a, b, index + 26);
        let y13 = squared_pair(a, b, index + 58);
        let x14 = squared_pair(a, b, index + 28);
        let y14 = squared_pair(a, b, index + 60);
        let x15 = squared_pair(a, b, index + 30);
        let y15 = squared_pair(a, b, index + 62);
        assert(squared_l2_i8_exact(a@, b@, index + 64) == squared_l2_i8_exact(a@, b@, index as int) + x0 + x1 + x2 + x3 + x4 + x5 + x6 + x7 + x8 + x9 + x10 + x11 + x12 + x13 + x14 + x15 + y0 + y1 + y2 + y3 + y4 + y5 + y6 + y7 + y8 + y9 + y10 + y11 + y12 + y13 + y14 + y15);
        f0 = f0 + x0;
        s0 = s0 + y0;
        f1 = f1 + x1;
        s1 = s1 + y1;
        f2 = f2 + x2;
        s2 = s2 + y2;
        f3 = f3 + x3;
        s3 = s3 + y3;
        f4 = f4 + x4;
        s4 = s4 + y4;
        f5 = f5 + x5;
        s5 = s5 + y5;
        f6 = f6 + x6;
        s6 = s6 + y6;
        f7 = f7 + x7;
        s7 = s7 + y7;
        f8 = f8 + x8;
        s8 = s8 + y8;
        f9 = f9 + x9;
        s9 = s9 + y9;
        f10 = f10 + x10;
        s10 = s10 + y10;
        f11 = f11 + x11;
        s11 = s11 + y11;
        f12 = f12 + x12;
        s12 = s12 + y12;
        f13 = f13 + x13;
        s13 = s13 + y13;
        f14 = f14 + x14;
        s14 = s14 + y14;
        f15 = f15 + x15;
        s15 = s15 + y15;
        index = index + 64;
        c = c + 1;
    }
    proof {
        lemma_i8_sum_bounds(a@, b@, index as int);
    }
    let mut sum: i32 = f0 + f1 + f2 + f3 + f4 + f5 + f6 + f7 + f8 + f9 + f10 + f11 + f12 + f13 + f14 + f15 + s0 + s1 + s2 + s3 + s4 + s5 + s6 + s7 + s8 + s9 + s10 + s11 + s12 + s13 + s14 + s15;
    while index < n
        invariant
            n == a@.len(),
            a@.len() == b@.len(),
            n <= MAX_I8_DIMENSION,
            index <= n,
            0 <= sum <= index * 65025,
            sum == squared_l2_i8_exact(a@, b@, index as int),
        decreases n - index,
    {
        sum = sum + squared_difference(a, b, index);
        index = index + 1;
    }
    sum
}

/// The exact sum `Σ (a_i + 128)·b_i`: the dot product with the query shifted into `u8` range.
pub open spec fn biased_dot_i8_exact(a: Seq<i8>, b: Seq<i8>, n: int) -> int
    decreases n,
{
    if n <= 0 {
        0
    } else {
        biased_dot_i8_exact(a, b, n - 1) + (a[n - 1] + 128) * b[n - 1]
    }
}

/// The exact sum `Σ b_i`.
pub open spec fn target_sum_i8_exact(b: Seq<i8>, n: int) -> int
    decreases n,
{
    if n <= 0 {
        0
    } else {
        target_sum_i8_exact(b, n - 1) + b[n - 1]
    }
}

/// The query-bias identity that unsigned-by-signed byte products rely on:
/// `Σ a_i·b_i = Σ (a_i + 128)·b_i − 128·Σ b_i`.
pub proof fn lemma_query_bias_identity(a: Seq<i8>, b: Seq<i8>, n: int)
    requires
        0 <= n,
    ensures
        dot_i8_exact(a, b, n) == biased_dot_i8_exact(a, b, n) - 128 * target_sum_i8_exact(b, n),
        -(n * 32640) <= biased_dot_i8_exact(a, b, n) <= n * 32640,
        -(n * 128) <= target_sum_i8_exact(b, n) <= n * 128,
    decreases n,
{
    if n > 0 {
        lemma_query_bias_identity(a, b, n - 1);
        let x = a[n - 1] as int;
        let y = b[n - 1] as int;
        assert((x + 128) * y == x * y + 128 * y) by (nonlinear_arith);
        assert(-32640 <= (x + 128) * y <= 32640) by (nonlinear_arith)
            requires
                -128 <= x <= 127,
                -128 <= y <= 127,
        ;
    }
}

fn biased_product(a: &[i8], b: &[i8], i: usize) -> (r: i32)
    requires
        i < a@.len(),
        a@.len() == b@.len(),
        a@.len() <= MAX_I8_DIMENSION,
    ensures
        r == biased_dot_i8_exact(a@, b@, i + 1) - biased_dot_i8_exact(a@, b@, i as int),
        -32640 <= r <= 32640,
{
    let q: i8 = a[i];
    let unsigned_query: u8 = (q as u8) ^ 0x80u8;
    assert(unsigned_query as int == q + 128) by (bit_vector)
        requires
            unsigned_query == (q as u8) ^ 0x80u8,
    ;
    let x: i32 = unsigned_query as i32;
    let y: i32 = b[i] as i32;
    assert(-32640 <= x * y <= 32640) by (nonlinear_arith)
        requires
            0 <= x <= 255,
            -128 <= y <= 127,
    ;
    x * y
}

fn biased_quad(a: &[i8], b: &[i8], i: usize) -> (r: i32)
    requires
        i + 3 < a@.len(),
        a@.len() == b@.len(),
        a@.len() <= MAX_I8_DIMENSION,
    ensures
        r == biased_dot_i8_exact(a@, b@, i + 4) - biased_dot_i8_exact(a@, b@, i as int),
        -130560 <= r <= 130560,
{
    let p0 = biased_product(a, b, i);
    let p1 = biased_product(a, b, i + 1);
    let p2 = biased_product(a, b, i + 2);
    let p3 = biased_product(a, b, i + 3);
    p0 + p1 + p2 + p3
}

fn target_quad(b: &[i8], i: usize) -> (r: i32)
    requires
        i + 3 < b@.len(),
        b@.len() <= MAX_I8_DIMENSION,
    ensures
        r == target_sum_i8_exact(b@, i + 4) - target_sum_i8_exact(b@, i as int),
        -512 <= r <= 512,
{
    assert(target_sum_i8_exact(b@, i + 4) == target_sum_i8_exact(b@, i as int) + b@[i as int] + b@[i + 1]
        + b@[i + 2] + b@[i + 3]) by {
        reveal_with_fuel(target_sum_i8_exact, 5);
    }
    b[i] as i32 + b[i + 1] as i32 + b[i + 2] as i32 + b[i + 3] as i32
}

/// Accumulates `Σ a_i·b_i` over `i8` vectors in the layout of the AVX-512 VNNI kernel: the query
/// is shifted into `u8` range by flipping its sign bit, 64-component chunks feed sixteen `i32`
/// lanes of four unsigned-by-signed products each and sixteen lanes of four target components
/// each, the remaining components are added one by one, and the bias is removed at the end as
/// `Σ (a_i + 128)·b_i − 128·Σ b_i`. The result is the exact sum.
#[verifier::rlimit(60)]
pub fn avx512_dot_i8_sum(a: &[i8], b: &[i8]) -> (r: i32)
    requires
        a@.len() == b@.len(),
        a@.len() <= MAX_I8_DIMENSION,
    ensures
        r == dot_i8_exact(a@, b@, a@.len() as int),
{
    let n = a.len();
    let (mut d0, mut d1, mut d2, mut d3, mut d4, mut d5, mut d6, mut d7, mut d8, mut d9, mut d10, mut d11, mut d12, mut d13, mut d14, mut d15, mut t0, mut t1, mut t2, mut t3, mut t4, mut t5, mut t6, mut t7, mut t8, mut t9, mut t10, mut t11, mut t12, mut t13, mut t14, mut t15): (i32, i32, i32, i32, i32, i32, i32, i32, i32, i32, i32, i32, i32, i32, i32, i32, i32, i32, i32, i32, i32, i32, i32, i32, i32, i32, i32, i32, i32, i32, i32, i32) = (0, 0, 0, 0, 0, 0, 0, 0, 0, 0, 0, 0, 0, 0, 0, 0, 0, 0, 0, 0, 0, 0, 0, 0, 0, 0, 0, 0, 0, 0, 0, 0);
    let mut index: usize = 0;
    let mut c: usize = 0;
    while n - index >= 64
        invariant
            n == a@.len(),
            a@.len() == b@.len(),
            n <= MAX_I8_DIMENSION,
            index == 64 * c,
            index <= n,
            -(c * 130560) <= d0 <= c * 130560,
            -(c * 130560) <= d1 <= c * 130560,
            -(c * 130560) <= d2 <= c * 130560,
            -(c * 130560) <= d3 <= c * 130560,
            -(c * 130560) <= d4 <= c * 130560,
            -(c * 130560) <= d5 <= c * 130560,
            -(c * 130560) <= d6 <= c * 130560,
            -(c * 130560) <= d7 <= c * 130560,
            -(c * 130560) <= d8 <= c * 130560,
            -(c * 130560) <= d9 <= c * 130560,
            -(c * 130560) <= d10 <= c * 130560,
            -(c * 130560) <= d11 <= c * 130560,
            -(c * 130560) <= d12 <= c * 130560,
            -(c * 130560) <= d13 <= c * 130560,
            -(c * 130560) <= d14 <= c * 130560,
            -(c * 130560) <= d15 <= c * 130560,
            -(c * 512) <= t0 <= c * 512,
            -(c * 512) <= t1 <= c * 512,
            -(c * 512) <= t2 <= c * 512,
            -(c * 512) <= t3 <= c * 512,
            -(c * 512) <= t4 <= c * 512,
            -(c * 512) <= t5 <= c * 512,
            -(c * 512) <= t6 <= c * 512,
            -(c * 512) <= t7 <= c * 512,
            -(c * 512) <= t8 <= c * 512,
            -(c * 512) <= t9 <= c * 512,
            -(c * 512) <= t10 <= c * 512,
            -(c * 512) <= t11 <= c * 512,
            -(c * 512) <= t12 <= c * 512,
            -(c * 512) <= t13 <= c * 512,
            -(c * 512) <= t14 <= c * 512,
            -(c * 512) <= t15 <= c * 512,
            d0 + d1 + d2 + d3 + d4 + d5 + d6 + d7 + d8 + d9 + d10 + d11 + d12 + d13 + d14 + d15 == biased_dot_i8_exact(a@, b@, index as int),
            t0 + t1 + t2 + t3 + t4 + t5 + t6 + t7 + t8 + t9 + t10 + t11 + t12 + t13 + t14 + t15 == target_sum_i8_exact(b@, index as int),
        decreases n - index,
    {
        let x0 = biased_quad(a, b, index + 0);
        let y0 = target_quad(b, index + 0);
        let x1 = biased_quad(a, b, index + 4);
        let y1 = target_quad(b, index + 4);
        let x2 = biased_quad(a, b, index + 8);
        let y2 = target_quad(b, index + 8);
        let x3 = biased_quad(a, b, index + 12);
        let y3 = target_quad(b, index + 12);
        let x4 = biased_quad(a, b, index + 16);
        let y4 = target_quad(b, index + 16);
        let x5 = biased_quad(a, b, index + 20);
        let y5 = target_quad(b, index + 20);
        let x6 = biased_quad(a, b, index + 24);
        let y6 = target_quad(b, index + 24);
        let x7 = biased_quad(a, b, index + 28);
        let y7 = target_quad(b, index + 28);
        let x8 = biased_quad(a, b, index + 32);
        let y8 = target_quad(b, index + 32);
        let x9 = biased_quad(a, b, index + 36);
        let y9 = target_quad(b, index + 36);
        let x10 = biased_quad(a, b, index + 40);
        let y10 = target_quad(b, index + 40);
        let x11 = biased_quad(a, b, index + 44);
        let y11 = target_quad(b, index + 44);
        let x12 = biased_quad(a, b, index + 48);
        let y12 = target_quad(b, index + 48);
        let x13 = biased_quad(a, b, index + 52);
        let y13 = target_quad(b, index + 52);
        let x14 = biased_quad(a, b, index + 56);
        let y14 = target_quad(b, index + 56);
        let x15 = biased_quad(a, b, index + 60);
        let y15 = target_quad(b, index + 60);
        d0 = d0 + x0;
        t0 = t0 + y0;
        d1 = d1 + x1;
        t1 = t1 + y1;
        d2 = d2 + x2;
        t2 = t2 + y2;
        d3 = d3 + x3;
        t3 = t3 + y3;
        d4 = d4 + x4;
        t4 = t4 + y4;
        d5 = d5 + x5;
        t5 = t5 + y5;
        d6 = d6 + x6;
        t6 = t6 + y6;
        d7 = d7 + x7;
        t7 = t7 + y7;
        d8 = d8 + x8;
        t8 = t8 + y8;
        d9 = d9 + x9;
        t9 = t9 + y9;
        d10 = d10 + x10;
        t10 = t10 + y10;
        d11 = d11 + x11;
        t11 = t11 + y11;
        d12 = d12 + x12;
        t12 = t12 + y12;
        d13 = d13 + x13;
        t13 = t13 + y13;
        d14 = d14 + x14;
        t14 = t14 + y14;
        d15 = d15 + x15;
        t15 = t15 + y15;
        index = index + 64;
        c = c + 1;
    }
    proof {
        lemma_query_bias_identity(a@, b@, index as int);
    }
    let mut total: i32 = d0 + d1 + d2 + d3 + d4 + d5 + d6 + d7 + d8 + d9 + d10 + d11 + d12 + d13 + d14 + d15;
    let mut target: i32 = t0 + t1 + t2 + t3 + t4 + t5 + t6 + t7 + t8 + t9 + t10 + t11 + t12 + t13 + t14 + t15;
    while index < n
        invariant
            n == a@.len(),
            a@.len() == b@.len(),
            n <= MAX_I8_DIMENSION,
            index <= n,
            total == biased_dot_i8_exact(a@, b@, index as int),
            target == target_sum_i8_exact(b@, index as int),
            -(index * 32640) <= total <= index * 32640,
            -(index * 128) <= target <= index * 128,
        decreases n - index,
    {
        total = total + biased_product(a, b, index);
        target = target + b[index] as i32;
        index = index + 1;
    }
    proof {
        lemma_query_bias_identity(a@, b@, n as int);
    }
    total - 128 * target
}

/// A requested path is taken exactly when it is supported; any path taken is supported.
pub proof fn lemma_resolution_is_supported(
    arch: Arch,
    features: FeatureSet,
    implemented: ImplementedPaths,
    element: ElementKind,
    metric: MetricType,
    requested: Option<KernelPath>,
)
    ensures
        resolved_path(arch, features, implemented, element, metric, requested) matches Ok(p)
            ==> path_supported(arch, features, implemented, element, metric, p),
        requested matches Some(p) ==> (resolved_path(arch, features, implemented, element, metric, requested) is Ok
            <==> path_supported(arch, features, implemented, element, metric, p)),
{
    if requested is None {
        lemma_first_supported_is_supported(arch, features, implemented, element, metric, 0);
    }
}

proof fn lemma_first_supported_is_supported(
    arch: Arch,
    features: FeatureSet,
    implemented: ImplementedPaths,
    element: ElementKind,
    metric: MetricType,
    i: int,
)
    ensures
        first_supported(arch, features, implemented, element, metric, i) matches Some(p)
            ==> path_supported(arch, features, implemented, element, metric, p),
    decreases candidate_paths(arch).len() - i,
{
    if 0 <= i < candidate_paths(arch).len() {
        lemma_first_supported_is_supported(arch, features, implemented, element, metric, i + 1);
    }
}

/// A path of another architecture is never supported, whatever the features and kernel table.
pub proof fn lemma_foreign_paths_unsupported(
    features: FeatureSet,
    implemented: ImplementedPaths,
    element: ElementKind,
    metric: MetricType,
)
    ensures
        !path_supported(Arch::X86_64, features, implemented, element, metric, KernelPath::Neon),
        !path_supported(Arch::Aarch64, features, implemented, element, metric, KernelPath::Avx2),
        !path_supported(Arch::Aarch64, features, implemented, element, metric, KernelPath::Avx512),
{
}

/// On AVX-512, an `i8` kernel needs AVX-512F and BW; squared L2 needs nothing more, while the
/// dot metrics (inner product and cosine) also need VNNI.
pub proof fn lemma_i8_avx512_features(features: FeatureSet, implemented: ImplementedPaths, metric: MetricType)
    ensures
        path_supported(Arch::X86_64, features, implemented, ElementKind::I8, metric, KernelPath::Avx512) == (
        implemented.avx512 && features.avx512f && features.avx512bw && (metric == MetricType::L2
            || features.avx512vnni)),
{
}

/// Automatic selection never fails while the scalar kernel is implemented, and it never passes
/// over a supported path for a lower-priority one.
pub proof fn lemma_automatic_selection(
    arch: Arch,
    features: FeatureSet,
    implemented: ImplementedPaths,
    element: ElementKind,
    metric: MetricType,
)
    ensures
        implemented.scalar ==> resolved_path(arch, features, implemented, element, metric, None) is Ok,
        resolved_path(arch, features, implemented, element, metric, None) matches Ok(p) ==> exists|i: int|
            0 <= i < candidate_paths(arch).len() && candidate_paths(arch)[i] == p
                && forall|j: int| 0 <= j < i ==> !path_supported(
                    arch,
                    features,
                    implemented,
                    element,
                    metric,
                    #[trigger] candidate_paths(arch)[j],
                ),
{
    let c = candidate_paths(arch);
    reveal_with_fuel(first_supported, 4);
    let sup = |p: KernelPath| path_supported(arch, features, implemented, element, metric, p);
    match arch {
        Arch::X86_64 => {
            assert(c.len() == 3);
            if sup(c[0]) {
                assert(resolved_path(arch, features, implemented, element, metric, None) == Ok::<KernelPath, Seq<char>>(c[0]));
                assert(forall|j: int| 0 <= j < 0 ==> !sup(#[trigger] c[j]));
            } else if sup(c[1]) {
                assert(resolved_path(arch, features, implemented, element, metric, None) == Ok::<KernelPath, Seq<char>>(c[1]));
                assert(forall|j: int| 0 <= j < 1 ==> !sup(#[trigger] c[j]));
            } else if sup(c[2]) {
                assert(resolved_path(arch, features, implemented, element, metric, None) == Ok::<KernelPath, Seq<char>>(c[2]));
                assert(forall|j: int| 0 <= j < 2 ==> !sup(#[trigger] c[j]));
            } else {
                assert(!implemented.scalar);
                assert(resolved_path(arch, features, implemented, element, metric, None) is Err);
            }
        },
        Arch::Aarch64 => {
            assert(c.len() == 2);
            if sup(c[0]) {
                assert(resolved_path(arch, features, implemented, element, metric, None) == Ok::<KernelPath, Seq<char>>(c[0]));
                assert(forall|j: int| 0 <= j < 0 ==> !sup(#[trigger] c[j]));
            } else if sup(c[1]) {
                assert(resolved_path(arch, features, implemented, element, metric, None) == Ok::<KernelPath, Seq<char>>(c[1]));
                assert(forall|j: int| 0 <= j < 1 ==> !sup(#[trigger] c[j]));
            } else {
                assert(!implemented.scalar);
                assert(resolved_path(arch, features, implemented, element, metric, None) is Err);
            }
        },
    }
}

/// A vector's squared distance to itself is zero.
pub proof fn lemma_squared_l2_i8_self_is_zero(a: Seq<i8>, n: int)
    ensures
        squared_l2_i8_exact(a, a, n) == 0,
    decreases n,
{
    if n > 0 {
        lemma_squared_l2_i8_self_is_zero(a, n - 1);
    }
}

/// Both `i8` scores are symmetric in their arguments.
pub proof fn lemma_i8_scores_symmetric(a: Seq<i8>, b: Seq<i8>, n: int)
    ensures
        squared_l2_i8_exact(a, b, n) == squared_l2_i8_exact(b, a, n),
        dot_i8_exact(a, b, n) == dot_i8_exact(b, a, n),
    decreases n,
{
    if n > 0 {
        lemma_i8_scores_symmetric(a, b, n - 1);
        assert((a[n - 1] - b[n - 1]) * (a[n - 1] - b[n - 1]) == (b[n - 1] - a[n - 1]) * (b[n - 1] - a[n - 1]))
            by (nonlinear_arith);
        assert(a[n - 1] * b[n - 1] == b[n - 1] * a[n - 1]) by (nonlinear_arith);
    }
}

/// The squared distance is never negative.
pub proof fn lemma_squared_l2_i8_nonnegative(a: Seq<i8>, b: Seq<i8>, n: int)
    ensures
        squared_l2_i8_exact(a, b, n) >= 0,
    decreases n,
{
    if n > 0 {
        lemma_squared_l2_i8_nonnegative(a, b, n - 1);
        assert((a[n - 1] - b[n - 1]) * (a[n - 1] - b[n - 1]) >= 0) by (nonlinear_arith);
    }
}

/// The CPU requirements of each path, as the kernel design records them. The scalar path needs
/// only its kernel. On x86-64, AVX2 needs AVX2, plus FMA for `f32` and FMA and F16C for `f16`,
/// and nothing from AVX-512; AVX-512 needs AVX-512F, plus F16C for `f16`, BW for `i8`, and VNNI
/// as well for the `i8` dot metrics. On AArch64, NEON needs NEON. Only `i8` on AVX-512 depends
/// on the metric.
pub proof fn lemma_path_requirements(
    arch: Arch,
    features: FeatureSet,
    implemented: ImplementedPaths,
    element: ElementKind,
    metric: MetricType,
)
    ensures
        path_supported(arch, features, implemented, element, metric, KernelPath::Scalar) == implemented.scalar,
        path_supported(Arch::X86_64, features, implemented, element, metric, KernelPath::Avx2) == {
            &&& implemented.avx2
            &&& features.avx2
            &&& (element == ElementKind::F32 ==> features.fma)
            &&& (element == ElementKind::F16 ==> features.fma && features.f16c)
        },
        path_supported(Arch::X86_64, features, implemented, element, metric, KernelPath::Avx512) == {
            &&& implemented.avx512
            &&& features.avx512f
            &&& (element == ElementKind::F16 ==> features.f16c)
            &&& (element == ElementKind::I8 ==> features.avx512bw)
            &&& (element == ElementKind::I8 && metric != MetricType::L2 ==> features.avx512vnni)
        },
        path_supported(Arch::Aarch64, features, implemented, element, metric, KernelPath::Neon) == (
        implemented.neon && features.neon),
        element != ElementKind::I8 ==> forall|other: MetricType, path: KernelPath|
            path_supported(arch, features, implemented, element, metric, path) == #[trigger] path_supported(
                arch,
                features,
                implemented,
                element,
                other,
                path,
            ),
{
}

} // verus!
