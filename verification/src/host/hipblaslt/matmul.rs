//! The launch of a matmul: what is described, and the driver calls that
//! describe and start it.
use vstd::prelude::*;

use crate::host::hipblaslt::error::LtError;
use crate::host::hipblaslt::pointers::LtMatmulPointers;
use crate::host::hipblaslt::scalar::LtScalar;
use crate::host::hipblaslt::types;
use crate::host::hipblaslt::types::{
    hipDataType, hipblasComputeType_t, hipblasLtEpilogue_t, hipblasLtOrder_t, hipblasOperation_t,
    rocm_dtype_needs_tensorwide_scale,
};

verus! {

/// The size of a matmul.
#[derive(Clone, Copy, Debug, PartialEq, Eq, Structural)]
pub struct LtMatmulProblem {
    pub m: u64,
    pub n: u64,
    pub k: u64,
    pub batch_count: i32,
}

/// How one matrix is stored.
#[derive(Clone, Copy, Debug, PartialEq, Eq, Structural)]
pub struct LtMatrixSpec {
    pub dtype: hipDataType,
    pub rows: u64,
    pub cols: u64,
    pub ld: i64,
    pub batch_stride: i64,
    pub order: hipblasLtOrder_t,
}

/// What is computed, and in which precision.
#[derive(Clone, Copy, Debug, PartialEq, Eq, Structural)]
pub struct LtComputeSpec {
    pub compute_type: hipblasComputeType_t,
    pub scale_dtype: hipDataType,
    pub alpha: LtScalar,
    pub beta: LtScalar,
    pub epilogue: hipblasLtEpilogue_t,
}

/// A whole matmul, but for the device pointers.
#[derive(Clone, Copy, Debug, PartialEq, Eq, Structural)]
pub struct LtMatmulSpec {
    pub problem: LtMatmulProblem,
    pub trans_a: hipblasOperation_t,
    pub trans_b: hipblasOperation_t,
    pub a: LtMatrixSpec,
    pub b: LtMatrixSpec,
    pub c: LtMatrixSpec,
    pub d: LtMatrixSpec,
    pub compute: LtComputeSpec,
    pub workspace_size: usize,
}

/// One of the four matrices.
#[derive(Clone, Copy, Debug, PartialEq, Eq, Structural)]
pub enum Operand {
    A,
    B,
    C,
    D,
}

/// Where the scale factor of a matrix lies on the device.
#[derive(Clone, Copy, Debug, PartialEq, Eq, Structural)]
pub enum ScaleSource {
    /// At this address.
    Given(u64),
    /// In the buffer to which a factor of one was uploaded for this matrix.
    Uploaded,
}

/// One call into the driver or the library.
#[derive(Clone, Copy, Debug, PartialEq, Eq, Structural)]
pub enum LtStep {
    /// Allocate this many bytes of device memory as workspace.
    AllocWorkspace(usize),
    /// Upload a scale factor of one for the matrix.
    UploadUnitScale(Operand),
    /// Create the matmul descriptor.
    CreateMatmulDesc { compute_type: hipblasComputeType_t, scale_dtype: hipDataType },
    /// Set the transposition of A.
    SetTransA(hipblasOperation_t),
    /// Set the transposition of B.
    SetTransB(hipblasOperation_t),
    /// Set the epilogue.
    SetEpilogue(hipblasLtEpilogue_t),
    /// Set the address of the bias.
    SetBiasPointer(u64),
    /// Set the address of the scale factor of the matrix.
    SetScalePointer(Operand, ScaleSource),
    /// Create the layout of the matrix.
    CreateLayout { operand: Operand, dtype: hipDataType, rows: u64, cols: u64, ld: i64 },
    /// Set the storage order in the layout of the matrix.
    SetLayoutOrder(Operand, hipblasLtOrder_t),
    /// Set the number of batches in the layout of the matrix.
    SetBatchCount(Operand, i32),
    /// Set the distance between batches in the layout of the matrix.
    SetBatchStride(Operand, i64),
    /// Create the preference descriptor.
    CreatePreference,
    /// Set the workspace limit in the preference descriptor.
    SetMaxWorkspace(usize),
    /// Ask for at most this many algorithms.
    GetHeuristic { requested: i32 },
    /// Start the matmul with the algorithm that was found.
    Launch {
        alpha: LtScalar,
        beta: LtScalar,
        a: u64,
        b: u64,
        c: u64,
        d: u64,
        workspace_size: usize,
    },
}

/// The smallest leading dimension of a matrix in this order: the rows of a
/// column-major matrix, the columns of a row-major one.
pub open spec fn least_ld(rows: u64, cols: u64, order: hipblasLtOrder_t) -> i64 {
    if order is HIPBLASLT_ORDER_ROW {
        cols as i64
    } else {
        rows as i64
    }
}

/// `ld`, raised to the smallest leading dimension that the matrix allows.
pub fn clamp_ld_for_order(ld: i64, rows: u64, cols: u64, order: hipblasLtOrder_t) -> (r: i64)
    ensures
        r == if ld >= least_ld(rows, cols, order) {
            ld
        } else {
            least_ld(rows, cols, order)
        },
{
    let min_ld: u64 = match order {
        hipblasLtOrder_t::HIPBLASLT_ORDER_ROW => cols,
        _ => rows,
    };
    #[verifier::truncate]
    let least: i64 = min_ld as i64;
    if ld >= least {
        ld
    } else {
        least
    }
}

impl LtMatmulSpec {
    /// How the matrix is stored.
    pub open spec fn stored(self, operand: Operand) -> LtMatrixSpec {
        match operand {
            Operand::A => self.a,
            Operand::B => self.b,
            Operand::C => self.c,
            Operand::D => self.d,
        }
    }

    /// How the matrix is stored.
    pub fn matrix(&self, operand: Operand) -> (r: LtMatrixSpec)
        ensures
            r == self.stored(operand),
    {
        match operand {
            Operand::A => self.a,
            Operand::B => self.b,
            Operand::C => self.c,
            Operand::D => self.d,
        }
    }
}

/// The scale factor that the caller gave for the matrix. Only A and B can have
/// one.
pub open spec fn given_scale(ptrs: LtMatmulPointers, operand: Operand) -> Option<u64> {
    match operand {
        Operand::A => ptrs.a_scale,
        Operand::B => ptrs.b_scale,
        _ => None,
    }
}

/// Where the scale factor of the matrix lies, if it has one: the given one, or
/// else an uploaded one where the element type needs a factor.
pub open spec fn scale_source(
    spec: LtMatmulSpec,
    ptrs: LtMatmulPointers,
    operand: Operand,
) -> Option<ScaleSource> {
    match given_scale(ptrs, operand) {
        Some(ptr) => Some(ScaleSource::Given(ptr)),
        None => if types::needs_tensorwide_scale(spec.stored(operand).dtype) {
            Some(ScaleSource::Uploaded)
        } else {
            None
        },
    }
}

fn find_scale(spec: &LtMatmulSpec, ptrs: &LtMatmulPointers, operand: Operand) -> (r: Option<
    ScaleSource,
>)
    ensures
        r == scale_source(*spec, *ptrs, operand),
{
    let given: Option<u64> = match operand {
        Operand::A => ptrs.a_scale,
        Operand::B => ptrs.b_scale,
        _ => None,
    };
    match given {
        Some(ptr) => Some(ScaleSource::Given(ptr)),
        None => {
            if rocm_dtype_needs_tensorwide_scale(spec.matrix(operand).dtype) {
                Some(ScaleSource::Uploaded)
            } else {
                None
            }
        },
    }
}

/// The upload of a scale factor for the matrix, where one is uploaded.
pub open spec fn upload_steps(
    spec: LtMatmulSpec,
    ptrs: LtMatmulPointers,
    operand: Operand,
) -> Seq<LtStep> {
    if scale_source(spec, ptrs, operand) == Some(ScaleSource::Uploaded) {
        seq![LtStep::UploadUnitScale(operand)]
    } else {
        seq![]
    }
}

/// The setting of the scale pointer of the matrix, where it has one.
pub open spec fn scale_steps(
    spec: LtMatmulSpec,
    ptrs: LtMatmulPointers,
    operand: Operand,
) -> Seq<LtStep> {
    match scale_source(spec, ptrs, operand) {
        Some(source) => seq![LtStep::SetScalePointer(operand, source)],
        None => seq![],
    }
}

/// The setting of the bias pointer, where there is a bias.
pub open spec fn bias_steps(ptrs: LtMatmulPointers) -> Seq<LtStep> {
    match ptrs.bias {
        Some(ptr) => seq![LtStep::SetBiasPointer(ptr)],
        None => seq![],
    }
}

/// The creation of the layout of the matrix.
pub open spec fn layout_steps(operand: Operand, matrix: LtMatrixSpec) -> Seq<LtStep> {
    seq![
        LtStep::CreateLayout {
            operand,
            dtype: matrix.dtype,
            rows: matrix.rows,
            cols: matrix.cols,
            ld: matrix.ld,
        },
        LtStep::SetLayoutOrder(operand, matrix.order),
    ]
}

/// The batch attributes of the layout of the matrix.
pub open spec fn batch_steps(operand: Operand, batch_count: i32, batch_stride: i64) -> Seq<LtStep> {
    seq![
        LtStep::SetBatchCount(operand, batch_count),
        LtStep::SetBatchStride(operand, batch_stride),
    ]
}

/// The device memory that is needed: the workspace, and a scale factor for
/// each matrix that needs one and was given none.
#[verifier::opaque]
pub open spec fn memory_part(spec: LtMatmulSpec, ptrs: LtMatmulPointers) -> Seq<LtStep> {
    seq![LtStep::AllocWorkspace(spec.workspace_size)] + upload_steps(spec, ptrs, Operand::A)
        + upload_steps(spec, ptrs, Operand::B) + upload_steps(spec, ptrs, Operand::C)
        + upload_steps(spec, ptrs, Operand::D)
}

/// The matmul descriptor and its attributes.
#[verifier::opaque]
pub open spec fn descriptor_part(spec: LtMatmulSpec, ptrs: LtMatmulPointers) -> Seq<LtStep> {
    seq![
        LtStep::CreateMatmulDesc {
            compute_type: spec.compute.compute_type,
            scale_dtype: spec.compute.scale_dtype,
        },
        LtStep::SetTransA(spec.trans_a),
        LtStep::SetTransB(spec.trans_b),
        LtStep::SetEpilogue(spec.compute.epilogue),
    ] + bias_steps(ptrs) + scale_steps(spec, ptrs, Operand::A) + scale_steps(
        spec,
        ptrs,
        Operand::B,
    ) + scale_steps(spec, ptrs, Operand::C) + scale_steps(spec, ptrs, Operand::D)
}

/// The layouts of the four matrices.
#[verifier::opaque]
pub open spec fn layout_part(spec: LtMatmulSpec) -> Seq<LtStep> {
    layout_steps(Operand::A, spec.a) + layout_steps(Operand::B, spec.b) + layout_steps(
        Operand::C,
        spec.c,
    ) + layout_steps(Operand::D, spec.d)
}

/// The batch attributes of the four layouts, where there is more than one
/// batch.
#[verifier::opaque]
pub open spec fn batch_part(spec: LtMatmulSpec) -> Seq<LtStep> {
    if spec.problem.batch_count > 1 {
        batch_steps(Operand::A, spec.problem.batch_count, spec.a.batch_stride) + batch_steps(
            Operand::B,
            spec.problem.batch_count,
            spec.b.batch_stride,
        ) + batch_steps(Operand::C, spec.problem.batch_count, spec.c.batch_stride) + batch_steps(
            Operand::D,
            spec.problem.batch_count,
            spec.d.batch_stride,
        )
    } else {
        seq![]
    }
}

/// The choice of one algorithm, and the launch.
#[verifier::opaque]
pub open spec fn launch_part(spec: LtMatmulSpec, ptrs: LtMatmulPointers) -> Seq<LtStep> {
    seq![
        LtStep::CreatePreference,
        LtStep::SetMaxWorkspace(spec.workspace_size),
        LtStep::GetHeuristic { requested: 1 },
        LtStep::Launch {
            alpha: spec.compute.alpha,
            beta: spec.compute.beta,
            a: ptrs.a,
            b: ptrs.b,
            c: ptrs.c,
            d: ptrs.d,
            workspace_size: spec.workspace_size,
        },
    ]
}

/// All calls of a matmul, in order.
pub open spec fn matmul_steps(spec: LtMatmulSpec, ptrs: LtMatmulPointers) -> Seq<LtStep> {
    memory_part(spec, ptrs) + descriptor_part(spec, ptrs) + layout_part(spec) + batch_part(spec)
        + launch_part(spec, ptrs)
}

/// The matmul is empty: one of its dimensions is zero.
pub open spec fn zero_sized(problem: LtMatmulProblem) -> bool {
    problem.m == 0 || problem.n == 0 || problem.k == 0
}

fn push_upload(
    steps: &mut Vec<LtStep>,
    spec: &LtMatmulSpec,
    ptrs: &LtMatmulPointers,
    operand: Operand,
)
    ensures
        final(steps)@ == old(steps)@ + upload_steps(*spec, *ptrs, operand),
{
    match find_scale(spec, ptrs, operand) {
        Some(ScaleSource::Uploaded) => {
            steps.push(LtStep::UploadUnitScale(operand));
        },
        _ => {},
    }
    assert(steps@ =~= old(steps)@ + upload_steps(*spec, *ptrs, operand));
}

fn push_scale(
    steps: &mut Vec<LtStep>,
    spec: &LtMatmulSpec,
    ptrs: &LtMatmulPointers,
    operand: Operand,
)
    ensures
        final(steps)@ == old(steps)@ + scale_steps(*spec, *ptrs, operand),
{
    match find_scale(spec, ptrs, operand) {
        Some(source) => {
            steps.push(LtStep::SetScalePointer(operand, source));
        },
        None => {},
    }
    assert(steps@ =~= old(steps)@ + scale_steps(*spec, *ptrs, operand));
}

fn create_matrix_layout(steps: &mut Vec<LtStep>, operand: Operand, matrix: LtMatrixSpec)
    ensures
        final(steps)@ == old(steps)@ + layout_steps(operand, matrix),
{
    steps.push(
        LtStep::CreateLayout {
            operand,
            dtype: matrix.dtype,
            rows: matrix.rows,
            cols: matrix.cols,
            ld: matrix.ld,
        },
    );
    steps.push(LtStep::SetLayoutOrder(operand, matrix.order));
    assert(steps@ =~= old(steps)@ + layout_steps(operand, matrix));
}

fn set_strided_batch_layout(
    steps: &mut Vec<LtStep>,
    operand: Operand,
    batch_count: i32,
    batch_stride: i64,
)
    ensures
        final(steps)@ == old(steps)@ + batch_steps(operand, batch_count, batch_stride),
{
    steps.push(LtStep::SetBatchCount(operand, batch_count));
    steps.push(LtStep::SetBatchStride(operand, batch_stride));
    assert(steps@ =~= old(steps)@ + batch_steps(operand, batch_count, batch_stride));
}

fn push_memory_part(steps: &mut Vec<LtStep>, spec: &LtMatmulSpec, ptrs: &LtMatmulPointers)
    ensures
        final(steps)@ == old(steps)@ + memory_part(*spec, *ptrs),
{
    steps.push(LtStep::AllocWorkspace(spec.workspace_size));
    push_upload(steps, spec, ptrs, Operand::A);
    push_upload(steps, spec, ptrs, Operand::B);
    push_upload(steps, spec, ptrs, Operand::C);
    push_upload(steps, spec, ptrs, Operand::D);
    assert(steps@ =~= old(steps)@ + memory_part(*spec, *ptrs)) by {
        reveal(memory_part);
    }
}

fn push_descriptor_part(steps: &mut Vec<LtStep>, spec: &LtMatmulSpec, ptrs: &LtMatmulPointers)
    ensures
        final(steps)@ == old(steps)@ + descriptor_part(*spec, *ptrs),
{
    steps.push(
        LtStep::CreateMatmulDesc {
            compute_type: spec.compute.compute_type,
            scale_dtype: spec.compute.scale_dtype,
        },
    );
    steps.push(LtStep::SetTransA(spec.trans_a));
    steps.push(LtStep::SetTransB(spec.trans_b));
    steps.push(LtStep::SetEpilogue(spec.compute.epilogue));
    match ptrs.bias {
        Some(ptr) => {
            steps.push(LtStep::SetBiasPointer(ptr));
        },
        None => {},
    }
    push_scale(steps, spec, ptrs, Operand::A);
    push_scale(steps, spec, ptrs, Operand::B);
    push_scale(steps, spec, ptrs, Operand::C);
    push_scale(steps, spec, ptrs, Operand::D);
    assert(steps@ =~= old(steps)@ + descriptor_part(*spec, *ptrs)) by {
        reveal(descriptor_part);
    }
}

fn push_layout_and_batch_parts(steps: &mut Vec<LtStep>, spec: &LtMatmulSpec)
    ensures
        final(steps)@ == old(steps)@ + layout_part(*spec) + batch_part(*spec),
{
    create_matrix_layout(steps, Operand::A, spec.a);
    create_matrix_layout(steps, Operand::B, spec.b);
    create_matrix_layout(steps, Operand::C, spec.c);
    create_matrix_layout(steps, Operand::D, spec.d);
    assert(steps@ =~= old(steps)@ + layout_part(*spec)) by {
        reveal(layout_part);
    }
    let ghost before = steps@;
    let batch_count: i32 = spec.problem.batch_count;
    if batch_count > 1 {
        set_strided_batch_layout(steps, Operand::A, batch_count, spec.a.batch_stride);
        set_strided_batch_layout(steps, Operand::B, batch_count, spec.b.batch_stride);
        set_strided_batch_layout(steps, Operand::C, batch_count, spec.c.batch_stride);
        set_strided_batch_layout(steps, Operand::D, batch_count, spec.d.batch_stride);
    }
    assert(steps@ =~= before + batch_part(*spec)) by {
        reveal(batch_part);
    }
}

/// The calls of a matmul, in order, or the refusal of an empty one.
pub fn plan_hipblaslt_matmul(spec: &LtMatmulSpec, ptrs: LtMatmulPointers) -> (r: Result<
    Vec<LtStep>,
    LtError,
>)
    ensures
        zero_sized(spec.problem) ==> r == Err::<Vec<LtStep>, LtError>(
            LtError::ZeroSized { m: spec.problem.m, n: spec.problem.n, k: spec.problem.k },
        ),
        !zero_sized(spec.problem) ==> r is Ok && r->Ok_0@ == matmul_steps(*spec, ptrs),
{
    if spec.problem.m == 0 || spec.problem.n == 0 || spec.problem.k == 0 {
        return Err(
            LtError::ZeroSized { m: spec.problem.m, n: spec.problem.n, k: spec.problem.k },
        );
    }
    let mut steps: Vec<LtStep> = Vec::new();
    push_memory_part(&mut steps, spec, &ptrs);
    push_descriptor_part(&mut steps, spec, &ptrs);
    push_layout_and_batch_parts(&mut steps, spec);
    let ghost before = steps@;
    steps.push(LtStep::CreatePreference);
    steps.push(LtStep::SetMaxWorkspace(spec.workspace_size));
    steps.push(LtStep::GetHeuristic { requested: 1 });
    steps.push(
        LtStep::Launch {
            alpha: spec.compute.alpha,
            beta: spec.compute.beta,
            a: ptrs.a,
            b: ptrs.b,
            c: ptrs.c,
            d: ptrs.d,
            workspace_size: spec.workspace_size,
        },
    );
    assert(steps@ =~= before + launch_part(*spec, ptrs)) by {
        reveal(launch_part);
    }
    assert(steps@ =~= matmul_steps(*spec, ptrs));
    Ok(steps)
}

/// What came of a call.
#[derive(Debug)]
pub enum LtOutcome {
    /// It succeeded; the number of algorithms that are known by now.
    Done { algorithms: i32 },
    /// It failed with this message.
    Failed(String),
}

/// What the outcome of a call means for the run: a failed call ends it, and
/// so does a search that found no algorithm.
pub open spec fn step_failure(step: LtStep, outcome: LtOutcome) -> Option<LtError> {
    match outcome {
        LtOutcome::Failed(message) => Some(LtError::Call(message)),
        LtOutcome::Done { algorithms } => if step is GetHeuristic && algorithms == 0 {
            Some(LtError::NoAlgorithm)
        } else {
            None
        },
    }
}

/// A library object that a matmul creates.
#[derive(Clone, Copy, Debug, PartialEq, Eq, Structural)]
pub enum Descriptor {
    Matmul,
    Layout(Operand),
    Preference,
}

/// Which library objects exist.
#[derive(Clone, Copy, Debug, PartialEq, Eq, Structural)]
pub struct LtRawDescriptors {
    pub matmul_desc: bool,
    pub a_desc: bool,
    pub b_desc: bool,
    pub c_desc: bool,
    pub d_desc: bool,
    pub preference: bool,
}

impl Default for LtRawDescriptors {
    /// No object exists yet.
    fn default() -> (r: Self)
        ensures
            r == (LtRawDescriptors {
                matmul_desc: false,
                a_desc: false,
                b_desc: false,
                c_desc: false,
                d_desc: false,
                preference: false,
            }),
    {
        LtRawDescriptors {
            matmul_desc: false,
            a_desc: false,
            b_desc: false,
            c_desc: false,
            d_desc: false,
            preference: false,
        }
    }
}

proof fn filter_of_push<A>(s: Seq<A>, x: A, keep: spec_fn(A) -> bool)
    ensures
        s.push(x).filter(keep) == if keep(x) {
            s.filter(keep).push(x)
        } else {
            s.filter(keep)
        },
{
    reveal(Seq::filter);
    assert(s.push(x).drop_last() =~= s);
}

impl LtRawDescriptors {
    /// Whether the object exists.
    pub open spec fn exists_now(self, descriptor: Descriptor) -> bool {
        match descriptor {
            Descriptor::Matmul => self.matmul_desc,
            Descriptor::Layout(Operand::A) => self.a_desc,
            Descriptor::Layout(Operand::B) => self.b_desc,
            Descriptor::Layout(Operand::C) => self.c_desc,
            Descriptor::Layout(Operand::D) => self.d_desc,
            Descriptor::Preference => self.preference,
        }
    }

    /// The same objects, and this one.
    fn add_object(&mut self, descriptor: Descriptor)
        ensures
            forall|d: Descriptor| #[trigger]
                final(self).exists_now(d) <==> old(self).exists_now(d) || d == descriptor,
    {
        match descriptor {
            Descriptor::Matmul => {
                self.matmul_desc = true;
            },
            Descriptor::Layout(Operand::A) => {
                self.a_desc = true;
            },
            Descriptor::Layout(Operand::B) => {
                self.b_desc = true;
            },
            Descriptor::Layout(Operand::C) => {
                self.c_desc = true;
            },
            Descriptor::Layout(Operand::D) => {
                self.d_desc = true;
            },
            Descriptor::Preference => {
                self.preference = true;
            },
        }
    }

    /// The objects to destroy, in order: those that exist, the last created
    /// first.
    pub open spec fn to_release(self) -> Seq<Descriptor> {
        seq![
            Descriptor::Preference,
            Descriptor::Layout(Operand::D),
            Descriptor::Layout(Operand::C),
            Descriptor::Layout(Operand::B),
            Descriptor::Layout(Operand::A),
            Descriptor::Matmul,
        ].filter(|descriptor: Descriptor| self.exists_now(descriptor))
    }

    /// The objects to destroy, in order.
    pub fn release_order(&self) -> (r: Vec<Descriptor>)
        ensures
            r@ == self.to_release(),
    {
        let mut order: Vec<Descriptor> = Vec::new();
        if self.preference {
            order.push(Descriptor::Preference);
        }
        if self.d_desc {
            order.push(Descriptor::Layout(Operand::D));
        }
        if self.c_desc {
            order.push(Descriptor::Layout(Operand::C));
        }
        if self.b_desc {
            order.push(Descriptor::Layout(Operand::B));
        }
        if self.a_desc {
            order.push(Descriptor::Layout(Operand::A));
        }
        if self.matmul_desc {
            order.push(Descriptor::Matmul);
        }
        proof {
            let keep = |descriptor: Descriptor| self.exists_now(descriptor);
            let s0: Seq<Descriptor> = seq![];
            let s1 = s0.push(Descriptor::Preference);
            let s2 = s1.push(Descriptor::Layout(Operand::D));
            let s3 = s2.push(Descriptor::Layout(Operand::C));
            let s4 = s3.push(Descriptor::Layout(Operand::B));
            let s5 = s4.push(Descriptor::Layout(Operand::A));
            let s6 = s5.push(Descriptor::Matmul);
            filter_of_push(s0, Descriptor::Preference, keep);
            filter_of_push(s1, Descriptor::Layout(Operand::D), keep);
            filter_of_push(s2, Descriptor::Layout(Operand::C), keep);
            filter_of_push(s3, Descriptor::Layout(Operand::B), keep);
            filter_of_push(s4, Descriptor::Layout(Operand::A), keep);
            filter_of_push(s5, Descriptor::Matmul, keep);
            reveal(Seq::filter);
            assert(s0.filter(keep) =~= seq![]);
            assert(s6 =~= seq![
                Descriptor::Preference,
                Descriptor::Layout(Operand::D),
                Descriptor::Layout(Operand::C),
                Descriptor::Layout(Operand::B),
                Descriptor::Layout(Operand::A),
                Descriptor::Matmul,
            ]);
        }
        order
    }
}

/// The library object that the call creates.
pub open spec fn creates(step: LtStep) -> Option<Descriptor> {
    match step {
        LtStep::CreateMatmulDesc { .. } => Some(Descriptor::Matmul),
        LtStep::CreateLayout { operand, .. } => Some(Descriptor::Layout(operand)),
        LtStep::CreatePreference => Some(Descriptor::Preference),
        _ => None,
    }
}

/// The library object that the call creates.
fn created_object(step: LtStep) -> (r: Option<Descriptor>)
    ensures
        r == creates(step),
{
    match step {
        LtStep::CreateMatmulDesc { .. } => Some(Descriptor::Matmul),
        LtStep::CreateLayout { operand, .. } => Some(Descriptor::Layout(operand)),
        LtStep::CreatePreference => Some(Descriptor::Preference),
        _ => None,
    }
}

/// The objects that exist are those that the first `n` calls create.
pub open spec fn created_by(descriptors: LtRawDescriptors, steps: Seq<LtStep>, n: nat) -> bool {
    forall|d: Descriptor| #[trigger]
        descriptors.exists_now(d) <==> exists|i: int|
            0 <= i < n && creates(#[trigger] steps[i]) == Some(d)
}

/// A matmul in progress: its calls, how many of them have succeeded, and whether
/// the one behind those has failed.
pub struct LtRun {
    steps: Vec<LtStep>,
    at: usize,
    failed: bool,
}

impl LtRun {
    #[verifier::type_invariant]
    spec fn in_bounds(self) -> bool {
        self.at <= self.steps@.len()
    }

    /// All calls of the matmul.
    pub closed spec fn steps(self) -> Seq<LtStep> {
        self.steps@
    }

    /// How many calls have succeeded.
    pub closed spec fn position(self) -> nat {
        self.at as nat
    }

    /// Whether a call has failed.
    pub closed spec fn failed(self) -> bool {
        self.failed
    }

    /// The call that comes next; none comes behind a failed one.
    pub open spec fn upcoming(self) -> Option<LtStep> {
        if !self.failed() && self.position() < self.steps().len() {
            Some(self.steps()[self.position() as int])
        } else {
            None
        }
    }

    /// A run of the matmul, with no call made yet.
    pub fn start(spec: &LtMatmulSpec, ptrs: LtMatmulPointers) -> (r: Result<Self, LtError>)
        ensures
            zero_sized(spec.problem) ==> r == Err::<Self, LtError>(
                LtError::ZeroSized { m: spec.problem.m, n: spec.problem.n, k: spec.problem.k },
            ),
            !zero_sized(spec.problem) ==> r is Ok && r->Ok_0.position() == 0 && !r->Ok_0.failed()
                && r->Ok_0.steps() == matmul_steps(*spec, ptrs),
    {
        match plan_hipblaslt_matmul(spec, ptrs) {
            Ok(steps) => Ok(LtRun { steps, at: 0, failed: false }),
            Err(error) => Err(error),
        }
    }

    /// The call to make next, or `None` once all are made or one has failed.
    pub fn current(&self) -> (r: Option<LtStep>)
        ensures
            r == self.upcoming(),
            self.position() <= self.steps().len(),
    {
        proof {
            use_type_invariant(self);
        }
        if !self.failed && self.at < self.steps.len() {
            Some(self.steps[self.at])
        } else {
            None
        }
    }

    /// Takes the outcome of the current call: moves on to the next call, or
    /// ends the run and returns why the matmul failed.
    pub fn advance(&mut self, outcome: LtOutcome) -> (r: Result<(), LtError>)
        requires
            old(self).upcoming() is Some,
        ensures
            final(self).steps() == old(self).steps(),
            match step_failure(old(self).upcoming()->0, outcome) {
                Some(error) => {
                    &&& r == Err::<(), LtError>(error)
                    &&& final(self).position() == old(self).position()
                    &&& final(self).failed()
                    &&& final(self).upcoming() is None
                },
                None => {
                    &&& r is Ok
                    &&& final(self).position() == old(self).position() + 1
                    &&& !final(self).failed()
                },
            },
    {
        match outcome {
            LtOutcome::Failed(message) => {
                self.failed = true;
                Err(LtError::Call(message))
            },
            LtOutcome::Done { algorithms } => {
                if algorithms == 0 {
                    match self.steps[self.at] {
                        LtStep::GetHeuristic { .. } => {
                            self.failed = true;
                            return Err(LtError::NoAlgorithm);
                        },
                        _ => {},
                    }
                }
                assert(self.at < self.steps.len());
                self.at = self.at + 1;
                Ok(())
            },
        }
    }

    /// The library objects that the calls so far have created, and which are to
    /// be destroyed when the run ends.
    pub fn created(&self) -> (r: LtRawDescriptors)
        ensures
            forall|d: Descriptor| #[trigger]
                r.exists_now(d) <==> exists|i: int|
                    0 <= i < self.position() && creates(#[trigger] self.steps()[i]) == Some(d),
    {
        proof {
            use_type_invariant(self);
        }
        let mut created = LtRawDescriptors::default();
        let mut i: usize = 0;
        while i < self.at
            invariant
                i <= self.at <= self.steps@.len(),
                created_by(created, self.steps@, i as nat),
            decreases self.at - i,
        {
            let ghost before = created;
            let step = self.steps[i];
            match created_object(step) {
                Some(descriptor) => {
                    created.add_object(descriptor);
                },
                None => {},
            }
            assert forall|d: Descriptor| #[trigger] created.exists_now(d) <==> exists|j: int|
                0 <= j < i + 1 && creates(#[trigger] self.steps@[j]) == Some(d) by {
                assert(before.exists_now(d) <==> exists|j: int|
                    0 <= j < i && creates(#[trigger] self.steps@[j]) == Some(d));
                if before.exists_now(d) {
                    let j = choose|j: int|
                        0 <= j < i && creates(#[trigger] self.steps@[j]) == Some(d);
                    assert(0 <= j < i + 1 && creates(self.steps@[j]) == Some(d));
                }
                if creates(step) == Some(d) {
                    assert(creates(self.steps@[i as int]) == Some(d));
                }
            }
            i += 1;
        }
        created
    }
}

} // verus!
