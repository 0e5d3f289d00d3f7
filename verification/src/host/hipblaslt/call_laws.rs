//! What the calls of a matmul say: each attribute of the matmul is set, once, to
//! what the matmul says it is.
use vstd::prelude::*;

use crate::host::hipblaslt::error::LtError;
use crate::host::hipblaslt::laws;
use crate::host::hipblaslt::matmul;
use crate::host::hipblaslt::matmul::{
    plan_hipblaslt_matmul, Descriptor, LtMatmulSpec, LtMatrixSpec, LtOutcome, LtRawDescriptors,
    LtRun, LtStep, Operand, ScaleSource,
};
use crate::host::hipblaslt::pointers::LtMatmulPointers;

verus! {

/// The matrix of a matmul.
pub open spec fn matrix_of(spec: LtMatmulSpec, operand: Operand) -> LtMatrixSpec {
    match operand {
        Operand::A => spec.a,
        Operand::B => spec.b,
        Operand::C => spec.c,
        Operand::D => spec.d,
    }
}

/// The scale factor of the matrix that is an input of the matmul.
pub open spec fn scale_input(ptrs: LtMatmulPointers, operand: Operand) -> Option<u64> {
    match operand {
        Operand::A => ptrs.a_scale,
        Operand::B => ptrs.b_scale,
        Operand::C => None,
        Operand::D => None,
    }
}

/// The matrix needs a scale factor of one: it is of an eight-bit type, and no
/// input is its scale.
pub open spec fn needs_unit_scale(
    spec: LtMatmulSpec,
    ptrs: LtMatmulPointers,
    operand: Operand,
) -> bool {
    let dtype = matrix_of(spec, operand).dtype;
    (dtype is HIP_R_8F_E4M3 || dtype is HIP_R_8F_E5M2) && scale_input(ptrs, operand) is None
}

/// Whether a matmul with these pointers makes this call.
pub open spec fn belongs(spec: LtMatmulSpec, ptrs: LtMatmulPointers, step: LtStep) -> bool {
    let batched = spec.problem.batch_count > 1;
    match step {
        LtStep::AllocWorkspace(size) => size == spec.workspace_size,
        LtStep::UploadUnitScale(operand) => needs_unit_scale(spec, ptrs, operand),
        LtStep::CreateMatmulDesc { compute_type, scale_dtype } => compute_type
            == spec.compute.compute_type && scale_dtype == spec.compute.scale_dtype,
        LtStep::SetTransA(op) => op == spec.trans_a,
        LtStep::SetTransB(op) => op == spec.trans_b,
        LtStep::SetEpilogue(epilogue) => epilogue == spec.compute.epilogue,
        LtStep::SetBiasPointer(ptr) => ptrs.bias == Some(ptr),
        LtStep::SetScalePointer(operand, ScaleSource::Given(ptr)) => scale_input(ptrs, operand)
            == Some(ptr),
        LtStep::SetScalePointer(operand, ScaleSource::Uploaded) => needs_unit_scale(
            spec,
            ptrs,
            operand,
        ),
        LtStep::CreateLayout { operand, dtype, rows, cols, ld } => {
            let matrix = matrix_of(spec, operand);
            dtype == matrix.dtype && rows == matrix.rows && cols == matrix.cols && ld == matrix.ld
        },
        LtStep::SetLayoutOrder(operand, order) => order == matrix_of(spec, operand).order,
        LtStep::SetBatchCount(_, count) => batched && count == spec.problem.batch_count,
        LtStep::SetBatchStride(operand, stride) => batched && stride == matrix_of(
            spec,
            operand,
        ).batch_stride,
        LtStep::CreatePreference => true,
        LtStep::SetMaxWorkspace(size) => size == spec.workspace_size,
        LtStep::GetHeuristic { requested } => requested == 1,
        LtStep::Launch { alpha, beta, a, b, c, d, workspace_size } => {
            &&& alpha == spec.compute.alpha
            &&& beta == spec.compute.beta
            &&& a == ptrs.a
            &&& b == ptrs.b
            &&& c == ptrs.c
            &&& d == ptrs.d
            &&& workspace_size == spec.workspace_size
        },
    }
}

/// Every call of the memory part belongs to the matmul, and those that belong
/// are made.
proof fn memory_part_calls(spec: LtMatmulSpec, ptrs: LtMatmulPointers, step: LtStep)
    ensures
        matmul::memory_part(spec, ptrs).contains(step) <==> (step is AllocWorkspace
            || step is UploadUnitScale) && belongs(spec, ptrs, step),
        matmul::memory_part(spec, ptrs).no_duplicates(),
{
    reveal(matmul::memory_part);
    let part = matmul::memory_part(spec, ptrs);
    let b = 1 + matmul::upload_steps(spec, ptrs, Operand::A).len() as int;
    let c = b + matmul::upload_steps(spec, ptrs, Operand::B).len();
    let d = c + matmul::upload_steps(spec, ptrs, Operand::C).len();
    assert(part[0] == LtStep::AllocWorkspace(spec.workspace_size));
    if (step is AllocWorkspace || step is UploadUnitScale) && belongs(spec, ptrs, step) {
        let at = match step {
            LtStep::UploadUnitScale(Operand::A) => 1int,
            LtStep::UploadUnitScale(Operand::B) => b,
            LtStep::UploadUnitScale(Operand::C) => c,
            LtStep::UploadUnitScale(Operand::D) => d,
            _ => 0,
        };
        assert(part[at] == step);
    }
}

proof fn scale_calls(spec: LtMatmulSpec, ptrs: LtMatmulPointers, operand: Operand, step: LtStep)
    ensures
        matmul::scale_steps(spec, ptrs, operand).contains(step) <==> (
        step matches LtStep::SetScalePointer(named, _) && named == operand) && belongs(
            spec,
            ptrs,
            step,
        ),
        matmul::scale_steps(spec, ptrs, operand).no_duplicates(),
{
    let part = matmul::scale_steps(spec, ptrs, operand);
    if (step matches LtStep::SetScalePointer(named, _) && named == operand) && belongs(
        spec,
        ptrs,
        step,
    ) {
        assert(part[0] == step);
    }
}

proof fn bias_calls(spec: LtMatmulSpec, ptrs: LtMatmulPointers, step: LtStep)
    ensures
        matmul::bias_steps(ptrs).contains(step) <==> step is SetBiasPointer && belongs(
            spec,
            ptrs,
            step,
        ),
        matmul::bias_steps(ptrs).no_duplicates(),
{
    if step is SetBiasPointer && belongs(spec, ptrs, step) {
        assert(matmul::bias_steps(ptrs)[0] == step);
    }
}

/// Every call of the descriptor part belongs to the matmul, and those that
/// belong are made.
proof fn descriptor_part_calls(spec: LtMatmulSpec, ptrs: LtMatmulPointers, step: LtStep)
    ensures
        matmul::descriptor_part(spec, ptrs).contains(step) <==> (step is CreateMatmulDesc
            || step is SetTransA || step is SetTransB || step is SetEpilogue
            || step is SetBiasPointer || step is SetScalePointer) && belongs(spec, ptrs, step),
{
    let base = descriptor_base(spec);
    let one = base + matmul::bias_steps(ptrs);
    let two = one + matmul::scale_steps(spec, ptrs, Operand::A);
    let three = two + matmul::scale_steps(spec, ptrs, Operand::B);
    let four = three + matmul::scale_steps(spec, ptrs, Operand::C);
    assert(matmul::descriptor_part(spec, ptrs) == four + matmul::scale_steps(
        spec,
        ptrs,
        Operand::D,
    )) by {
        reveal(matmul::descriptor_part);
    }
    base_calls(spec, ptrs, step);
    bias_calls(spec, ptrs, step);
    scale_calls(spec, ptrs, Operand::A, step);
    scale_calls(spec, ptrs, Operand::B, step);
    scale_calls(spec, ptrs, Operand::C, step);
    scale_calls(spec, ptrs, Operand::D, step);
    contains_of_joined(base, matmul::bias_steps(ptrs), step);
    contains_of_joined(one, matmul::scale_steps(spec, ptrs, Operand::A), step);
    contains_of_joined(two, matmul::scale_steps(spec, ptrs, Operand::B), step);
    contains_of_joined(three, matmul::scale_steps(spec, ptrs, Operand::C), step);
    contains_of_joined(four, matmul::scale_steps(spec, ptrs, Operand::D), step);
    if step is SetScalePointer {
        assert(step->SetScalePointer_0 == Operand::A || step->SetScalePointer_0 == Operand::B
            || step->SetScalePointer_0 == Operand::C || step->SetScalePointer_0 == Operand::D);
    }
}

/// The calls with which the descriptor part begins.
spec fn descriptor_base(spec: LtMatmulSpec) -> Seq<LtStep> {
    seq![
        LtStep::CreateMatmulDesc {
            compute_type: spec.compute.compute_type,
            scale_dtype: spec.compute.scale_dtype,
        },
        LtStep::SetTransA(spec.trans_a),
        LtStep::SetTransB(spec.trans_b),
        LtStep::SetEpilogue(spec.compute.epilogue),
    ]
}

proof fn base_calls(spec: LtMatmulSpec, ptrs: LtMatmulPointers, step: LtStep)
    ensures
        descriptor_base(spec).contains(step) <==> (step is CreateMatmulDesc || step is SetTransA
            || step is SetTransB || step is SetEpilogue) && belongs(spec, ptrs, step),
        descriptor_base(spec).no_duplicates(),
{
    let part = descriptor_base(spec);
    if (step is CreateMatmulDesc || step is SetTransA || step is SetTransB || step is SetEpilogue)
        && belongs(spec, ptrs, step) {
        let at = match step {
            LtStep::CreateMatmulDesc { .. } => 0int,
            LtStep::SetTransA(_) => 1,
            LtStep::SetTransB(_) => 2,
            _ => 3,
        };
        assert(part[at] == step);
    }
}

proof fn descriptor_part_has_no_duplicates(spec: LtMatmulSpec, ptrs: LtMatmulPointers)
    ensures
        matmul::descriptor_part(spec, ptrs).no_duplicates(),
{
    let base = descriptor_base(spec);
    let bias = matmul::bias_steps(ptrs);
    let a = matmul::scale_steps(spec, ptrs, Operand::A);
    let b = matmul::scale_steps(spec, ptrs, Operand::B);
    let c = matmul::scale_steps(spec, ptrs, Operand::C);
    let d = matmul::scale_steps(spec, ptrs, Operand::D);
    assert(matmul::descriptor_part(spec, ptrs) == base + bias + a + b + c + d) by {
        reveal(matmul::descriptor_part);
    }
    let any = LtStep::CreatePreference;
    base_calls(spec, ptrs, any);
    bias_calls(spec, ptrs, any);
    scale_calls(spec, ptrs, Operand::A, any);
    scale_calls(spec, ptrs, Operand::B, any);
    scale_calls(spec, ptrs, Operand::C, any);
    scale_calls(spec, ptrs, Operand::D, any);
    assert forall|step: LtStep| #[trigger] base.contains(step) implies !bias.contains(step) by {
        base_calls(spec, ptrs, step);
        bias_calls(spec, ptrs, step);
    }
    joined_without_duplicates(base, bias);
    assert forall|step: LtStep| #[trigger] (base + bias).contains(step) implies !a.contains(
        step,
    ) by {
        contains_of_joined(base, bias, step);
        base_calls(spec, ptrs, step);
        bias_calls(spec, ptrs, step);
        scale_calls(spec, ptrs, Operand::A, step);
    }
    joined_without_duplicates(base + bias, a);
    assert forall|step: LtStep| #[trigger] (base + bias + a).contains(step) implies !b.contains(
        step,
    ) by {
        contains_of_joined(base, bias, step);
        contains_of_joined(base + bias, a, step);
        base_calls(spec, ptrs, step);
        bias_calls(spec, ptrs, step);
        scale_calls(spec, ptrs, Operand::A, step);
        scale_calls(spec, ptrs, Operand::B, step);
    }
    joined_without_duplicates(base + bias + a, b);
    assert forall|step: LtStep| #[trigger] (base + bias + a + b).contains(step) implies !c.contains(
        step,
    ) by {
        contains_of_joined(base, bias, step);
        contains_of_joined(base + bias, a, step);
        contains_of_joined(base + bias + a, b, step);
        base_calls(spec, ptrs, step);
        bias_calls(spec, ptrs, step);
        scale_calls(spec, ptrs, Operand::A, step);
        scale_calls(spec, ptrs, Operand::B, step);
        scale_calls(spec, ptrs, Operand::C, step);
    }
    joined_without_duplicates(base + bias + a + b, c);
    assert forall|step: LtStep| #[trigger] (base + bias + a + b + c).contains(
        step,
    ) implies !d.contains(step) by {
        contains_of_joined(base, bias, step);
        contains_of_joined(base + bias, a, step);
        contains_of_joined(base + bias + a, b, step);
        contains_of_joined(base + bias + a + b, c, step);
        base_calls(spec, ptrs, step);
        bias_calls(spec, ptrs, step);
        scale_calls(spec, ptrs, Operand::A, step);
        scale_calls(spec, ptrs, Operand::B, step);
        scale_calls(spec, ptrs, Operand::C, step);
        scale_calls(spec, ptrs, Operand::D, step);
    }
    joined_without_duplicates(base + bias + a + b + c, d);
}

/// Every call of the layout part belongs to the matmul, and those that belong
/// are made.
proof fn layout_part_calls(spec: LtMatmulSpec, ptrs: LtMatmulPointers, step: LtStep)
    ensures
        matmul::layout_part(spec).contains(step) <==> (step is CreateLayout
            || step is SetLayoutOrder) && belongs(spec, ptrs, step),
        matmul::layout_part(spec).no_duplicates(),
{
    reveal(matmul::layout_part);
    let part = matmul::layout_part(spec);
    if (step is CreateLayout || step is SetLayoutOrder) && belongs(spec, ptrs, step) {
        let at = match step {
            LtStep::CreateLayout { operand: Operand::A, .. } => 0int,
            LtStep::SetLayoutOrder(Operand::A, _) => 1,
            LtStep::CreateLayout { operand: Operand::B, .. } => 2,
            LtStep::SetLayoutOrder(Operand::B, _) => 3,
            LtStep::CreateLayout { operand: Operand::C, .. } => 4,
            LtStep::SetLayoutOrder(Operand::C, _) => 5,
            LtStep::CreateLayout { operand: Operand::D, .. } => 6,
            _ => 7,
        };
        assert(part[at] == step);
    }
}

/// Every call of the batch part belongs to the matmul, and those that belong are
/// made.
proof fn batch_part_calls(spec: LtMatmulSpec, ptrs: LtMatmulPointers, step: LtStep)
    ensures
        matmul::batch_part(spec).contains(step) <==> (step is SetBatchCount
            || step is SetBatchStride) && belongs(spec, ptrs, step),
        matmul::batch_part(spec).no_duplicates(),
{
    reveal(matmul::batch_part);
    let part = matmul::batch_part(spec);
    if (step is SetBatchCount || step is SetBatchStride) && belongs(spec, ptrs, step) {
        let at = match step {
            LtStep::SetBatchCount(Operand::A, _) => 0int,
            LtStep::SetBatchStride(Operand::A, _) => 1,
            LtStep::SetBatchCount(Operand::B, _) => 2,
            LtStep::SetBatchStride(Operand::B, _) => 3,
            LtStep::SetBatchCount(Operand::C, _) => 4,
            LtStep::SetBatchStride(Operand::C, _) => 5,
            LtStep::SetBatchCount(Operand::D, _) => 6,
            _ => 7,
        };
        assert(part[at] == step);
    }
}

/// Every call of the launch part belongs to the matmul, and those that belong
/// are made.
proof fn launch_part_calls(spec: LtMatmulSpec, ptrs: LtMatmulPointers, step: LtStep)
    ensures
        matmul::launch_part(spec, ptrs).contains(step) <==> (step is CreatePreference
            || step is SetMaxWorkspace || step is GetHeuristic || step is Launch) && belongs(
            spec,
            ptrs,
            step,
        ),
        matmul::launch_part(spec, ptrs).no_duplicates(),
{
    reveal(matmul::launch_part);
    let part = matmul::launch_part(spec, ptrs);
    if (step is CreatePreference || step is SetMaxWorkspace || step is GetHeuristic
        || step is Launch) && belongs(spec, ptrs, step) {
        let at = match step {
            LtStep::CreatePreference => 0int,
            LtStep::SetMaxWorkspace(_) => 1,
            LtStep::GetHeuristic { .. } => 2,
            _ => 3,
        };
        assert(part[at] == step);
    }
}

proof fn contains_of_joined<A>(a: Seq<A>, b: Seq<A>, x: A)
    ensures
        (a + b).contains(x) <==> a.contains(x) || b.contains(x),
{
    if a.contains(x) {
        let i = choose|i: int| 0 <= i < a.len() && a[i] == x;
        assert((a + b)[i] == x);
    }
    if b.contains(x) {
        let i = choose|i: int| 0 <= i < b.len() && b[i] == x;
        assert((a + b)[a.len() + i] == x);
    }
    if (a + b).contains(x) {
        let i = choose|i: int| 0 <= i < (a + b).len() && (a + b)[i] == x;
        if i < a.len() {
            assert(a[i] == x);
        } else {
            assert(b[i - a.len()] == x);
        }
    }
}

/// The calls of a matmul are exactly those that belong to it. Each call says what
/// the matmul says: the layout of a matrix is created with the matrix's element
/// type, rows, columns and leading dimension; the batch attributes are set where
/// there is more than one batch; a scale pointer is set to the scale that is an
/// input, or to a factor of one for an eight-bit matrix without such an input;
/// and the matmul is launched with its own scalars and pointers.
pub proof fn calls_are_those_of_the_matmul(
    spec: LtMatmulSpec,
    ptrs: LtMatmulPointers,
    step: LtStep,
)
    ensures
        matmul::matmul_steps(spec, ptrs).contains(step) <==> belongs(spec, ptrs, step),
{
    memory_part_calls(spec, ptrs, step);
    descriptor_part_calls(spec, ptrs, step);
    layout_part_calls(spec, ptrs, step);
    batch_part_calls(spec, ptrs, step);
    launch_part_calls(spec, ptrs, step);
    let one = matmul::memory_part(spec, ptrs);
    let two = one + matmul::descriptor_part(spec, ptrs);
    let three = two + matmul::layout_part(spec);
    let four = three + matmul::batch_part(spec);
    contains_of_joined(one, matmul::descriptor_part(spec, ptrs), step);
    contains_of_joined(two, matmul::layout_part(spec), step);
    contains_of_joined(three, matmul::batch_part(spec), step);
    contains_of_joined(four, matmul::launch_part(spec, ptrs), step);
}

/// The layout of a matrix is created with the element type, the rows, the
/// columns and the leading dimension of the matrix, and with no others; and its
/// storage order is set to that of the matrix.
pub proof fn layouts_are_those_of_the_matrices(
    spec: LtMatmulSpec,
    ptrs: LtMatmulPointers,
    operand: Operand,
    layout: LtStep,
)
    requires
        layout matches LtStep::CreateLayout { operand: named, .. } && named == operand,
    ensures
        matmul::matmul_steps(spec, ptrs).contains(layout) <==> {
            let matrix = match operand {
                Operand::A => spec.a,
                Operand::B => spec.b,
                Operand::C => spec.c,
                Operand::D => spec.d,
            };
            &&& layout->dtype == matrix.dtype
            &&& layout->rows == matrix.rows
            &&& layout->cols == matrix.cols
            &&& layout->ld == matrix.ld
        },
{
    calls_are_those_of_the_matmul(spec, ptrs, layout);
}

proof fn joined_without_duplicates<A>(a: Seq<A>, b: Seq<A>)
    requires
        a.no_duplicates(),
        b.no_duplicates(),
        forall|x: A| #[trigger] a.contains(x) ==> !b.contains(x),
    ensures
        (a + b).no_duplicates(),
{
    let whole = a + b;
    assert forall|i: int, j: int| 0 <= i < j < whole.len() implies whole[i] != whole[j] by {
        if i < a.len() && j >= a.len() {
            assert(a.contains(a[i]));
            assert(b[j - a.len()] == whole[j]);
        }
    }
}

proof fn parts_are_apart(spec: LtMatmulSpec, ptrs: LtMatmulPointers, step: LtStep)
    ensures
        ({
            let one = matmul::memory_part(spec, ptrs);
            let two = one + matmul::descriptor_part(spec, ptrs);
            let three = two + matmul::layout_part(spec);
            let four = three + matmul::batch_part(spec);
            &&& one.contains(step) ==> !matmul::descriptor_part(spec, ptrs).contains(step)
            &&& two.contains(step) ==> !matmul::layout_part(spec).contains(step)
            &&& three.contains(step) ==> !matmul::batch_part(spec).contains(step)
            &&& four.contains(step) ==> !matmul::launch_part(spec, ptrs).contains(step)
        }),
{
    let one = matmul::memory_part(spec, ptrs);
    let two = one + matmul::descriptor_part(spec, ptrs);
    let three = two + matmul::layout_part(spec);
    memory_part_calls(spec, ptrs, step);
    descriptor_part_calls(spec, ptrs, step);
    layout_part_calls(spec, ptrs, step);
    batch_part_calls(spec, ptrs, step);
    launch_part_calls(spec, ptrs, step);
    contains_of_joined(one, matmul::descriptor_part(spec, ptrs), step);
    contains_of_joined(two, matmul::layout_part(spec), step);
    contains_of_joined(three, matmul::batch_part(spec), step);
}

/// No call of a matmul is made twice.
pub proof fn no_call_is_made_twice(spec: LtMatmulSpec, ptrs: LtMatmulPointers)
    ensures
        matmul::matmul_steps(spec, ptrs).no_duplicates(),
{
    let one = matmul::memory_part(spec, ptrs);
    let two = one + matmul::descriptor_part(spec, ptrs);
    let three = two + matmul::layout_part(spec);
    let four = three + matmul::batch_part(spec);
    let any = LtStep::CreatePreference;
    memory_part_calls(spec, ptrs, any);
    descriptor_part_has_no_duplicates(spec, ptrs);
    layout_part_calls(spec, ptrs, any);
    batch_part_calls(spec, ptrs, any);
    launch_part_calls(spec, ptrs, any);
    assert forall|step: LtStep| #[trigger] one.contains(step) implies !matmul::descriptor_part(
        spec,
        ptrs,
    ).contains(step) by {
        parts_are_apart(spec, ptrs, step);
    }
    joined_without_duplicates(one, matmul::descriptor_part(spec, ptrs));
    assert forall|step: LtStep| #[trigger] two.contains(step) implies !matmul::layout_part(
        spec,
    ).contains(step) by {
        parts_are_apart(spec, ptrs, step);
    }
    joined_without_duplicates(two, matmul::layout_part(spec));
    assert forall|step: LtStep| #[trigger] three.contains(step) implies !matmul::batch_part(
        spec,
    ).contains(step) by {
        parts_are_apart(spec, ptrs, step);
    }
    joined_without_duplicates(three, matmul::batch_part(spec));
    assert forall|step: LtStep| #[trigger] four.contains(step) implies !matmul::launch_part(
        spec,
        ptrs,
    ).contains(step) by {
        parts_are_apart(spec, ptrs, step);
    }
    joined_without_duplicates(four, matmul::launch_part(spec, ptrs));
}

/// A matmul is planned and started unless it is empty; then its calls are those
/// that belong to it, each once.
pub proof fn matmuls_are_planned_unless_empty(
    spec: &LtMatmulSpec,
    ptrs: LtMatmulPointers,
    plan: Result<Vec<LtStep>, LtError>,
    run: Result<LtRun, LtError>,
)
    requires
        call_ensures(plan_hipblaslt_matmul, (spec, ptrs), plan),
        call_ensures(LtRun::start, (spec, ptrs), run),
    ensures
        plan is Ok <==> spec.problem.m > 0 && spec.problem.n > 0 && spec.problem.k > 0,
        run is Ok <==> plan is Ok,
        plan is Err ==> plan->Err_0 == (LtError::ZeroSized {
            m: spec.problem.m,
            n: spec.problem.n,
            k: spec.problem.k,
        }) && run is Err && run->Err_0 == plan->Err_0,
        plan is Ok ==> {
            &&& plan->Ok_0@.no_duplicates()
            &&& forall|step: LtStep| #[trigger]
                plan->Ok_0@.contains(step) <==> belongs(*spec, ptrs, step)
            &&& run->Ok_0.steps() == plan->Ok_0@
            &&& run->Ok_0.upcoming() == Some(plan->Ok_0@[0])
        },
{
    no_call_is_made_twice(*spec, ptrs);
    assert forall|step: LtStep| #[trigger]
        matmul::matmul_steps(*spec, ptrs).contains(step) <==> belongs(*spec, ptrs, step) by {
        calls_are_those_of_the_matmul(*spec, ptrs, step);
    }
    laws::launch_is_last(*spec, ptrs);
}

/// A call ends the run exactly when it fails, with its own message, or when it is
/// the search and finds no algorithm.
pub proof fn runs_end_at_a_failed_call(step: LtStep, outcome: LtOutcome)
    ensures
        outcome matches LtOutcome::Failed(message) ==> matmul::step_failure(step, outcome) == Some(
            LtError::Call(message),
        ),
        outcome matches LtOutcome::Done { algorithms } ==> matmul::step_failure(step, outcome) == (
        if step is GetHeuristic && algorithms == 0 {
            Some(LtError::NoAlgorithm)
        } else {
            None
        }),
{
}

/// The objects that exist are destroyed in the opposite order of their creation.
pub proof fn objects_are_released_last_created_first(
    spec: LtMatmulSpec,
    ptrs: LtMatmulPointers,
    descriptors: LtRawDescriptors,
    order: Vec<Descriptor>,
    i: int,
    j: int,
    earlier: int,
    later: int,
)
    requires
        call_ensures(LtRawDescriptors::release_order, (&descriptors,), order),
        0 <= i < order@.len(),
        0 <= j < order@.len(),
        0 <= earlier < later < matmul::matmul_steps(spec, ptrs).len(),
        matmul::creates(matmul::matmul_steps(spec, ptrs)[earlier]) == Some(order@[i]),
        matmul::creates(matmul::matmul_steps(spec, ptrs)[later]) == Some(order@[j]),
    ensures
        j < i,
{
    laws::existing_objects_are_released_once(descriptors);
    laws::creation_order(spec, ptrs, earlier, later);
    release_order_of(descriptors, i, j);
    release_order_of(descriptors, j, i);
}

/// The place of an object among all that are created.
spec fn rank(descriptor: Descriptor) -> int {
    match descriptor {
        Descriptor::Matmul => 0,
        Descriptor::Layout(Operand::A) => 1,
        Descriptor::Layout(Operand::B) => 2,
        Descriptor::Layout(Operand::C) => 3,
        Descriptor::Layout(Operand::D) => 4,
        Descriptor::Preference => 5,
    }
}

proof fn filter_keeps_order(s: Seq<Descriptor>, keep: spec_fn(Descriptor) -> bool)
    requires
        forall|i: int, j: int|
            0 <= i < j < s.len() ==> rank(#[trigger] s[i]) > rank(#[trigger] s[j]),
    ensures
        forall|i: int, j: int|
            0 <= i < j < s.filter(keep).len() ==> rank(#[trigger] s.filter(keep)[i]) > rank(
                #[trigger] s.filter(keep)[j],
            ),
        forall|i: int|
            0 <= i < s.filter(keep).len() ==> s.contains(#[trigger] s.filter(keep)[i]),
    decreases s.len(),
{
    reveal(Seq::filter);
    if s.len() > 0 {
        let rest = s.drop_last();
        filter_keeps_order(rest, keep);
        assert forall|i: int| 0 <= i < s.filter(keep).len() implies s.contains(
            #[trigger] s.filter(keep)[i],
        ) by {
            if i < rest.filter(keep).len() {
                let x = rest.filter(keep)[i];
                let at = choose|at: int| 0 <= at < rest.len() && rest[at] == x;
                assert(s[at] == x);
            } else {
                assert(s[s.len() - 1] == s.filter(keep)[i]);
            }
        }
        assert forall|i: int, j: int| 0 <= i < j < s.filter(keep).len() implies rank(
            #[trigger] s.filter(keep)[i],
        ) > rank(#[trigger] s.filter(keep)[j]) by {
            if j == rest.filter(keep).len() {
                let x = rest.filter(keep)[i];
                let at = choose|at: int| 0 <= at < rest.len() && rest[at] == x;
                assert(s[at] == x);
                assert(s.filter(keep)[j] == s[s.len() - 1]);
            }
        }
    }
}

proof fn release_order_of(descriptors: LtRawDescriptors, i: int, j: int)
    requires
        0 <= i < j < descriptors.to_release().len() || 0 <= j <= i < descriptors.to_release().len(),
    ensures
        i < j ==> rank(descriptors.to_release()[i]) > rank(descriptors.to_release()[j]),
{
    let all = seq![
        Descriptor::Preference,
        Descriptor::Layout(Operand::D),
        Descriptor::Layout(Operand::C),
        Descriptor::Layout(Operand::B),
        Descriptor::Layout(Operand::A),
        Descriptor::Matmul,
    ];
    filter_keeps_order(all, |descriptor: Descriptor| descriptors.exists_now(descriptor));
}

/// A run goes through the calls one by one: each that succeeds is followed by the
/// next, one that fails ends the run for its own reason, and so does the search
/// where it finds no algorithm.
pub proof fn runs_go_through_the_calls(
    run: &mut LtRun,
    outcome: LtOutcome,
    r: Result<(), LtError>,
)
    requires
        old(run).upcoming() is Some,
        call_ensures(LtRun::advance, (run, outcome), r),
    ensures
        final(run).steps() == old(run).steps(),
        outcome matches LtOutcome::Failed(message) ==> r is Err && r->Err_0 == LtError::Call(
            message,
        ),
        outcome matches LtOutcome::Done { algorithms } ==> {
            let none_found = old(run).upcoming()->0 is GetHeuristic && algorithms == 0;
            &&& r is Ok <==> !none_found
            &&& none_found ==> r->Err_0 is NoAlgorithm
        },
        r is Ok ==> final(run).position() == old(run).position() + 1 && !final(run).failed(),
        r is Err ==> final(run).position() == old(run).position() && final(run).upcoming() is None,
{
}

/// The call to make is the one behind those that have succeeded, as long as none
/// has failed and there is one.
pub proof fn next_call_is_the_one_behind_the_others(run: &LtRun, step: Option<LtStep>)
    requires
        call_ensures(LtRun::current, (run,), step),
    ensures
        step is Some <==> !run.failed() && run.position() < run.steps().len(),
        step is Some ==> step->0 == run.steps()[run.position() as int],
{
}

/// The objects that a run has created are the matmul descriptor, the layouts and
/// the preference as far as the calls that create them have succeeded.
pub proof fn created_objects_are_those_of_the_calls(run: &LtRun, created: LtRawDescriptors)
    requires
        call_ensures(LtRun::created, (run,), created),
    ensures
        forall|d: Descriptor| #[trigger]
            created.exists_now(d) <==> exists|i: int|
                0 <= i < run.position() && {
                    match #[trigger] run.steps()[i] {
                        LtStep::CreateMatmulDesc { .. } => d == Descriptor::Matmul,
                        LtStep::CreateLayout { operand, .. } => d == Descriptor::Layout(operand),
                        LtStep::CreatePreference => d == Descriptor::Preference,
                        _ => false,
                    }
                },
{
    assert forall|d: Descriptor| #[trigger] created.exists_now(d) <==> exists|i: int|
        0 <= i < run.position() && {
            match #[trigger] run.steps()[i] {
                LtStep::CreateMatmulDesc { .. } => d == Descriptor::Matmul,
                LtStep::CreateLayout { operand, .. } => d == Descriptor::Layout(operand),
                LtStep::CreatePreference => d == Descriptor::Preference,
                _ => false,
            }
        } by {
        if created.exists_now(d) {
            let i = choose|i: int|
                0 <= i < run.position() && matmul::creates(#[trigger] run.steps()[i]) == Some(d);
            assert(0 <= i < run.position() && matmul::creates(run.steps()[i]) == Some(d));
        }
        if exists|i: int|
            0 <= i < run.position() && {
                match #[trigger] run.steps()[i] {
                    LtStep::CreateMatmulDesc { .. } => d == Descriptor::Matmul,
                    LtStep::CreateLayout { operand, .. } => d == Descriptor::Layout(operand),
                    LtStep::CreatePreference => d == Descriptor::Preference,
                    _ => false,
                }
            } {
            let i = choose|i: int|
                0 <= i < run.position() && {
                    match #[trigger] run.steps()[i] {
                        LtStep::CreateMatmulDesc { .. } => d == Descriptor::Matmul,
                        LtStep::CreateLayout { operand, .. } => d == Descriptor::Layout(operand),
                        LtStep::CreatePreference => d == Descriptor::Preference,
                        _ => false,
                    }
                };
            assert(matmul::creates(run.steps()[i]) == Some(d));
        }
    }
}

} // verus!
