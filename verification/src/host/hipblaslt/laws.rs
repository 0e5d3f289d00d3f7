//! What holds of every matmul launch.
use vstd::prelude::*;

use crate::host::hipblaslt::error::LtError;
use crate::host::hipblaslt::matmul;
use crate::host::hipblaslt::matmul::{
    Descriptor, LtMatmulSpec, LtOutcome, LtRawDescriptors, LtStep, Operand, ScaleSource,
};
use crate::host::hipblaslt::pointers::LtMatmulPointers;

verus! {

/// Whether the call reads or changes the library object.
pub open spec fn uses(step: LtStep, descriptor: Descriptor) -> bool {
    match step {
        LtStep::SetTransA(_) => descriptor is Matmul,
        LtStep::SetTransB(_) => descriptor is Matmul,
        LtStep::SetEpilogue(_) => descriptor is Matmul,
        LtStep::SetBiasPointer(_) => descriptor is Matmul,
        LtStep::SetScalePointer(_, _) => descriptor is Matmul,
        LtStep::SetLayoutOrder(operand, _) => descriptor == Descriptor::Layout(operand),
        LtStep::SetBatchCount(operand, _) => descriptor == Descriptor::Layout(operand),
        LtStep::SetBatchStride(operand, _) => descriptor == Descriptor::Layout(operand),
        LtStep::SetMaxWorkspace(_) => descriptor is Preference,
        LtStep::GetHeuristic { .. } => true,
        LtStep::Launch { .. } => descriptor !is Preference,
        _ => false,
    }
}

/// Where the descriptor part of a matmul begins.
spec fn descriptor_start(spec: LtMatmulSpec, ptrs: LtMatmulPointers) -> int {
    matmul::memory_part(spec, ptrs).len() as int
}

/// Where the layout part of a matmul begins.
spec fn layout_start(spec: LtMatmulSpec, ptrs: LtMatmulPointers) -> int {
    descriptor_start(spec, ptrs) + matmul::descriptor_part(spec, ptrs).len()
}

/// Where the batch part of a matmul begins.
spec fn batch_start(spec: LtMatmulSpec, ptrs: LtMatmulPointers) -> int {
    layout_start(spec, ptrs) + matmul::layout_part(spec).len()
}

/// Where the launch part of a matmul begins.
spec fn launch_start(spec: LtMatmulSpec, ptrs: LtMatmulPointers) -> int {
    batch_start(spec, ptrs) + matmul::batch_part(spec).len()
}

/// The call at `i`, by the part that it belongs to.
proof fn call_at(spec: LtMatmulSpec, ptrs: LtMatmulPointers, i: int)
    ensures
        matmul::matmul_steps(spec, ptrs).len() == launch_start(spec, ptrs) + matmul::launch_part(
            spec,
            ptrs,
        ).len(),
        ({
            let step = matmul::matmul_steps(spec, ptrs)[i];
            &&& 0 <= i < descriptor_start(spec, ptrs) ==> step == matmul::memory_part(
                spec,
                ptrs,
            )[i]
            &&& descriptor_start(spec, ptrs) <= i < layout_start(spec, ptrs) ==> step
                == matmul::descriptor_part(spec, ptrs)[i - descriptor_start(spec, ptrs)]
            &&& layout_start(spec, ptrs) <= i < batch_start(spec, ptrs) ==> step
                == matmul::layout_part(spec)[i - layout_start(spec, ptrs)]
            &&& batch_start(spec, ptrs) <= i < launch_start(spec, ptrs) ==> step
                == matmul::batch_part(spec)[i - batch_start(spec, ptrs)]
            &&& launch_start(spec, ptrs) <= i < matmul::matmul_steps(spec, ptrs).len() ==> step
                == matmul::launch_part(spec, ptrs)[i - launch_start(spec, ptrs)]
        }),
{
}

/// The calls of the memory part.
proof fn memory_calls(spec: LtMatmulSpec, ptrs: LtMatmulPointers, i: int)
    requires
        0 <= i < matmul::memory_part(spec, ptrs).len(),
    ensures
        ({
            let step = matmul::memory_part(spec, ptrs)[i];
            ||| step is AllocWorkspace
            ||| step matches LtStep::UploadUnitScale(operand) && matmul::scale_source(
                spec,
                ptrs,
                operand,
            ) == Some(ScaleSource::Uploaded)
        }),
{
    reveal(matmul::memory_part);
}

/// The calls of the descriptor part.
proof fn descriptor_calls(spec: LtMatmulSpec, ptrs: LtMatmulPointers, i: int)
    requires
        0 <= i < matmul::descriptor_part(spec, ptrs).len(),
    ensures
        ({
            let step = matmul::descriptor_part(spec, ptrs)[i];
            &&& step is CreateMatmulDesc <==> i == 0
            &&& i > 0 ==> {
                ||| step is SetTransA
                ||| step is SetTransB
                ||| step is SetEpilogue
                ||| step is SetBiasPointer
                ||| step matches LtStep::SetScalePointer(operand, source) && matmul::scale_source(
                    spec,
                    ptrs,
                    operand,
                ) == Some(source)
            }
        }),
{
    reveal(matmul::descriptor_part);
}

/// The calls of the parts behind the descriptor part.
proof fn late_calls(spec: LtMatmulSpec, ptrs: LtMatmulPointers)
    ensures
        matmul::descriptor_part(spec, ptrs).len() >= 4,
        matmul::layout_part(spec).len() == 8,
        matmul::batch_part(spec).len() == (if spec.problem.batch_count > 1 {
            8nat
        } else {
            0
        }),
        matmul::launch_part(spec, ptrs).len() == 4,
        ({
            let layouts = matmul::layout_part(spec);
            let batches = matmul::batch_part(spec);
            let launch = matmul::launch_part(spec, ptrs);
            let count = spec.problem.batch_count;
            &&& layouts[0] matches LtStep::CreateLayout { operand, .. } && operand is A
            &&& layouts[1] == LtStep::SetLayoutOrder(Operand::A, spec.a.order)
            &&& layouts[2] matches LtStep::CreateLayout { operand, .. } && operand is B
            &&& layouts[3] == LtStep::SetLayoutOrder(Operand::B, spec.b.order)
            &&& layouts[4] matches LtStep::CreateLayout { operand, .. } && operand is C
            &&& layouts[5] == LtStep::SetLayoutOrder(Operand::C, spec.c.order)
            &&& layouts[6] matches LtStep::CreateLayout { operand, .. } && operand is D
            &&& layouts[7] == LtStep::SetLayoutOrder(Operand::D, spec.d.order)
            &&& count > 1 ==> {
                &&& batches[0] == LtStep::SetBatchCount(Operand::A, count)
                &&& batches[1] == LtStep::SetBatchStride(Operand::A, spec.a.batch_stride)
                &&& batches[2] == LtStep::SetBatchCount(Operand::B, count)
                &&& batches[3] == LtStep::SetBatchStride(Operand::B, spec.b.batch_stride)
                &&& batches[4] == LtStep::SetBatchCount(Operand::C, count)
                &&& batches[5] == LtStep::SetBatchStride(Operand::C, spec.c.batch_stride)
                &&& batches[6] == LtStep::SetBatchCount(Operand::D, count)
                &&& batches[7] == LtStep::SetBatchStride(Operand::D, spec.d.batch_stride)
            }
            &&& launch[0] is CreatePreference
            &&& launch[1] is SetMaxWorkspace
            &&& launch[2] is GetHeuristic
            &&& launch[3] is Launch
        }),
{
    reveal(matmul::descriptor_part);
    reveal(matmul::layout_part);
    reveal(matmul::batch_part);
    reveal(matmul::launch_part);
}

/// The launch is the last call of a matmul and the only launch, and the search
/// for an algorithm is the last but one and the only search.
pub proof fn launch_is_last(spec: LtMatmulSpec, ptrs: LtMatmulPointers)
    ensures
        ({
            let steps = matmul::matmul_steps(spec, ptrs);
            &&& steps.len() >= 4
            &&& forall|i: int|
                0 <= i < steps.len() ==> (#[trigger] steps[i] is Launch <==> i == steps.len() - 1)
            &&& forall|i: int|
                0 <= i < steps.len() ==> (#[trigger] steps[i] is GetHeuristic <==> i == steps.len()
                    - 2)
        }),
{
    let steps = matmul::matmul_steps(spec, ptrs);
    late_calls(spec, ptrs);
    call_at(spec, ptrs, 0);
    assert forall|i: int| 0 <= i < steps.len() implies {
        &&& #[trigger] steps[i] is Launch <==> i == steps.len() - 1
        &&& steps[i] is GetHeuristic <==> i == steps.len() - 2
    } by {
        call_at(spec, ptrs, i);
        if i < descriptor_start(spec, ptrs) {
            memory_calls(spec, ptrs, i);
        } else if i < layout_start(spec, ptrs) {
            descriptor_calls(spec, ptrs, i - descriptor_start(spec, ptrs));
        }
    }
}

/// A matmul begins with the allocation of its workspace, and is launched with
/// that workspace, its scalars and its pointers.
pub proof fn launch_takes_what_was_prepared(spec: LtMatmulSpec, ptrs: LtMatmulPointers)
    ensures
        matmul::matmul_steps(spec, ptrs).first() == LtStep::AllocWorkspace(spec.workspace_size),
        matmul::matmul_steps(spec, ptrs).last() == (LtStep::Launch {
            alpha: spec.compute.alpha,
            beta: spec.compute.beta,
            a: ptrs.a,
            b: ptrs.b,
            c: ptrs.c,
            d: ptrs.d,
            workspace_size: spec.workspace_size,
        }),
{
    let steps = matmul::matmul_steps(spec, ptrs);
    late_calls(spec, ptrs);
    call_at(spec, ptrs, 0);
    call_at(spec, ptrs, steps.len() - 1);
    reveal(matmul::memory_part);
    reveal(matmul::launch_part);
}

/// The scale pointer of a matrix is set exactly when the matrix has a scale
/// factor, and then to where that factor lies.
pub proof fn scale_pointer_is_set_iff_there_is_a_scale(
    spec: LtMatmulSpec,
    ptrs: LtMatmulPointers,
    operand: Operand,
    source: ScaleSource,
)
    ensures
        matmul::matmul_steps(spec, ptrs).contains(LtStep::SetScalePointer(operand, source))
            <==> matmul::scale_source(spec, ptrs, operand) == Some(source),
{
    let steps = matmul::matmul_steps(spec, ptrs);
    let step = LtStep::SetScalePointer(operand, source);
    late_calls(spec, ptrs);
    if matmul::scale_source(spec, ptrs, operand) == Some(source) {
        let a = 4 + matmul::bias_steps(ptrs).len() as int;
        let b = a + matmul::scale_steps(spec, ptrs, Operand::A).len();
        let c = b + matmul::scale_steps(spec, ptrs, Operand::B).len();
        let d = c + matmul::scale_steps(spec, ptrs, Operand::C).len();
        let at = match operand {
            Operand::A => a,
            Operand::B => b,
            Operand::C => c,
            Operand::D => d,
        };
        assert(0 <= at < matmul::descriptor_part(spec, ptrs).len() && matmul::descriptor_part(
            spec,
            ptrs,
        )[at] == step) by {
            reveal(matmul::descriptor_part);
        }
        call_at(spec, ptrs, descriptor_start(spec, ptrs) + at);
        assert(steps[descriptor_start(spec, ptrs) + at] == step);
    }
    if steps.contains(step) {
        let i = choose|i: int| 0 <= i < steps.len() && steps[i] == step;
        call_at(spec, ptrs, i);
        if i < descriptor_start(spec, ptrs) {
            memory_calls(spec, ptrs, i);
        } else if i < layout_start(spec, ptrs) {
            descriptor_calls(spec, ptrs, i - descriptor_start(spec, ptrs));
        }
    }
}

/// Where the upload of the scale factor of a matrix stands.
proof fn upload_position(spec: LtMatmulSpec, ptrs: LtMatmulPointers, operand: Operand) -> (at: int)
    requires
        matmul::scale_source(spec, ptrs, operand) == Some(ScaleSource::Uploaded),
    ensures
        0 <= at < descriptor_start(spec, ptrs),
        at < matmul::matmul_steps(spec, ptrs).len(),
        matmul::matmul_steps(spec, ptrs)[at] == LtStep::UploadUnitScale(operand),
{
    let b = 1 + matmul::upload_steps(spec, ptrs, Operand::A).len() as int;
    let c = b + matmul::upload_steps(spec, ptrs, Operand::B).len();
    let d = c + matmul::upload_steps(spec, ptrs, Operand::C).len();
    let at = match operand {
        Operand::A => 1int,
        Operand::B => b,
        Operand::C => c,
        Operand::D => d,
    };
    assert(0 <= at < matmul::memory_part(spec, ptrs).len() && matmul::memory_part(spec, ptrs)[at]
        == LtStep::UploadUnitScale(operand)) by {
        reveal(matmul::memory_part);
    }
    call_at(spec, ptrs, at);
    at
}

/// A factor of one is uploaded for a matrix exactly when its scale pointer is
/// to be the uploaded one.
pub proof fn scale_is_uploaded_iff_it_is_used(
    spec: LtMatmulSpec,
    ptrs: LtMatmulPointers,
    operand: Operand,
)
    ensures
        matmul::matmul_steps(spec, ptrs).contains(LtStep::UploadUnitScale(operand))
            <==> matmul::scale_source(spec, ptrs, operand) == Some(ScaleSource::Uploaded),
{
    let steps = matmul::matmul_steps(spec, ptrs);
    let step = LtStep::UploadUnitScale(operand);
    late_calls(spec, ptrs);
    if matmul::scale_source(spec, ptrs, operand) == Some(ScaleSource::Uploaded) {
        let at = upload_position(spec, ptrs, operand);
        assert(steps[at] == step);
    }
    if steps.contains(step) {
        let i = choose|i: int| 0 <= i < steps.len() && steps[i] == step;
        call_at(spec, ptrs, i);
        if i < descriptor_start(spec, ptrs) {
            memory_calls(spec, ptrs, i);
        } else if i < layout_start(spec, ptrs) {
            descriptor_calls(spec, ptrs, i - descriptor_start(spec, ptrs));
        }
    }
}

/// A scale pointer to an uploaded factor is set after the upload.
pub proof fn upload_precedes_its_use(
    spec: LtMatmulSpec,
    ptrs: LtMatmulPointers,
    operand: Operand,
    i: int,
)
    requires
        0 <= i < matmul::matmul_steps(spec, ptrs).len(),
        matmul::matmul_steps(spec, ptrs)[i] == LtStep::SetScalePointer(
            operand,
            ScaleSource::Uploaded,
        ),
    ensures
        exists|j: int|
            0 <= j < i && #[trigger] matmul::matmul_steps(spec, ptrs)[j]
                == LtStep::UploadUnitScale(operand),
{
    let steps = matmul::matmul_steps(spec, ptrs);
    assert(steps.contains(LtStep::SetScalePointer(operand, ScaleSource::Uploaded)));
    scale_pointer_is_set_iff_there_is_a_scale(spec, ptrs, operand, ScaleSource::Uploaded);
    let j = upload_position(spec, ptrs, operand);
    call_at(spec, ptrs, i);
    if i < descriptor_start(spec, ptrs) {
        memory_calls(spec, ptrs, i);
    }
}

/// The batch attributes of a layout are set exactly when there is more than
/// one batch, and then to the batch count and the matrix's batch stride.
pub proof fn batch_attributes_are_set_iff_batched(
    spec: LtMatmulSpec,
    ptrs: LtMatmulPointers,
    operand: Operand,
    count: i32,
    stride: i64,
)
    ensures
        matmul::matmul_steps(spec, ptrs).contains(LtStep::SetBatchCount(operand, count))
            <==> spec.problem.batch_count > 1 && count == spec.problem.batch_count,
        matmul::matmul_steps(spec, ptrs).contains(LtStep::SetBatchStride(operand, stride))
            <==> spec.problem.batch_count > 1 && stride == spec.stored(operand).batch_stride,
{
    let steps = matmul::matmul_steps(spec, ptrs);
    late_calls(spec, ptrs);
    if spec.problem.batch_count > 1 {
        let at = batch_start(spec, ptrs) + match operand {
            Operand::A => 0int,
            Operand::B => 2,
            Operand::C => 4,
            Operand::D => 6,
        };
        call_at(spec, ptrs, at);
        call_at(spec, ptrs, at + 1);
        assert(steps[at] == LtStep::SetBatchCount(operand, spec.problem.batch_count));
        assert(steps[at + 1] == LtStep::SetBatchStride(
            operand,
            spec.stored(operand).batch_stride,
        ));
    }
    assert forall|i: int| 0 <= i < steps.len() && ((#[trigger] steps[i]) is SetBatchCount
        || steps[i] is SetBatchStride) implies spec.problem.batch_count > 1 && (steps[i]
        == LtStep::SetBatchCount(operand, count) ==> count == spec.problem.batch_count) && (steps[i]
        == LtStep::SetBatchStride(operand, stride) ==> stride == spec.stored(
        operand,
    ).batch_stride) by {
        call_at(spec, ptrs, i);
        if i < descriptor_start(spec, ptrs) {
            memory_calls(spec, ptrs, i);
        } else if i < layout_start(spec, ptrs) {
            descriptor_calls(spec, ptrs, i - descriptor_start(spec, ptrs));
        }
    }
}

/// Where the object is created.
spec fn creation_position(
    spec: LtMatmulSpec,
    ptrs: LtMatmulPointers,
    descriptor: Descriptor,
) -> int {
    match descriptor {
        Descriptor::Matmul => descriptor_start(spec, ptrs),
        Descriptor::Layout(Operand::A) => layout_start(spec, ptrs),
        Descriptor::Layout(Operand::B) => layout_start(spec, ptrs) + 2,
        Descriptor::Layout(Operand::C) => layout_start(spec, ptrs) + 4,
        Descriptor::Layout(Operand::D) => layout_start(spec, ptrs) + 6,
        Descriptor::Preference => launch_start(spec, ptrs),
    }
}

/// The call at `i` creates the object exactly at its place, and uses it only
/// behind that place.
proof fn creation_and_use_at(
    spec: LtMatmulSpec,
    ptrs: LtMatmulPointers,
    descriptor: Descriptor,
    i: int,
)
    requires
        0 <= i < matmul::matmul_steps(spec, ptrs).len(),
    ensures
        matmul::creates(matmul::matmul_steps(spec, ptrs)[i]) == Some(descriptor) <==> i
            == creation_position(spec, ptrs, descriptor),
        uses(matmul::matmul_steps(spec, ptrs)[i], descriptor) ==> creation_position(
            spec,
            ptrs,
            descriptor,
        ) < i,
{
    late_calls(spec, ptrs);
    call_at(spec, ptrs, i);
    if i < descriptor_start(spec, ptrs) {
        memory_calls(spec, ptrs, i);
    } else if i < layout_start(spec, ptrs) {
        descriptor_calls(spec, ptrs, i - descriptor_start(spec, ptrs));
    }
}

/// The matmul descriptor is created before the layouts of A, B, C and D, in that
/// order, and the preference after them.
pub proof fn creation_order(spec: LtMatmulSpec, ptrs: LtMatmulPointers, earlier: int, later: int)
    requires
        0 <= earlier < later < matmul::matmul_steps(spec, ptrs).len(),
        matmul::creates(matmul::matmul_steps(spec, ptrs)[earlier]) is Some,
        matmul::creates(matmul::matmul_steps(spec, ptrs)[later]) is Some,
    ensures
        ({
            let first = matmul::creates(matmul::matmul_steps(spec, ptrs)[earlier])->0;
            let second = matmul::creates(matmul::matmul_steps(spec, ptrs)[later])->0;
            match first {
                Descriptor::Matmul => second !is Matmul,
                Descriptor::Layout(Operand::A) => second !is Matmul && second != Descriptor::Layout(
                    Operand::A,
                ),
                Descriptor::Layout(Operand::B) => second == Descriptor::Layout(Operand::C) || second
                    == Descriptor::Layout(Operand::D) || second is Preference,
                Descriptor::Layout(Operand::C) => second == Descriptor::Layout(Operand::D)
                    || second is Preference,
                Descriptor::Layout(Operand::D) => second is Preference,
                Descriptor::Preference => false,
            }
        }),
{
    let first = matmul::creates(matmul::matmul_steps(spec, ptrs)[earlier])->0;
    let second = matmul::creates(matmul::matmul_steps(spec, ptrs)[later])->0;
    late_calls(spec, ptrs);
    creation_and_use_at(spec, ptrs, first, earlier);
    creation_and_use_at(spec, ptrs, second, later);
}

/// Each library object is created by exactly one call, and every call that
/// uses it comes later.
pub proof fn objects_are_created_once_and_before_use(
    spec: LtMatmulSpec,
    ptrs: LtMatmulPointers,
    descriptor: Descriptor,
)
    ensures
        ({
            let steps = matmul::matmul_steps(spec, ptrs);
            exists|at: int|
                {
                    &&& 0 <= at < steps.len()
                    &&& matmul::creates(#[trigger] steps[at]) == Some(descriptor)
                    &&& forall|i: int|
                        0 <= i < steps.len() && i != at ==> matmul::creates(#[trigger] steps[i])
                            != Some(descriptor)
                    &&& forall|i: int|
                        0 <= i < steps.len() && uses(#[trigger] steps[i], descriptor) ==> at < i
                }
        }),
{
    let steps = matmul::matmul_steps(spec, ptrs);
    let at = creation_position(spec, ptrs, descriptor);
    late_calls(spec, ptrs);
    call_at(spec, ptrs, at);
    creation_and_use_at(spec, ptrs, descriptor, at);
    assert(matmul::creates(steps[at]) == Some(descriptor));
    assert forall|i: int| 0 <= i < steps.len() && i != at implies matmul::creates(
        #[trigger] steps[i],
    ) != Some(descriptor) by {
        creation_and_use_at(spec, ptrs, descriptor, i);
    }
    assert forall|i: int| 0 <= i < steps.len() && uses(#[trigger] steps[i], descriptor) implies at
        < i by {
        creation_and_use_at(spec, ptrs, descriptor, i);
    }
}

/// The objects to destroy are exactly those that exist, each once.
pub proof fn existing_objects_are_released_once(descriptors: LtRawDescriptors)
    ensures
        forall|d: Descriptor| #[trigger]
            descriptors.to_release().contains(d) <==> descriptors.exists_now(d),
        descriptors.to_release().no_duplicates(),
{
    let all = seq![
        Descriptor::Preference,
        Descriptor::Layout(Operand::D),
        Descriptor::Layout(Operand::C),
        Descriptor::Layout(Operand::B),
        Descriptor::Layout(Operand::A),
        Descriptor::Matmul,
    ];
    let keep = |descriptor: Descriptor| descriptors.exists_now(descriptor);
    broadcast use vstd::seq_lib::group_filter_ensures;

    assert forall|d: Descriptor| descriptors.exists_now(d) implies #[trigger] all.filter(
        keep,
    ).contains(d) by {
        let at = match d {
            Descriptor::Preference => 0int,
            Descriptor::Layout(Operand::D) => 1,
            Descriptor::Layout(Operand::C) => 2,
            Descriptor::Layout(Operand::B) => 3,
            Descriptor::Layout(Operand::A) => 4,
            Descriptor::Matmul => 5,
        };
        assert(all[at] == d && keep(all[at]));
    }
    assert(all.no_duplicates());
    filter_keeps_no_duplicates(all, keep);
}

proof fn filter_keeps_no_duplicates<A>(s: Seq<A>, keep: spec_fn(A) -> bool)
    requires
        s.no_duplicates(),
    ensures
        s.filter(keep).no_duplicates(),
        forall|x: A| #[trigger] s.filter(keep).contains(x) ==> s.contains(x),
    decreases s.len(),
{
    reveal(Seq::filter);
    if s.len() > 0 {
        let rest = s.drop_last();
        filter_keeps_no_duplicates(rest, keep);
        assert(!rest.contains(s.last()));
        assert forall|x: A| #[trigger] s.filter(keep).contains(x) implies s.contains(x) by {
            if rest.filter(keep).contains(x) {
                assert(rest.contains(x));
                let i = choose|i: int| 0 <= i < rest.len() && rest[i] == x;
                assert(s[i] == x);
            } else {
                assert(x == s.last());
            }
        }
        assert(!rest.filter(keep).contains(s.last()));
    }
}

/// What a run has created is destroyed, each object once, and nothing else is.
pub proof fn created_objects_are_released_once(
    steps: Seq<LtStep>,
    position: nat,
    created: LtRawDescriptors,
)
    requires
        matmul::created_by(created, steps, position),
    ensures
        created.to_release().no_duplicates(),
        forall|d: Descriptor| #[trigger]
            created.to_release().contains(d) <==> exists|i: int|
                0 <= i < position && matmul::creates(#[trigger] steps[i]) == Some(d),
{
    existing_objects_are_released_once(created);
}

/// How many calls of a matmul succeed when the calls have these outcomes, one
/// after the other.
pub open spec fn calls_made(steps: Seq<LtStep>, outcomes: Seq<LtOutcome>, from: nat) -> nat
    decreases steps.len() - from,
{
    if from >= steps.len() || from >= outcomes.len()
        || matmul::step_failure(
        steps[from as int],
        outcomes[from as int],
    ) is Some {
        from
    } else {
        calls_made(steps, outcomes, from + 1)
    }
}

/// Why a run of a matmul fails when its calls have these outcomes, one after the
/// other: for the reason of the first call that fails.
pub open spec fn run_failure(steps: Seq<LtStep>, outcomes: Seq<LtOutcome>) -> Option<LtError> {
    let made = calls_made(steps, outcomes, 0);
    if made < steps.len() && made < outcomes.len() {
        matmul::step_failure(steps[made as int], outcomes[made as int])
    } else {
        None
    }
}

proof fn made_before_first_failure(
    steps: Seq<LtStep>,
    outcomes: Seq<LtOutcome>,
    from: nat,
    failed: int,
)
    requires
        from <= failed < steps.len(),
        failed < outcomes.len(),
        matmul::step_failure(steps[failed], outcomes[failed]) is Some,
        forall|i: int|
            from <= i < failed ==> matmul::step_failure(steps[i], #[trigger] outcomes[i]) is None,
    ensures
        calls_made(steps, outcomes, from) == failed,
    decreases failed - from,
{
    if from < failed {
        assert(matmul::step_failure(steps[from as int], outcomes[from as int]) is None);
        made_before_first_failure(steps, outcomes, from + 1, failed);
    }
}

/// The first call that fails ends a run: exactly the calls before it have
/// succeeded, the run fails for its reason, and what was created before it is
/// destroyed, each object once.
pub proof fn first_failing_call_ends_the_run(
    spec: LtMatmulSpec,
    ptrs: LtMatmulPointers,
    outcomes: Seq<LtOutcome>,
    failed: int,
    created: LtRawDescriptors,
)
    requires
        0 <= failed < matmul::matmul_steps(spec, ptrs).len(),
        failed < outcomes.len(),
        matmul::step_failure(matmul::matmul_steps(spec, ptrs)[failed], outcomes[failed]) is Some,
        forall|i: int|
            0 <= i < failed ==> matmul::step_failure(
                matmul::matmul_steps(spec, ptrs)[i],
                #[trigger] outcomes[i],
            ) is None,
        matmul::created_by(
            created,
            matmul::matmul_steps(spec, ptrs),
            calls_made(matmul::matmul_steps(spec, ptrs), outcomes, 0),
        ),
    ensures
        calls_made(matmul::matmul_steps(spec, ptrs), outcomes, 0) == failed,
        run_failure(matmul::matmul_steps(spec, ptrs), outcomes) == matmul::step_failure(
            matmul::matmul_steps(spec, ptrs)[failed],
            outcomes[failed],
        ),
        created.to_release().no_duplicates(),
        forall|d: Descriptor| #[trigger]
            created.to_release().contains(d) <==> exists|i: int|
                0 <= i < failed && matmul::creates(
                    #[trigger] matmul::matmul_steps(spec, ptrs)[i],
                ) == Some(d),
{
    let steps = matmul::matmul_steps(spec, ptrs);
    made_before_first_failure(steps, outcomes, 0, failed);
    created_objects_are_released_once(steps, failed as nat, created);
}

/// No call is made behind one that fails: a matmul is not launched where a call
/// before the launch failed or where no algorithm was found.
pub proof fn no_launch_after_a_failure(
    spec: LtMatmulSpec,
    ptrs: LtMatmulPointers,
    outcomes: Seq<LtOutcome>,
    failed: int,
)
    requires
        0 <= failed < matmul::matmul_steps(spec, ptrs).len(),
        failed < outcomes.len(),
        matmul::step_failure(
            matmul::matmul_steps(spec, ptrs)[failed],
            outcomes[failed],
        ) is Some,
    ensures
        calls_made(matmul::matmul_steps(spec, ptrs), outcomes, 0)
            <= failed,
        failed < matmul::matmul_steps(spec, ptrs).len() - 1 ==> forall|i: int|
            0 <= i <= calls_made(matmul::matmul_steps(spec, ptrs), outcomes, 0)
                ==> #[trigger] matmul::matmul_steps(spec, ptrs)[i] !is Launch,
{
    made_at_most(matmul::matmul_steps(spec, ptrs), outcomes, 0, failed);
    launch_is_last(spec, ptrs);
}

proof fn made_at_most(steps: Seq<LtStep>, outcomes: Seq<LtOutcome>, from: nat, failed: int)
    requires
        from <= failed < steps.len(),
        failed < outcomes.len(),
        matmul::step_failure(steps[failed], outcomes[failed]) is Some,
    ensures
        calls_made(steps, outcomes, from) <= failed,
    decreases failed - from,
{
    if from < failed && matmul::step_failure(
        steps[from as int],
        outcomes[from as int],
    ) is None {
        made_at_most(steps, outcomes, from + 1, failed);
    }
}

/// All calls are made, the launch last, exactly when none of them fails and an
/// algorithm was found.
pub proof fn all_calls_are_made_iff_none_fails(
    spec: LtMatmulSpec,
    ptrs: LtMatmulPointers,
    outcomes: Seq<LtOutcome>,
)
    requires
        outcomes.len() == matmul::matmul_steps(spec, ptrs).len(),
    ensures
        calls_made(matmul::matmul_steps(spec, ptrs), outcomes, 0) == outcomes.len() <==> forall|
            i: int,
        |
            0 <= i < outcomes.len() ==> matmul::step_failure(
                matmul::matmul_steps(spec, ptrs)[i],
                #[trigger] outcomes[i],
            ) is None,
{
    made_all(matmul::matmul_steps(spec, ptrs), outcomes, 0);
}

proof fn made_all(steps: Seq<LtStep>, outcomes: Seq<LtOutcome>, from: nat)
    requires
        from <= steps.len(),
        steps.len() == outcomes.len(),
    ensures
        calls_made(steps, outcomes, from) == steps.len() <==> forall|i: int|
            from <= i < outcomes.len() ==> matmul::step_failure(
                steps[i],
                #[trigger] outcomes[i],
            ) is None,
    decreases steps.len() - from,
{
    if from < steps.len() {
        made_all(steps, outcomes, from + 1);
        assert(calls_made(steps, outcomes, from) == steps.len() ==> matmul::step_failure(
            steps[from as int],
            outcomes[from as int],
        ) is None);
    }
}

} // verus!
