//! What holds of every matmul operation.
use std::collections::HashMap;
use vstd::prelude::*;

use crate::dtype::DType;
use crate::host::egglog;
use crate::host::egglog::{is_well_sorted, KindChild, SortClass, SortDef};
use crate::host::hipblaslt::error::LtError;
use crate::host::hipblaslt::matmul::{clamp_ld_for_order, LtMatmulSpec, LtMatrixSpec, Operand};
use crate::host::hipblaslt::names;
use crate::host::hipblaslt::names::{dtype_to_rocm_dtype, matmul_supports};
use crate::host::hipblaslt::op;
use crate::host::hipblaslt::op::{
    hipblaslt_sort, parameter_problem, HipblasLt, HipblasLtScaled, LtDims,
};
use crate::host::hipblaslt::pointer_laws;
use crate::host::hipblaslt::pointers;
use crate::host::hipblaslt::pointers::{resolve_hipblaslt_pointers, LtMatmulPointers};
use crate::host::hipblaslt::scalar::{HostScalar, LtScalar};
use crate::host::hipblaslt::types;
use crate::host::hipblaslt::types::{hipDataType, hipblasLtOrder_t};
use crate::host::size;
use crate::host::{DeviceBuffer, HostOp, NodeIndex};

verus! {

/// The output has as many elements as D has over all batches, and takes their
/// bits in whole bytes, none to spare.
pub proof fn output_sizes<E: Copy>(
    op: HipblasLt<E>,
    element_bits: usize,
    dim: spec_fn(E) -> nat,
    unit: spec_fn(E) -> nat,
)
    ensures
        op.size_formula().value(dim, unit) == unit(op.dims.batch_count) * unit(op.dims.m) * unit(
            op.dims.n,
        ),
        ({
            let bits = unit(op.dims.batch_count) * unit(op.dims.m) * unit(op.dims.n)
                * element_bits;
            let bytes = op.bytes_formula(element_bits).value(dim, unit);
            8 * bytes - 8 < bits <= 8 * bytes
        }),
{
    reveal_with_fuel(size::SizeExpr::value, 4);
    let size = op.size_formula().value(dim, unit);
    assert(op.bytes_formula(element_bits).value(dim, unit) == size::ceil_div(
        size * element_bits as nat,
        8,
    ));
}

/// A matmul reports two floating-point operations for each of the m by n by k
/// terms of each batch.
pub proof fn matmul_reports_its_cost<E: Copy>(
    op: HipblasLt<E>,
    dim: spec_fn(E) -> nat,
    unit: spec_fn(E) -> nat,
)
    ensures
        op.flop_formula().value(dim, unit) == 2 * unit(op.dims.m) * unit(op.dims.n) * unit(
            op.dims.k,
        ) * unit(op.dims.batch_count),
        unit(op.dims.batch_count) == 1 ==> op.flop_formula().value(dim, unit) == 2 * unit(
            op.dims.m,
        ) * unit(op.dims.n) * unit(op.dims.k),
{
    reveal_with_fuel(size::SizeExpr::value, 6);
    let terms = 2 * unit(op.dims.m) * unit(op.dims.n) * unit(op.dims.k);
    vstd::arithmetic::mul::lemma_mul_basics(terms as int);
}

/// Whether host scalars of this scale type exist.
pub open spec fn has_host_scalars(dtype: DType) -> bool {
    dtype is F64 || dtype is F32 || dtype is F16 || dtype is Bf16
}

/// A matmul can be launched exactly when its scale type has host scalars, it
/// has as many inputs as it takes, and those inputs and the output have
/// buffers.
pub proof fn launchable_iff_inputs_are_there<E>(
    op: HipblasLt<E>,
    dims: LtDims<usize>,
    self_node: NodeIndex,
    inputs: Seq<NodeIndex>,
    buffers: Map<NodeIndex, DeviceBuffer>,
)
    ensures
        op.launch_plan(dims, self_node, inputs, buffers) is Ok <==> (has_host_scalars(
            op.scale_dtype,
        ) && inputs.len() >= op.layout().count() && buffers.contains_key(self_node) && forall|
            slot: nat,
        |
            slot < op.layout().count() ==> #[trigger] pointers::has_input(inputs, buffers, slot)),
{
    pointers::pointers_found_iff_all_buffers_are_there(
        self_node,
        inputs,
        buffers,
        op.layout(),
        op.epilogue,
    );
}

/// The smallest dimension along which a matrix in this order can be stored.
pub open spec fn stored_length(matrix: LtMatrixSpec) -> u64 {
    if matrix.order is HIPBLASLT_ORDER_ROW {
        matrix.cols
    } else {
        matrix.rows
    }
}

/// In a matmul of sizes that the library can take, no leading dimension is
/// smaller than the rows of a column-major or the columns of a row-major
/// matrix, nor smaller than the one that was asked for.
pub proof fn leading_dimensions_are_large_enough<E>(
    op: HipblasLt<E>,
    dims: LtDims<usize>,
    alpha: LtScalar,
    beta: LtScalar,
    operand: Operand,
)
    requires
        dims.m <= i64::MAX,
        dims.n <= i64::MAX,
        dims.k <= i64::MAX,
        dims.lda <= i64::MAX,
        dims.ldb <= i64::MAX,
        dims.ldc <= i64::MAX,
        dims.ldd <= i64::MAX,
    ensures
        ({
            let stored = op.launch_spec(dims, alpha, beta).stored(operand);
            let asked = match operand {
                Operand::A => dims.lda,
                Operand::B => dims.ldb,
                Operand::C => dims.ldc,
                Operand::D => dims.ldd,
            };
            stored.ld >= stored_length(stored) && stored.ld >= asked
        }),
{
}

/// The operands are stored in the shapes that their transpositions turn into
/// m by k and k by n, and C and D are m by n.
pub proof fn shapes_fit_the_problem<E>(
    op: HipblasLt<E>,
    dims: LtDims<usize>,
    alpha: LtScalar,
    beta: LtScalar,
)
    ensures
        ({
            let spec = op.launch_spec(dims, alpha, beta);
            let a = if spec.trans_a is HIPBLAS_OP_N {
                (spec.a.rows, spec.a.cols)
            } else {
                (spec.a.cols, spec.a.rows)
            };
            let b = if spec.trans_b is HIPBLAS_OP_N {
                (spec.b.rows, spec.b.cols)
            } else {
                (spec.b.cols, spec.b.rows)
            };
            &&& a == (spec.problem.m, spec.problem.k)
            &&& b == (spec.problem.k, spec.problem.n)
            &&& (spec.c.rows, spec.c.cols) == (spec.problem.m, spec.problem.n)
            &&& (spec.d.rows, spec.d.cols) == (spec.problem.m, spec.problem.n)
        }),
{
}

/// The scaled matmul and the plain one that the same children describe differ
/// only in that A and B come with a scale factor.
pub proof fn scaled_matmul_differs_only_in_scales<E>(children: Seq<KindChild<E>>)
    requires
        op::extractable(children),
    ensures
        op::extracted(children, true) == (HipblasLt {
            a_scale_input: true,
            b_scale_input: true,
            ..op::extracted(children, false)
        }),
        op::extracted(children, true).layout().count() == op::extracted(
            children,
            false,
        ).layout().count() + 2,
{
}

/// A scaled matmul with a zero beta and an epilogue without bias takes the four
/// inputs that its declaration names.
pub proof fn scaled_matmul_takes_four_inputs<E>(children: Seq<KindChild<E>>)
    requires
        op::extractable(children),
        op::extracted(children, true).beta.zero_value(),
        !types::uses_bias(op::extracted(children, true).epilogue),
    ensures
        op::extracted(children, true).layout().count() == 4,
{
}

/// The matmul that is launched carries the operation's own two scalars, each in
/// the encoding of the scale type.
pub proof fn launched_scalars_are_those_of_the_operation<E>(
    op: &HipblasLt<E>,
    dims: &LtDims<usize>,
    self_node: NodeIndex,
    inputs: &[NodeIndex],
    buffers: &HashMap<NodeIndex, DeviceBuffer>,
    launched: Result<(LtMatmulSpec, LtMatmulPointers), LtError>,
)
    requires
        call_ensures(HipblasLt::<E>::execute, (op, dims, self_node, inputs, buffers), launched),
        launched is Ok,
    ensures
        ({
            let compute = launched->Ok_0.0.compute;
            match op.scale_dtype {
                DType::F64 => compute.alpha == LtScalar::F64(op.alpha.double) && compute.beta
                    == LtScalar::F64(op.beta.double),
                DType::F32 => compute.alpha == LtScalar::F32(op.alpha.single) && compute.beta
                    == LtScalar::F32(op.beta.single),
                DType::F16 => compute.alpha == LtScalar::F16(op.alpha.half) && compute.beta
                    == LtScalar::F16(op.beta.half),
                DType::Bf16 => compute.alpha == LtScalar::Bf16(op.alpha.brain) && compute.beta
                    == LtScalar::Bf16(op.beta.brain),
                _ => false,
            }
        }),
{
}

/// Two operations of one scale type that launch matmuls with the same alpha and
/// beta have, in the encoding of that type, the same alpha and beta.
pub proof fn different_scalars_launch_different_matmuls<E>(
    one: &HipblasLt<E>,
    other: &HipblasLt<E>,
    dims: &LtDims<usize>,
    self_node: NodeIndex,
    inputs: &[NodeIndex],
    buffers: &HashMap<NodeIndex, DeviceBuffer>,
    launched: Result<(LtMatmulSpec, LtMatmulPointers), LtError>,
    other_launched: Result<(LtMatmulSpec, LtMatmulPointers), LtError>,
)
    requires
        call_ensures(HipblasLt::<E>::execute, (one, dims, self_node, inputs, buffers), launched),
        call_ensures(
            HipblasLt::<E>::execute,
            (other, dims, self_node, inputs, buffers),
            other_launched,
        ),
        launched is Ok,
        other_launched is Ok,
        one.scale_dtype == other.scale_dtype,
    ensures
        ({
            let compute = launched->Ok_0.0.compute;
            let other_compute = other_launched->Ok_0.0.compute;
            let same = |a: HostScalar, b: HostScalar|
                match one.scale_dtype {
                    DType::F64 => a.double == b.double,
                    DType::F32 => a.single == b.single,
                    DType::F16 => a.half == b.half,
                    _ => a.brain == b.brain,
                };
            &&& compute.alpha == other_compute.alpha <==> same(one.alpha, other.alpha)
            &&& compute.beta == other_compute.beta <==> same(one.beta, other.beta)
        }),
{
    launched_scalars_are_those_of_the_operation(one, dims, self_node, inputs, buffers, launched);
    launched_scalars_are_those_of_the_operation(
        other,
        dims,
        self_node,
        inputs,
        buffers,
        other_launched,
    );
}

/// A scalar has an encoding exactly for the four scale types that host scalars
/// come in, and the encoding is that of the type.
pub proof fn scalars_are_encoded_in_their_type(
    dtype: DType,
    value: HostScalar,
    r: Result<LtScalar, LtError>,
)
    requires
        call_ensures(LtScalar::from_f64, (dtype, value), r),
    ensures
        r is Ok <==> dtype is F64 || dtype is F32 || dtype is F16 || dtype is Bf16,
        r is Err ==> r->Err_0 == LtError::ScaleDtypeUnsupported(dtype),
        r matches Ok(LtScalar::F64(bits)) ==> dtype is F64 && bits == value.double,
        r matches Ok(LtScalar::F32(bits)) ==> dtype is F32 && bits == value.single,
        r matches Ok(LtScalar::F16(bits)) ==> dtype is F16 && bits == value.half,
        r matches Ok(LtScalar::Bf16(bits)) ==> dtype is Bf16 && bits == value.brain,
{
}

/// One is, in every encoding, the pattern with no sign, the exponent at its
/// bias, and no fraction; zero is the pattern without any bit.
pub proof fn one_and_zero_have_their_patterns(one: HostScalar, zero: HostScalar)
    requires
        call_ensures(HostScalar::one, (), one),
        call_ensures(HostScalar::zero, (), zero),
    ensures
        one.double == 1023 * 0x10_0000_0000_0000,
        one.single == 127 * 0x80_0000,
        one.half == 15 * 0x400,
        one.brain == 127 * 0x80,
        zero.double == 0 && zero.single == 0 && zero.half == 0 && zero.brain == 0,
{
}

/// One and zero in a scale type are the encodings of one and zero.
pub proof fn encoded_one_and_zero_are_those_scalars(
    dtype: DType,
    one: HostScalar,
    zero: HostScalar,
    packed_one: Result<LtScalar, LtError>,
    packed_zero: Result<LtScalar, LtError>,
    one_in_dtype: Result<LtScalar, LtError>,
    zero_in_dtype: Result<LtScalar, LtError>,
)
    requires
        call_ensures(HostScalar::one, (), one),
        call_ensures(HostScalar::zero, (), zero),
        call_ensures(LtScalar::from_f64, (dtype, one), packed_one),
        call_ensures(LtScalar::from_f64, (dtype, zero), packed_zero),
        call_ensures(LtScalar::one, (dtype,), one_in_dtype),
        call_ensures(LtScalar::zero, (dtype,), zero_in_dtype),
    ensures
        one_in_dtype == packed_one,
        zero_in_dtype == packed_zero,
{
}

/// The device stores elements of the type in this format. TF32 is computed in,
/// and stored as single precision.
pub open spec fn stored_as(dtype: DType, device: hipDataType) -> bool {
    match device {
        hipDataType::HIP_R_64F => dtype is F64,
        hipDataType::HIP_R_32F => dtype is F32 || dtype is TF32,
        hipDataType::HIP_R_16F => dtype is F16,
        hipDataType::HIP_R_16BF => dtype is Bf16,
        hipDataType::HIP_R_8F_E4M3 => dtype is F8E4M3,
        hipDataType::HIP_R_8F_E5M2 => dtype is F8E5M2,
        _ => false,
    }
}

/// A matmul takes matrices of an element type exactly when the device has a
/// format for it, and stores them in that format.
pub proof fn element_types_have_their_format(dtype: DType, supported: bool, device: hipDataType)
    requires
        call_ensures(matmul_supports, (dtype,), supported),
        supported ==> call_ensures(dtype_to_rocm_dtype, (dtype,), device),
    ensures
        supported <==> exists|format: hipDataType| #[trigger] stored_as(dtype, format),
        supported ==> stored_as(dtype, device),
{
    if supported {
        assert(stored_as(dtype, device));
    }
}

/// The raised leading dimension is the smallest that is neither below the one
/// that was asked for nor below the rows of a column-major or the columns of a
/// row-major matrix.
pub proof fn leading_dimension_is_raised_only_as_needed(
    ld: i64,
    rows: u64,
    cols: u64,
    order: hipblasLtOrder_t,
    r: i64,
)
    requires
        call_ensures(clamp_ld_for_order, (ld, rows, cols, order), r),
        rows <= i64::MAX,
        cols <= i64::MAX,
    ensures
        ({
            let length = if order is HIPBLASLT_ORDER_ROW {
                cols
            } else {
                rows
            };
            r >= ld && r >= length && (r == ld || r == length)
        }),
{
}

/// What is stored is a matrix of this type, shape, leading dimension, batch
/// stride and order.
pub open spec fn describes(
    stored: LtMatrixSpec,
    dtype: DType,
    rows: usize,
    cols: usize,
    ld: usize,
    batch_stride: usize,
    order: hipblasLtOrder_t,
) -> bool {
    let length = if order is HIPBLASLT_ORDER_ROW {
        cols
    } else {
        rows
    };
    &&& stored_as(dtype, stored.dtype)
    &&& stored.rows == rows
    &&& stored.cols == cols
    &&& stored.order == order
    &&& stored.batch_stride == batch_stride as i64
    &&& stored.ld >= ld as i64
    &&& stored.ld >= length as i64
    &&& stored.ld == ld as i64 || stored.ld == length as i64
}

/// The matmul that is launched is the one that the operation describes, at the
/// sizes that are given: the problem, the transpositions, the four matrices, the
/// precision, the epilogue, and a workspace of 32 MiB.
pub proof fn launched_matmul_is_that_of_the_operation<E>(
    op: &HipblasLt<E>,
    dims: &LtDims<usize>,
    self_node: NodeIndex,
    inputs: &[NodeIndex],
    buffers: &HashMap<NodeIndex, DeviceBuffer>,
    launched: Result<(LtMatmulSpec, LtMatmulPointers), LtError>,
)
    requires
        op.dtypes_supported(),
        call_ensures(HipblasLt::<E>::execute, (op, dims, self_node, inputs, buffers), launched),
        launched is Ok,
    ensures
        ({
            let spec = launched->Ok_0.0;
            let (a_rows, a_cols) = if op.a_layout is HIPBLAS_OP_N {
                (dims.m, dims.k)
            } else {
                (dims.k, dims.m)
            };
            let (b_rows, b_cols) = if op.b_layout is HIPBLAS_OP_N {
                (dims.k, dims.n)
            } else {
                (dims.n, dims.k)
            };
            &&& spec.problem.m == dims.m
            &&& spec.problem.n == dims.n
            &&& spec.problem.k == dims.k
            &&& spec.problem.batch_count == dims.batch_count as i32
            &&& spec.trans_a == op.a_layout
            &&& spec.trans_b == op.b_layout
            &&& describes(
                spec.a,
                op.a_dtype,
                a_rows,
                a_cols,
                dims.lda,
                dims.stride_a,
                op.a_order,
            )
            &&& describes(
                spec.b,
                op.b_dtype,
                b_rows,
                b_cols,
                dims.ldb,
                dims.stride_b,
                op.b_order,
            )
            &&& describes(
                spec.c,
                op.c_dtype,
                dims.m,
                dims.n,
                dims.ldc,
                dims.stride_c,
                op.c_order,
            )
            &&& describes(
                spec.d,
                op.d_dtype,
                dims.m,
                dims.n,
                dims.ldd,
                dims.stride_d,
                op.d_order,
            )
            &&& spec.compute.compute_type == op.compute_type
            &&& stored_as(op.scale_dtype, spec.compute.scale_dtype)
            &&& spec.compute.epilogue == op.epilogue
            &&& spec.workspace_size == 32 * 1024 * 1024
        }),
{
}

/// A matmul is launched with the pointers that are resolved for its inputs, its
/// beta, its epilogue and its scale inputs; and where its scale type has host
/// scalars, it is refused exactly when they are not found, and for that reason.
pub proof fn launched_pointers_are_those_of_the_operation<E>(
    op: &HipblasLt<E>,
    dims: &LtDims<usize>,
    self_node: NodeIndex,
    inputs: &[NodeIndex],
    buffers: &HashMap<NodeIndex, DeviceBuffer>,
    launched: Result<(LtMatmulSpec, LtMatmulPointers), LtError>,
    resolved: Result<LtMatmulPointers, LtError>,
)
    requires
        call_ensures(HipblasLt::<E>::execute, (op, dims, self_node, inputs, buffers), launched),
        call_ensures(
            resolve_hipblaslt_pointers,
            (
                self_node,
                inputs,
                buffers,
                op.beta,
                op.epilogue,
                op.a_scale_input,
                op.b_scale_input,
            ),
            resolved,
        ),
    ensures
        launched is Ok ==> resolved == Ok::<LtMatmulPointers, LtError>(launched->Ok_0.1),
        op.scale_dtype is F64 || op.scale_dtype is F32 || op.scale_dtype is F16
            || op.scale_dtype is Bf16 ==> {
            &&& launched is Ok <==> resolved is Ok
            &&& launched is Err ==> resolved is Err && launched->Err_0 == resolved->Err_0
        },
        !(op.scale_dtype is F64 || op.scale_dtype is F32 || op.scale_dtype is F16
            || op.scale_dtype is Bf16) ==> launched is Err && launched->Err_0
            == LtError::ScaleDtypeUnsupported(op.scale_dtype),
{
}

/// The number of inputs that an operation declares is A and B and those of C,
/// bias and scales that its beta, its epilogue and its scale inputs ask for.
pub proof fn declared_inputs_are_those_taken<E>(op: &HipblasLt<E>, r: usize)
    requires
        call_ensures(HipblasLt::<E>::n_inputs, (op,), r),
    ensures
        r == 2 + pointer_laws::slots(pointer_laws::nonzero(op.beta)) + pointer_laws::slots(
            pointer_laws::adds_bias(op.epilogue),
        ) + pointer_laws::slots(op.a_scale_input) + pointer_laws::slots(op.b_scale_input),
{
}

/// The operation is what the children of a kind term say, child by child.
pub open spec fn reads_as<E>(children: Seq<KindChild<E>>, op: HipblasLt<E>) -> bool {
    let a_dtype = children[18]->Dtype_0;
    &&& op.dims.m == children[0]->Expr_0
    &&& op.dims.n == children[1]->Expr_0
    &&& op.dims.k == children[2]->Expr_0
    &&& names::op_of(children[3]->Text_0@) == Some(op.a_layout)
    &&& names::op_of(children[4]->Text_0@) == Some(op.b_layout)
    &&& names::order_of(children[5]->Text_0@) == Some(op.a_order)
    &&& names::order_of(children[6]->Text_0@) == Some(op.b_order)
    &&& names::order_of(children[7]->Text_0@) == Some(op.c_order)
    &&& names::order_of(children[8]->Text_0@) == Some(op.d_order)
    &&& op.dims.lda == children[9]->Expr_0
    &&& op.dims.ldb == children[10]->Expr_0
    &&& op.dims.ldc == children[11]->Expr_0
    &&& op.dims.ldd == children[12]->Expr_0
    &&& op.dims.batch_count == children[13]->Expr_0
    &&& op.dims.stride_a == children[14]->Expr_0
    &&& op.dims.stride_b == children[15]->Expr_0
    &&& op.dims.stride_c == children[16]->Expr_0
    &&& op.dims.stride_d == children[17]->Expr_0
    &&& op.a_dtype == a_dtype
    &&& op.b_dtype == children[19]->Dtype_0
    &&& op.c_dtype == children[20]->Dtype_0
    &&& op.d_dtype == children[21]->Dtype_0
    &&& names::compute_type_of(children[22]->Text_0@, a_dtype) == Some(op.compute_type)
    &&& names::scale_dtype_of(children[23]->Text_0@, a_dtype) == Some(op.scale_dtype)
    &&& children[24]->Scalar_1 == Some(op.alpha)
    &&& children[25]->Scalar_1 == Some(op.beta)
    &&& names::epilogue_of(children[26]->Text_0@) == Some(op.epilogue)
}

/// Extraction reads every child of the kind term into the field that it is for,
/// and hands the inputs on; only the scaled matmul takes scale inputs.
pub proof fn extraction_reads_every_child<E: Copy, N>(
    declared: &HipblasLt<E>,
    scaled: &HipblasLtScaled,
    children: &[KindChild<E>],
    input_enodes: Vec<N>,
    plain: (HipblasLt<E>, Vec<N>),
    with_scales: (HipblasLt<E>, Vec<N>),
)
    requires
        op::extractable(children@),
        call_ensures(HipblasLt::<E>::extract::<N>, (declared, children, input_enodes), plain),
        call_ensures(
            HipblasLtScaled::extract::<E, N>,
            (scaled, children, input_enodes),
            with_scales,
        ),
    ensures
        reads_as(children@, plain.0),
        !plain.0.a_scale_input && !plain.0.b_scale_input,
        plain.1 == input_enodes,
        reads_as(children@, with_scales.0),
        with_scales.0.a_scale_input && with_scales.0.b_scale_input,
        with_scales.1 == input_enodes,
{
}

/// Nothing is reported of the children exactly when every text among them names
/// something and both literals are numbers.
pub proof fn nothing_is_reported_iff_every_text_names_something<E>(
    children: &[KindChild<E>],
    problem: Option<String>,
)
    requires
        call_ensures(parameter_problem::<E>, (children,), problem),
    ensures
        problem is None <==> {
            &&& names::op_of(children@[3]->Text_0@) is Some
            &&& names::op_of(children@[4]->Text_0@) is Some
            &&& names::order_of(children@[5]->Text_0@) is Some
            &&& names::order_of(children@[6]->Text_0@) is Some
            &&& names::order_of(children@[7]->Text_0@) is Some
            &&& names::order_of(children@[8]->Text_0@) is Some
            &&& names::compute_type_of(children@[22]->Text_0@, children@[18]->Dtype_0) is Some
            &&& names::scale_dtype_of(children@[23]->Text_0@, children@[18]->Dtype_0) is Some
            &&& children@[24]->Scalar_1 is Some
            &&& children@[25]->Scalar_1 is Some
            &&& names::epilogue_of(children@[26]->Text_0@) is Some
        },
{
}

/// Children are taken for a matmul's kind term exactly when there are at least
/// twenty-seven, each of the sort that its place asks for.
pub proof fn kind_terms_are_told_by_their_sorts<E>(
    name: &'static str,
    sort: SortDef,
    children: &[KindChild<E>],
    r: bool,
)
    requires
        call_ensures(hipblaslt_sort, (name,), sort),
        call_ensures(is_well_sorted::<E>, (children, &sort), r),
    ensures
        sort.name@ == name@,
        sort.class is OpKind,
        sort.fields@.len() == 27,
        r <==> children@.len() >= 27 && forall|i: int|
            0 <= i < 27 ==> {
                let child = #[trigger] children@[i];
                if 3 <= i <= 8 || i == 22 || i == 23 || i == 26 {
                    child is Text
                } else if 18 <= i <= 21 {
                    child is Dtype
                } else if i == 24 || i == 25 {
                    child is Scalar
                } else {
                    child is Expr
                }
            },
{
    let fields = op::hipblaslt_fields();
    assert(fields.len() == 27);
    assert forall|i: int| 0 <= i < 27 implies (#[trigger] fields[i]).1 == (if 3 <= i <= 8 || i == 22
        || i == 23 || i == 26 {
        SortClass::Text
    } else if 18 <= i <= 21 {
        SortClass::Dtype
    } else if i == 24 || i == 25 {
        SortClass::Float
    } else {
        SortClass::Expression
    }) by {}
    assert(egglog::field_views(sort.fields@).len() == sort.fields@.len());
    if r {
        assert forall|i: int| 0 <= i < 27 implies {
            let child = #[trigger] children@[i];
            if 3 <= i <= 8 || i == 22 || i == 23 || i == 26 {
                child is Text
            } else if 18 <= i <= 21 {
                child is Dtype
            } else if i == 24 || i == 25 {
                child is Scalar
            } else {
                child is Expr
            }
        } by {
            assert(children@[i].has_sort(fields[i].1));
        }
    }
}

/// The fields of a matmul's kind term are declared in the order in which
/// extraction reads them.
pub proof fn fields_are_declared_in_order(name: &'static str, sort: SortDef)
    requires
        call_ensures(hipblaslt_sort, (name,), sort),
    ensures
        sort.fields@.len() == 27,
        sort.fields@[0].0@ == "m"@ && sort.fields@[1].0@ == "n"@ && sort.fields@[2].0@ == "k"@,
        sort.fields@[3].0@ == "a_layout"@ && sort.fields@[4].0@ == "b_layout"@,
        sort.fields@[5].0@ == "a_order"@ && sort.fields@[6].0@ == "b_order"@,
        sort.fields@[7].0@ == "c_order"@ && sort.fields@[8].0@ == "d_order"@,
        sort.fields@[9].0@ == "lda"@ && sort.fields@[10].0@ == "ldb"@,
        sort.fields@[11].0@ == "ldc"@ && sort.fields@[12].0@ == "ldd"@,
        sort.fields@[13].0@ == "batch_count"@,
        sort.fields@[14].0@ == "stride_a"@ && sort.fields@[15].0@ == "stride_b"@,
        sort.fields@[16].0@ == "stride_c"@ && sort.fields@[17].0@ == "stride_d"@,
        sort.fields@[18].0@ == "a_dtype"@ && sort.fields@[19].0@ == "b_dtype"@,
        sort.fields@[20].0@ == "c_dtype"@ && sort.fields@[21].0@ == "d_dtype"@,
        sort.fields@[22].0@ == "compute_type"@ && sort.fields@[23].0@ == "scale_dtype"@,
        sort.fields@[24].0@ == "alpha"@ && sort.fields@[25].0@ == "beta"@,
        sort.fields@[26].0@ == "epilogue"@,
{
    let views = egglog::field_views(sort.fields@);
    assert(views.len() == sort.fields@.len());
    assert forall|i: int| 0 <= i < views.len() implies sort.fields@[i].0@ == (
    #[trigger] op::hipblaslt_fields()[i]).0 by {
        assert(views[i].0 == sort.fields@[i].0@);
    }
    assert(op::hipblaslt_fields().len() == 27);
    assert(op::hipblaslt_fields()[0].0 == "m"@);
    assert(op::hipblaslt_fields()[1].0 == "n"@);
    assert(op::hipblaslt_fields()[2].0 == "k"@);
    assert(op::hipblaslt_fields()[3].0 == "a_layout"@);
    assert(op::hipblaslt_fields()[4].0 == "b_layout"@);
    assert(op::hipblaslt_fields()[5].0 == "a_order"@);
    assert(op::hipblaslt_fields()[6].0 == "b_order"@);
    assert(op::hipblaslt_fields()[7].0 == "c_order"@);
    assert(op::hipblaslt_fields()[8].0 == "d_order"@);
    assert(op::hipblaslt_fields()[9].0 == "lda"@);
    assert(op::hipblaslt_fields()[10].0 == "ldb"@);
    assert(op::hipblaslt_fields()[11].0 == "ldc"@);
    assert(op::hipblaslt_fields()[12].0 == "ldd"@);
    assert(op::hipblaslt_fields()[13].0 == "batch_count"@);
    assert(op::hipblaslt_fields()[14].0 == "stride_a"@);
    assert(op::hipblaslt_fields()[15].0 == "stride_b"@);
    assert(op::hipblaslt_fields()[16].0 == "stride_c"@);
    assert(op::hipblaslt_fields()[17].0 == "stride_d"@);
    assert(op::hipblaslt_fields()[18].0 == "a_dtype"@);
    assert(op::hipblaslt_fields()[19].0 == "b_dtype"@);
    assert(op::hipblaslt_fields()[20].0 == "c_dtype"@);
    assert(op::hipblaslt_fields()[21].0 == "d_dtype"@);
    assert(op::hipblaslt_fields()[22].0 == "compute_type"@);
    assert(op::hipblaslt_fields()[23].0 == "scale_dtype"@);
    assert(op::hipblaslt_fields()[24].0 == "alpha"@);
    assert(op::hipblaslt_fields()[25].0 == "beta"@);
    assert(op::hipblaslt_fields()[26].0 == "epilogue"@);
}

/// What an operation shows of itself is what it is: its types, its scalars, its
/// scale inputs, and the names of its compute type, epilogue, orders and
/// transpositions; and C and D are stored alike where their orders, leading
/// dimensions and strides are.
pub proof fn operations_show_what_they_are<E>(
    op: &HipblasLt<E>,
    types: (DType, DType, DType, DType, &'static str, DType),
    scalars: (HostScalar, HostScalar),
    epilogue: &'static str,
    orders: (&'static str, &'static str, &'static str, &'static str),
    transpositions: (&'static str, &'static str),
    scales: (bool, bool),
    same_ld: bool,
    same_stride: bool,
    alike: bool,
)
    requires
        call_ensures(HipblasLt::<E>::type_tuple, (op,), types),
        call_ensures(HipblasLt::<E>::scale_values, (op,), scalars),
        call_ensures(HipblasLt::<E>::epilogue, (op,), epilogue),
        call_ensures(HipblasLt::<E>::matrix_orders, (op,), orders),
        call_ensures(HipblasLt::<E>::transpose_ops, (op,), transpositions),
        call_ensures(HipblasLt::<E>::tensor_scale_inputs, (op,), scales),
        call_ensures(HipblasLt::<E>::c_d_layouts_match, (op, same_ld, same_stride), alike),
    ensures
        types.0 == op.a_dtype && types.1 == op.b_dtype && types.2 == op.c_dtype && types.3
            == op.d_dtype && types.5 == op.scale_dtype,
        types.4@ == names::compute_type_text(op.compute_type),
        scalars.0 == op.alpha && scalars.1 == op.beta,
        epilogue@ == names::epilogue_text(op.epilogue),
        orders.0@ == names::order_text(op.a_order) && orders.1@ == names::order_text(op.b_order),
        orders.2@ == names::order_text(op.c_order) && orders.3@ == names::order_text(op.d_order),
        transpositions.0@ == names::op_text(op.a_layout),
        transpositions.1@ == names::op_text(op.b_layout),
        scales.0 == op.a_scale_input && scales.1 == op.b_scale_input,
        alike <==> same_ld && same_stride && op.c_order == op.d_order,
{
}

/// The scaled matmul declares the inputs that it takes where beta is zero and the
/// epilogue adds no bias: A, B, and a scale factor for each.
pub proof fn scaled_matmul_declares_its_inputs<E: Copy, N>(
    scaled: &HipblasLtScaled,
    children: &[KindChild<E>],
    input_enodes: Vec<N>,
    extracted: (HipblasLt<E>, Vec<N>),
    declared: usize,
    taken: usize,
)
    requires
        op::extractable(children@),
        call_ensures(
            HipblasLtScaled::extract::<E, N>,
            (scaled, children, input_enodes),
            extracted,
        ),
        call_ensures(HipblasLtScaled::n_inputs, (scaled,), declared),
        call_ensures(HipblasLt::<E>::n_inputs, (&extracted.0,), taken),
        !pointer_laws::nonzero(extracted.0.beta),
        !pointer_laws::adds_bias(extracted.0.epilogue),
    ensures
        declared == taken,
{
}

/// A matmul's element types are all taken exactly when each of them, and the
/// scale type, is one that a matmul takes.
pub proof fn every_element_type_has_to_be_taken<E>(op: &HipblasLt<E>, r: bool)
    requires
        call_ensures(HipblasLt::<E>::supports_dtypes, (op,), r),
    ensures
        r <==> {
            let taken = |dtype: DType|
                dtype is F64 || dtype is F32 || dtype is F16 || dtype is Bf16 || dtype is TF32
                    || dtype is F8E4M3 || dtype is F8E5M2;
            &&& taken(op.a_dtype)
            &&& taken(op.b_dtype)
            &&& taken(op.c_dtype)
            &&& taken(op.d_dtype)
            &&& taken(op.scale_dtype)
        },
{
}

/// The sizes that the memory planner and the statistics are told have the values
/// of D over all batches, of its bits in whole bytes, and of two operations for
/// each term.
pub proof fn reported_sizes_are_those_of_the_product<E: Copy>(
    op: &HipblasLt<E>,
    element_bits: usize,
    elements: size::SizeExpr<E>,
    bytes: size::SizeExpr<E>,
    operations: size::SizeExpr<E>,
    dim: spec_fn(E) -> nat,
    unit: spec_fn(E) -> nat,
)
    requires
        call_ensures(<HipblasLt<E> as HostOp<E>>::output_size, (op,), elements),
        call_ensures(<HipblasLt<E> as HostOp<E>>::output_bytes, (op, element_bits), bytes),
        call_ensures(<HipblasLt<E> as HostOp<E>>::flop_estimate, (op,), operations),
    ensures
        elements.value(dim, unit) == unit(op.dims.batch_count) * unit(op.dims.m) * unit(op.dims.n),
        ({
            let bits = unit(op.dims.batch_count) * unit(op.dims.m) * unit(op.dims.n)
                * element_bits;
            8 * bytes.value(dim, unit) - 8 < bits <= 8 * bytes.value(dim, unit)
        }),
        operations.value(dim, unit) == 2 * unit(op.dims.m) * unit(op.dims.n) * unit(op.dims.k)
            * unit(op.dims.batch_count),
{
    output_sizes(*op, element_bits, dim, unit);
    matmul_reports_its_cost(*op, dim, unit);
}

/// A matmul needs no buffers beyond its graph edges, is reported under no name,
/// counts as one launch, and its terms are kept.
pub proof fn matmuls_are_plain_host_operations<E: Copy>(
    op: &HipblasLt<E>,
    scaled: &HipblasLtScaled,
    dyn_map: &HashMap<char, usize>,
    nodes: Vec<NodeIndex>,
    name: Option<&'static str>,
    launches: usize,
    cleaned: bool,
    scaled_cleaned: bool,
)
    requires
        call_ensures(<HipblasLt<E> as HostOp<E>>::extra_buffer_nodes, (op,), nodes),
        call_ensures(<HipblasLt<E> as HostOp<E>>::stats_name, (op,), name),
        call_ensures(<HipblasLt<E> as HostOp<E>>::kernel_launch_count, (op, dyn_map), launches),
        call_ensures(HipblasLt::<E>::cleanup, (op,), cleaned),
        call_ensures(HipblasLtScaled::cleanup, (scaled,), scaled_cleaned),
    ensures
        nodes@.len() == 0,
        name is None,
        launches == 1,
        !cleaned,
        !scaled_cleaned,
{
}

/// The matmul of unspecified size multiplies two single-precision matrices of
/// that size, the second one transposed, and does nothing else: one batch, alpha
/// one, beta zero, no epilogue and no scales.
pub proof fn placeholder_is_a_plain_product<E: Copy>(dim: E, one: E, zero: E, op: HipblasLt<E>)
    requires
        call_ensures(HipblasLt::<E>::placeholder, (dim, one, zero), op),
    ensures
        op.dims.m == dim && op.dims.n == dim && op.dims.k == dim,
        op.dims.lda == dim && op.dims.ldb == dim && op.dims.ldc == dim && op.dims.ldd == dim,
        op.dims.batch_count == one,
        op.dims.stride_a == zero && op.dims.stride_b == zero,
        op.dims.stride_c == zero && op.dims.stride_d == zero,
        op.a_layout is HIPBLAS_OP_N && op.b_layout is HIPBLAS_OP_T,
        op.a_order is HIPBLASLT_ORDER_COL && op.b_order is HIPBLASLT_ORDER_COL,
        op.c_order is HIPBLASLT_ORDER_COL && op.d_order is HIPBLASLT_ORDER_COL,
        op.a_dtype is F32 && op.b_dtype is F32 && op.c_dtype is F32 && op.d_dtype is F32,
        op.compute_type is HIPBLAS_COMPUTE_32F && op.scale_dtype is F32,
        op.alpha.single == 127 * 0x80_0000 && op.alpha.double == 1023 * 0x10_0000_0000_0000,
        !pointer_laws::nonzero(op.beta) && op.beta.single == 0,
        op.epilogue is HIPBLASLT_EPILOGUE_DEFAULT,
        !op.a_scale_input && !op.b_scale_input,
{
}

/// What is reported of a kind term is the first child, in the order of the
/// fields, that names nothing: its text and what it should have named. A text
/// `default` names no precision only for elements that a matmul does not take,
/// and then those are what is reported.
pub proof fn first_unknown_parameter_is_reported<E>(
    children: &[KindChild<E>],
    problem: Option<String>,
)
    requires
        call_ensures(parameter_problem::<E>, (children,), problem),
        problem is Some,
    ensures
        ({
            let text = |at: int| children@[at]->Text_0@;
            let a_dtype = children@[18]->Dtype_0;
            let ops = names::op_of(text(3)) is Some && names::op_of(text(4)) is Some;
            let orders = ops && names::order_of(text(5)) is Some && names::order_of(text(6)) is Some
                && names::order_of(text(7)) is Some && names::order_of(text(8)) is Some;
            let computes = orders && names::compute_type_of(text(22), a_dtype) is Some;
            let scales = computes && names::scale_dtype_of(text(23), a_dtype) is Some;
            let alpha = scales && children@[24]->Scalar_1 is Some;
            let beta = alpha && children@[25]->Scalar_1 is Some;
            let default = |at: int| names::unquoted(text(at)) == "default"@;
            let unknown = |what: Seq<char>, s: Seq<char>|
                problem->0@ == "Unknown "@ + what + ": '"@ + names::unquoted(s)
                    + "' (original: '"@ + s + "')"@;
            &&& names::op_of(text(3)) is None ==> unknown("hipBLAS operation"@, text(3))
            &&& names::op_of(text(3)) is Some && !ops ==> unknown("hipBLAS operation"@, text(4))
            &&& ops && names::order_of(text(5)) is None ==> unknown(
                "hipblasLt matrix order"@,
                text(5),
            )
            &&& ops && names::order_of(text(5)) is Some && names::order_of(text(6)) is None
                ==> unknown("hipblasLt matrix order"@, text(6))
            &&& ops && names::order_of(text(5)) is Some && names::order_of(text(6)) is Some
                && names::order_of(text(7)) is None ==> unknown("hipblasLt matrix order"@, text(7))
            &&& ops && names::order_of(text(5)) is Some && names::order_of(text(6)) is Some
                && names::order_of(text(7)) is Some && !orders ==> unknown(
                "hipblasLt matrix order"@,
                text(8),
            )
            &&& orders && !computes && !default(22) ==> unknown("hipblasLt compute type"@, text(22))
            &&& computes && !scales && !default(23) ==> unknown("hipblasLt scale dtype"@, text(23))
            &&& (orders && !computes && default(22)) || (computes && !scales && default(23))
                ==> problem->0@ == names::unsupported_dtype_text(a_dtype)
            &&& scales && !alpha ==> unknown(
                "hipblasLt scalar literal"@,
                children@[24]->Scalar_0@,
            )
            &&& alpha && !beta ==> unknown("hipblasLt scalar literal"@, children@[25]->Scalar_0@)
            &&& beta ==> unknown("hipblasLt epilogue"@, text(26))
        }),
{
}

} // verus!
