//! The hipBLASLt matmul operation.
use std::collections::HashMap;
use vstd::prelude::*;
use vstd::string::*;

use crate::dtype::DType;
use crate::host::egglog;
use crate::host::egglog::{
    dtype_child, expr_child, scalar_child, text_child, KindChild, RuleSource, SortClass, SortDef,
};
use crate::host::hipblaslt::error::LtError;
use crate::host::hipblaslt::matmul;
use crate::host::hipblaslt::matmul::{
    clamp_ld_for_order, LtComputeSpec, LtMatmulProblem, LtMatmulSpec, LtMatrixSpec,
};
use crate::host::hipblaslt::names;
use crate::host::hipblaslt::names::{
    compute_type_name, dtype_to_rocm_dtype, epilogue_name, matmul_supports, order_name,
    parse_hipblaslt_compute_type, parse_hipblaslt_epilogue, parse_hipblaslt_op,
    parse_hipblaslt_order, parse_hipblaslt_scale_dtype, transpose_op_name,
    try_parse_hipblaslt_compute_type, try_parse_hipblaslt_epilogue, try_parse_hipblaslt_op,
    try_parse_hipblaslt_order, try_parse_hipblaslt_scale_dtype, unknown_message, unquote,
    unsupported_dtype_message,
};
use crate::host::hipblaslt::pointers;
use crate::host::hipblaslt::pointers::{
    resolve_hipblaslt_pointers, InputLayout, LtMatmulPointers,
};
use crate::host::hipblaslt::rules;
use crate::host::hipblaslt::rules::rewrite_rules;
use crate::host::hipblaslt::scalar;
use crate::host::hipblaslt::scalar::{HostScalar, LtScalar};
use crate::host::hipblaslt::types::{
    epilogue_uses_bias, hipblasComputeType_t, hipblasLtEpilogue_t, hipblasLtOrder_t,
    hipblasOperation_t,
};
use crate::host::size::SizeExpr;
use crate::host::{DeviceBuffer, HostOp, NodeIndex};
use crate::text::same_text;

verus! {

/// The device memory that a matmul may use besides its matrices: 32 MiB.
pub const WORKSPACE_SIZE: usize = 33_554_432;

/// The sizes, leading dimensions and strides of a matmul, in elements.
#[derive(Debug)]
pub struct LtDims<T> {
    pub m: T,
    pub n: T,
    pub k: T,
    pub lda: T,
    pub ldb: T,
    pub ldc: T,
    pub ldd: T,
    pub batch_count: T,
    pub stride_a: T,
    pub stride_b: T,
    pub stride_c: T,
    pub stride_d: T,
}

/// A matmul D = epilogue(alpha op(A) op(B) + beta C + bias). `E` is the type of
/// symbolic expressions.
#[derive(Debug)]
pub struct HipblasLt<E> {
    pub dims: LtDims<E>,
    pub a_layout: hipblasOperation_t,
    pub b_layout: hipblasOperation_t,
    pub a_order: hipblasLtOrder_t,
    pub b_order: hipblasLtOrder_t,
    pub c_order: hipblasLtOrder_t,
    pub d_order: hipblasLtOrder_t,
    pub a_dtype: DType,
    pub b_dtype: DType,
    pub c_dtype: DType,
    pub d_dtype: DType,
    pub compute_type: hipblasComputeType_t,
    pub scale_dtype: DType,
    pub alpha: HostScalar,
    pub beta: HostScalar,
    pub epilogue: hipblasLtEpilogue_t,
    pub a_scale_input: bool,
    pub b_scale_input: bool,
}

/// A matmul whose A and B come with a tensor-wide scale factor each.
#[derive(Clone, Copy, Debug, Default)]
pub struct HipblasLtScaled;

/// The fields of a matmul's kind term.
pub open spec fn hipblaslt_fields() -> Seq<(Seq<char>, SortClass)> {
    seq![
        ("m"@, SortClass::Expression),
        ("n"@, SortClass::Expression),
        ("k"@, SortClass::Expression),
        ("a_layout"@, SortClass::Text),
        ("b_layout"@, SortClass::Text),
        ("a_order"@, SortClass::Text),
        ("b_order"@, SortClass::Text),
        ("c_order"@, SortClass::Text),
        ("d_order"@, SortClass::Text),
        ("lda"@, SortClass::Expression),
        ("ldb"@, SortClass::Expression),
        ("ldc"@, SortClass::Expression),
        ("ldd"@, SortClass::Expression),
        ("batch_count"@, SortClass::Expression),
        ("stride_a"@, SortClass::Expression),
        ("stride_b"@, SortClass::Expression),
        ("stride_c"@, SortClass::Expression),
        ("stride_d"@, SortClass::Expression),
        ("a_dtype"@, SortClass::Dtype),
        ("b_dtype"@, SortClass::Dtype),
        ("c_dtype"@, SortClass::Dtype),
        ("d_dtype"@, SortClass::Dtype),
        ("compute_type"@, SortClass::Text),
        ("scale_dtype"@, SortClass::Text),
        ("alpha"@, SortClass::Float),
        ("beta"@, SortClass::Float),
        ("epilogue"@, SortClass::Text),
    ]
}

/// The declaration of a matmul's kind term under this name.
pub fn hipblaslt_sort(name: &'static str) -> (r: SortDef)
    ensures
        r.declares(name@, hipblaslt_fields()),
{
    let fields: Vec<(&'static str, SortClass)> = vec![
        ("m", SortClass::Expression),
        ("n", SortClass::Expression),
        ("k", SortClass::Expression),
        ("a_layout", SortClass::Text),
        ("b_layout", SortClass::Text),
        ("a_order", SortClass::Text),
        ("b_order", SortClass::Text),
        ("c_order", SortClass::Text),
        ("d_order", SortClass::Text),
        ("lda", SortClass::Expression),
        ("ldb", SortClass::Expression),
        ("ldc", SortClass::Expression),
        ("ldd", SortClass::Expression),
        ("batch_count", SortClass::Expression),
        ("stride_a", SortClass::Expression),
        ("stride_b", SortClass::Expression),
        ("stride_c", SortClass::Expression),
        ("stride_d", SortClass::Expression),
        ("a_dtype", SortClass::Dtype),
        ("b_dtype", SortClass::Dtype),
        ("c_dtype", SortClass::Dtype),
        ("d_dtype", SortClass::Dtype),
        ("compute_type", SortClass::Text),
        ("scale_dtype", SortClass::Text),
        ("alpha", SortClass::Float),
        ("beta", SortClass::Float),
        ("epilogue", SortClass::Text),
    ];
    assert(egglog::field_views(fields@) =~= hipblaslt_fields());
    SortDef { class: SortClass::OpKind, name, fields }
}

/// The first parameter text among the children that names nothing, as the
/// message about it.
pub open spec fn bad_parameter<E>(children: Seq<KindChild<E>>) -> Option<Seq<char>> {
    let a_dtype = egglog::dtype_at(children, 18);
    if names::op_of(egglog::text_at(children, 3)) is None {
        Some(names::unknown_text("hipBLAS operation"@, egglog::text_at(children, 3)))
    } else if names::op_of(egglog::text_at(children, 4)) is None {
        Some(names::unknown_text("hipBLAS operation"@, egglog::text_at(children, 4)))
    } else if names::order_of(egglog::text_at(children, 5)) is None {
        Some(names::unknown_text("hipblasLt matrix order"@, egglog::text_at(children, 5)))
    } else if names::order_of(egglog::text_at(children, 6)) is None {
        Some(names::unknown_text("hipblasLt matrix order"@, egglog::text_at(children, 6)))
    } else if names::order_of(egglog::text_at(children, 7)) is None {
        Some(names::unknown_text("hipblasLt matrix order"@, egglog::text_at(children, 7)))
    } else if names::order_of(egglog::text_at(children, 8)) is None {
        Some(names::unknown_text("hipblasLt matrix order"@, egglog::text_at(children, 8)))
    } else if names::compute_type_of(egglog::text_at(children, 22), a_dtype) is None {
        if names::unquoted(egglog::text_at(children, 22)) == "default"@ {
            Some(names::unsupported_dtype_text(a_dtype))
        } else {
            Some(names::unknown_text("hipblasLt compute type"@, egglog::text_at(children, 22)))
        }
    } else if names::scale_dtype_of(egglog::text_at(children, 23), a_dtype) is None {
        if names::unquoted(egglog::text_at(children, 23)) == "default"@ {
            Some(names::unsupported_dtype_text(a_dtype))
        } else {
            Some(names::unknown_text("hipblasLt scale dtype"@, egglog::text_at(children, 23)))
        }
    } else if egglog::scalar_at(children, 24) is None {
        Some(names::unknown_text("hipblasLt scalar literal"@, egglog::literal_at(children, 24)))
    } else if egglog::scalar_at(children, 25) is None {
        Some(names::unknown_text("hipblasLt scalar literal"@, egglog::literal_at(children, 25)))
    } else if names::epilogue_of(egglog::text_at(children, 26)) is None {
        Some(names::unknown_text("hipblasLt epilogue"@, egglog::text_at(children, 26)))
    } else {
        None
    }
}

/// The children describe a matmul: they have the declared sorts, and every
/// parameter text names something.
pub open spec fn extractable<E>(children: Seq<KindChild<E>>) -> bool {
    &&& egglog::well_sorted(children, hipblaslt_fields())
    &&& bad_parameter(children) is None
}

/// The matmul that the children describe.
pub open spec fn extracted<E>(children: Seq<KindChild<E>>, scale_inputs: bool) -> HipblasLt<E> {
    let a_dtype = egglog::dtype_at(children, 18);
    HipblasLt {
        dims: LtDims {
            m: egglog::expr_at(children, 0),
            n: egglog::expr_at(children, 1),
            k: egglog::expr_at(children, 2),
            lda: egglog::expr_at(children, 9),
            ldb: egglog::expr_at(children, 10),
            ldc: egglog::expr_at(children, 11),
            ldd: egglog::expr_at(children, 12),
            batch_count: egglog::expr_at(children, 13),
            stride_a: egglog::expr_at(children, 14),
            stride_b: egglog::expr_at(children, 15),
            stride_c: egglog::expr_at(children, 16),
            stride_d: egglog::expr_at(children, 17),
        },
        a_layout: names::op_of(egglog::text_at(children, 3))->0,
        b_layout: names::op_of(egglog::text_at(children, 4))->0,
        a_order: names::order_of(egglog::text_at(children, 5))->0,
        b_order: names::order_of(egglog::text_at(children, 6))->0,
        c_order: names::order_of(egglog::text_at(children, 7))->0,
        d_order: names::order_of(egglog::text_at(children, 8))->0,
        a_dtype: egglog::dtype_at(children, 18),
        b_dtype: egglog::dtype_at(children, 19),
        c_dtype: egglog::dtype_at(children, 20),
        d_dtype: egglog::dtype_at(children, 21),
        compute_type: names::compute_type_of(egglog::text_at(children, 22), a_dtype)->0,
        scale_dtype: names::scale_dtype_of(egglog::text_at(children, 23), a_dtype)->0,
        alpha: egglog::scalar_at(children, 24)->0,
        beta: egglog::scalar_at(children, 25)->0,
        epilogue: names::epilogue_of(egglog::text_at(children, 26))->0,
        a_scale_input: scale_inputs,
        b_scale_input: scale_inputs,
    }
}

/// The sorts of the children, one by one.
proof fn sorts_of_children<E>(children: Seq<KindChild<E>>)
    requires
        egglog::well_sorted(children, hipblaslt_fields()),
    ensures
        children.len() >= 27,
        children[0] is Expr,
        children[1] is Expr,
        children[2] is Expr,
        children[3] is Text,
        children[4] is Text,
        children[5] is Text,
        children[6] is Text,
        children[7] is Text,
        children[8] is Text,
        children[9] is Expr,
        children[10] is Expr,
        children[11] is Expr,
        children[12] is Expr,
        children[13] is Expr,
        children[14] is Expr,
        children[15] is Expr,
        children[16] is Expr,
        children[17] is Expr,
        children[18] is Dtype,
        children[19] is Dtype,
        children[20] is Dtype,
        children[21] is Dtype,
        children[22] is Text,
        children[23] is Text,
        children[24] is Scalar,
        children[25] is Scalar,
        children[26] is Text,
{
    let fields = hipblaslt_fields();
    assert(fields.len() == 27);
    assert(children[0].has_sort(fields[0].1));
    assert(children[1].has_sort(fields[1].1));
    assert(children[2].has_sort(fields[2].1));
    assert(children[3].has_sort(fields[3].1));
    assert(children[4].has_sort(fields[4].1));
    assert(children[5].has_sort(fields[5].1));
    assert(children[6].has_sort(fields[6].1));
    assert(children[7].has_sort(fields[7].1));
    assert(children[8].has_sort(fields[8].1));
    assert(children[9].has_sort(fields[9].1));
    assert(children[10].has_sort(fields[10].1));
    assert(children[11].has_sort(fields[11].1));
    assert(children[12].has_sort(fields[12].1));
    assert(children[13].has_sort(fields[13].1));
    assert(children[14].has_sort(fields[14].1));
    assert(children[15].has_sort(fields[15].1));
    assert(children[16].has_sort(fields[16].1));
    assert(children[17].has_sort(fields[17].1));
    assert(children[18].has_sort(fields[18].1));
    assert(children[19].has_sort(fields[19].1));
    assert(children[20].has_sort(fields[20].1));
    assert(children[21].has_sort(fields[21].1));
    assert(children[22].has_sort(fields[22].1));
    assert(children[23].has_sort(fields[23].1));
    assert(children[24].has_sort(fields[24].1));
    assert(children[25].has_sort(fields[25].1));
    assert(children[26].has_sort(fields[26].1));
}

fn op_problem(text: &str) -> (r: Option<String>)
    ensures
        r is Some <==> names::op_of(text@) is None,
        r is Some ==> r->0@ == names::unknown_text("hipBLAS operation"@, text@),
{
    match try_parse_hipblaslt_op(text) {
        Some(_) => None,
        None => Some(unknown_message("hipBLAS operation", text)),
    }
}

fn order_problem(text: &str) -> (r: Option<String>)
    ensures
        r is Some <==> names::order_of(text@) is None,
        r is Some ==> r->0@ == names::unknown_text("hipblasLt matrix order"@, text@),
{
    match try_parse_hipblaslt_order(text) {
        Some(_) => None,
        None => Some(unknown_message("hipblasLt matrix order", text)),
    }
}

fn precision_message(what: &str, text: &str, a_dtype: DType) -> (r: String)
    ensures
        r@ == if names::unquoted(text@) == "default"@ {
            names::unsupported_dtype_text(a_dtype)
        } else {
            names::unknown_text(what@, text@)
        },
{
    let name = unquote(text);
    if same_text(name.as_str(), "default") {
        unsupported_dtype_message(a_dtype)
    } else {
        unknown_message(what, text)
    }
}

/// The message about the first parameter text that names nothing, or `None`
/// where every one names something.
pub fn parameter_problem<E>(children: &[KindChild<E>]) -> (r: Option<String>)
    requires
        egglog::well_sorted(children@, hipblaslt_fields()),
    ensures
        r is Some <==> bad_parameter(children@) is Some,
        r is Some ==> r->0@ == bad_parameter(children@)->0,
{
    proof {
        sorts_of_children(children@);
    }
    let a_dtype = dtype_child(children, 18);
    let problem = op_problem(text_child(children, 3));
    if problem.is_some() {
        return problem;
    }
    let problem = op_problem(text_child(children, 4));
    if problem.is_some() {
        return problem;
    }
    let problem = order_problem(text_child(children, 5));
    if problem.is_some() {
        return problem;
    }
    let problem = order_problem(text_child(children, 6));
    if problem.is_some() {
        return problem;
    }
    let problem = order_problem(text_child(children, 7));
    if problem.is_some() {
        return problem;
    }
    let problem = order_problem(text_child(children, 8));
    if problem.is_some() {
        return problem;
    }
    if try_parse_hipblaslt_compute_type(text_child(children, 22), a_dtype).is_none() {
        return Some(precision_message("hipblasLt compute type", text_child(children, 22), a_dtype));
    }
    if try_parse_hipblaslt_scale_dtype(text_child(children, 23), a_dtype).is_none() {
        return Some(precision_message("hipblasLt scale dtype", text_child(children, 23), a_dtype));
    }
    let scalar = scalar_child(children, 24);
    if scalar.1.is_none() {
        return Some(unknown_message("hipblasLt scalar literal", scalar.0));
    }
    let scalar = scalar_child(children, 25);
    if scalar.1.is_none() {
        return Some(unknown_message("hipblasLt scalar literal", scalar.0));
    }
    match try_parse_hipblaslt_epilogue(text_child(children, 26)) {
        Some(_) => None,
        None => Some(unknown_message("hipblasLt epilogue", text_child(children, 26))),
    }
}

/// The matmul that the children describe; `scale_inputs` says whether A and B
/// come with a scale factor each.
fn extract_kind<E: Copy>(children: &[KindChild<E>], scale_inputs: bool) -> (r: HipblasLt<E>)
    requires
        extractable(children@),
    ensures
        r == extracted(children@, scale_inputs),
{
    proof {
        sorts_of_children(children@);
    }
    let a_dtype = dtype_child(children, 18);
    HipblasLt {
        dims: LtDims {
            m: expr_child(children, 0),
            n: expr_child(children, 1),
            k: expr_child(children, 2),
            lda: expr_child(children, 9),
            ldb: expr_child(children, 10),
            ldc: expr_child(children, 11),
            ldd: expr_child(children, 12),
            batch_count: expr_child(children, 13),
            stride_a: expr_child(children, 14),
            stride_b: expr_child(children, 15),
            stride_c: expr_child(children, 16),
            stride_d: expr_child(children, 17),
        },
        a_layout: parse_hipblaslt_op(text_child(children, 3)),
        b_layout: parse_hipblaslt_op(text_child(children, 4)),
        a_order: parse_hipblaslt_order(text_child(children, 5)),
        b_order: parse_hipblaslt_order(text_child(children, 6)),
        c_order: parse_hipblaslt_order(text_child(children, 7)),
        d_order: parse_hipblaslt_order(text_child(children, 8)),
        a_dtype,
        b_dtype: dtype_child(children, 19),
        c_dtype: dtype_child(children, 20),
        d_dtype: dtype_child(children, 21),
        compute_type: parse_hipblaslt_compute_type(text_child(children, 22), a_dtype),
        scale_dtype: parse_hipblaslt_scale_dtype(text_child(children, 23), a_dtype),
        alpha: scalar_child(children, 24).1.unwrap(),
        beta: scalar_child(children, 25).1.unwrap(),
        epilogue: parse_hipblaslt_epilogue(text_child(children, 26)),
        a_scale_input: scale_inputs,
        b_scale_input: scale_inputs,
    }
}

/// The rows and columns in which A is stored: transposed, unless the matmul
/// takes it as it is.
pub open spec fn a_shape(m: u64, k: u64, layout: hipblasOperation_t) -> (u64, u64) {
    if layout is HIPBLAS_OP_N {
        (m, k)
    } else {
        (k, m)
    }
}

/// The rows and columns in which B is stored.
pub open spec fn b_shape(n: u64, k: u64, layout: hipblasOperation_t) -> (u64, u64) {
    if layout is HIPBLAS_OP_N {
        (k, n)
    } else {
        (n, k)
    }
}

/// How a matrix with these parameters is stored; the leading dimension is
/// raised to the smallest that the order allows.
pub open spec fn matrix_spec(
    dtype: DType,
    shape: (u64, u64),
    ld: usize,
    batch_stride: usize,
    order: hipblasLtOrder_t,
) -> LtMatrixSpec {
    let least = matmul::least_ld(shape.0, shape.1, order);
    LtMatrixSpec {
        dtype: names::matmul_dtype(dtype)->0,
        rows: shape.0,
        cols: shape.1,
        ld: if ld as i64 >= least {
            ld as i64
        } else {
            least
        },
        batch_stride: batch_stride as i64,
        order,
    }
}

fn make_matrix_spec(
    dtype: DType,
    shape: (u64, u64),
    ld: usize,
    batch_stride: usize,
    order: hipblasLtOrder_t,
) -> (r: LtMatrixSpec)
    requires
        names::matmul_dtype(dtype) is Some,
    ensures
        r == matrix_spec(dtype, shape, ld, batch_stride, order),
{
    #[verifier::truncate]
    let ld: i64 = ld as i64;
    #[verifier::truncate]
    let batch_stride: i64 = batch_stride as i64;
    LtMatrixSpec {
        dtype: dtype_to_rocm_dtype(dtype),
        rows: shape.0,
        cols: shape.1,
        ld: clamp_ld_for_order(ld, shape.0, shape.1, order),
        batch_stride,
        order,
    }
}

impl<E> HipblasLt<E> {
    /// Which inputs the matmul takes.
    pub open spec fn layout(self) -> InputLayout {
        InputLayout::of(self.beta, self.epilogue, self.a_scale_input, self.b_scale_input)
    }

    /// A matmul takes matrices of all its element types.
    pub open spec fn dtypes_supported(self) -> bool {
        &&& names::matmul_dtype(self.a_dtype) is Some
        &&& names::matmul_dtype(self.b_dtype) is Some
        &&& names::matmul_dtype(self.c_dtype) is Some
        &&& names::matmul_dtype(self.d_dtype) is Some
        &&& names::matmul_dtype(self.scale_dtype) is Some
    }

    /// The matmul with these sizes, given its two scalars.
    pub open spec fn launch_spec(
        self,
        dims: LtDims<usize>,
        alpha: LtScalar,
        beta: LtScalar,
    ) -> LtMatmulSpec {
        let (m, n, k) = (dims.m as u64, dims.n as u64, dims.k as u64);
        LtMatmulSpec {
            problem: LtMatmulProblem { m, n, k, batch_count: dims.batch_count as i32 },
            trans_a: self.a_layout,
            trans_b: self.b_layout,
            a: matrix_spec(
                self.a_dtype,
                a_shape(m, k, self.a_layout),
                dims.lda,
                dims.stride_a,
                self.a_order,
            ),
            b: matrix_spec(
                self.b_dtype,
                b_shape(n, k, self.b_layout),
                dims.ldb,
                dims.stride_b,
                self.b_order,
            ),
            c: matrix_spec(self.c_dtype, (m, n), dims.ldc, dims.stride_c, self.c_order),
            d: matrix_spec(self.d_dtype, (m, n), dims.ldd, dims.stride_d, self.d_order),
            compute: LtComputeSpec {
                compute_type: self.compute_type,
                scale_dtype: names::matmul_dtype(self.scale_dtype)->0,
                alpha,
                beta,
                epilogue: self.epilogue,
            },
            workspace_size: WORKSPACE_SIZE,
        }
    }

    /// What executing the matmul with these sizes comes to, before the library
    /// is called: a scalar that its scale type does not have is refused first,
    /// and then whatever keeps a pointer from being found.
    pub open spec fn launch_plan(
        self,
        dims: LtDims<usize>,
        self_node: NodeIndex,
        inputs: Seq<NodeIndex>,
        buffers: Map<NodeIndex, DeviceBuffer>,
    ) -> Result<(LtMatmulSpec, LtMatmulPointers), LtError> {
        match (
            scalar::packed_scalar(self.scale_dtype, self.alpha),
            scalar::packed_scalar(self.scale_dtype, self.beta),
        ) {
            (Err(error), _) => Err(error),
            (_, Err(error)) => Err(error),
            (Ok(alpha), Ok(beta)) => match pointers::resolution(
                self_node,
                inputs,
                buffers,
                self.layout(),
                self.epilogue,
            ) {
                Err(error) => Err(error),
                Ok(ptrs) => Ok((self.launch_spec(dims, alpha, beta), ptrs)),
            },
        }
    }

    /// The floating-point operations of the matmul: two for each term of each
    /// element of D over all batches.
    pub open spec fn flop_formula(self) -> SizeExpr<E> {
        SizeExpr::Mul(
            Box::new(
                SizeExpr::Mul(
                    Box::new(
                        SizeExpr::Mul(
                            Box::new(
                                SizeExpr::Mul(
                                    Box::new(SizeExpr::Const(2)),
                                    Box::new(SizeExpr::UnitStride(self.dims.m)),
                                ),
                            ),
                            Box::new(SizeExpr::UnitStride(self.dims.n)),
                        ),
                    ),
                    Box::new(SizeExpr::UnitStride(self.dims.k)),
                ),
            ),
            Box::new(SizeExpr::UnitStride(self.dims.batch_count)),
        )
    }

    /// Whether a matmul takes matrices of all its element types.
    pub fn supports_dtypes(&self) -> (r: bool)
        ensures
            r == self.dtypes_supported(),
    {
        matmul_supports(self.a_dtype) && matmul_supports(self.b_dtype) && matmul_supports(
            self.c_dtype,
        ) && matmul_supports(self.d_dtype) && matmul_supports(self.scale_dtype)
    }

    /// The matmul to launch and its pointers. `dims` are the values of the
    /// symbolic sizes with the element-stride variable at one; `self_node`
    /// holds the output.
    pub fn execute(
        &self,
        dims: &LtDims<usize>,
        self_node: NodeIndex,
        inputs: &[NodeIndex],
        buffers: &HashMap<NodeIndex, DeviceBuffer>,
    ) -> (r: Result<(LtMatmulSpec, LtMatmulPointers), LtError>)
        requires
            self.dtypes_supported(),
        ensures
            r == self.launch_plan(*dims, self_node, inputs@, buffers@),
    {
        let m: u64 = dims.m as u64;
        let n: u64 = dims.n as u64;
        let k: u64 = dims.k as u64;
        #[verifier::truncate]
        let batch_count: i32 = dims.batch_count as i32;
        let alpha = match LtScalar::from_f64(self.scale_dtype, self.alpha) {
            Ok(alpha) => alpha,
            Err(error) => return Err(error),
        };
        let beta = match LtScalar::from_f64(self.scale_dtype, self.beta) {
            Ok(beta) => beta,
            Err(error) => return Err(error),
        };
        let ptrs = match resolve_hipblaslt_pointers(
            self_node,
            inputs,
            buffers,
            self.beta,
            self.epilogue,
            self.a_scale_input,
            self.b_scale_input,
        ) {
            Ok(ptrs) => ptrs,
            Err(error) => return Err(error),
        };
        let a_shape: (u64, u64) = match self.a_layout {
            hipblasOperation_t::HIPBLAS_OP_N => (m, k),
            _ => (k, m),
        };
        let b_shape: (u64, u64) = match self.b_layout {
            hipblasOperation_t::HIPBLAS_OP_N => (k, n),
            _ => (n, k),
        };
        let spec = LtMatmulSpec {
            problem: LtMatmulProblem { m, n, k, batch_count },
            trans_a: self.a_layout,
            trans_b: self.b_layout,
            a: make_matrix_spec(self.a_dtype, a_shape, dims.lda, dims.stride_a, self.a_order),
            b: make_matrix_spec(self.b_dtype, b_shape, dims.ldb, dims.stride_b, self.b_order),
            c: make_matrix_spec(self.c_dtype, (m, n), dims.ldc, dims.stride_c, self.c_order),
            d: make_matrix_spec(self.d_dtype, (m, n), dims.ldd, dims.stride_d, self.d_order),
            compute: LtComputeSpec {
                compute_type: self.compute_type,
                scale_dtype: dtype_to_rocm_dtype(self.scale_dtype),
                alpha,
                beta,
                epilogue: self.epilogue,
            },
            workspace_size: WORKSPACE_SIZE,
        };
        Ok((spec, ptrs))
    }

    /// A matmul of unspecified size, for declarations that need some value:
    /// `dim` stands for every size, and `one` and `zero` are those expressions.
    pub fn placeholder(dim: E, one: E, zero: E) -> (r: Self) where E: Copy
        ensures
            r == (HipblasLt {
                dims: LtDims {
                    m: dim,
                    n: dim,
                    k: dim,
                    lda: dim,
                    ldb: dim,
                    ldc: dim,
                    ldd: dim,
                    batch_count: one,
                    stride_a: zero,
                    stride_b: zero,
                    stride_c: zero,
                    stride_d: zero,
                },
                a_layout: hipblasOperation_t::HIPBLAS_OP_N,
                b_layout: hipblasOperation_t::HIPBLAS_OP_T,
                a_order: hipblasLtOrder_t::HIPBLASLT_ORDER_COL,
                b_order: hipblasLtOrder_t::HIPBLASLT_ORDER_COL,
                c_order: hipblasLtOrder_t::HIPBLASLT_ORDER_COL,
                d_order: hipblasLtOrder_t::HIPBLASLT_ORDER_COL,
                a_dtype: DType::F32,
                b_dtype: DType::F32,
                c_dtype: DType::F32,
                d_dtype: DType::F32,
                compute_type: hipblasComputeType_t::HIPBLAS_COMPUTE_32F,
                scale_dtype: DType::F32,
                alpha: HostScalar::unit(),
                beta: HostScalar::nought(),
                epilogue: hipblasLtEpilogue_t::HIPBLASLT_EPILOGUE_DEFAULT,
                a_scale_input: false,
                b_scale_input: false,
            }),
    {
        HipblasLt {
            dims: LtDims {
                m: dim,
                n: dim,
                k: dim,
                lda: dim,
                ldb: dim,
                ldc: dim,
                ldd: dim,
                batch_count: one,
                stride_a: zero,
                stride_b: zero,
                stride_c: zero,
                stride_d: zero,
            },
            a_layout: hipblasOperation_t::HIPBLAS_OP_N,
            b_layout: hipblasOperation_t::HIPBLAS_OP_T,
            a_order: hipblasLtOrder_t::HIPBLASLT_ORDER_COL,
            b_order: hipblasLtOrder_t::HIPBLASLT_ORDER_COL,
            c_order: hipblasLtOrder_t::HIPBLASLT_ORDER_COL,
            d_order: hipblasLtOrder_t::HIPBLASLT_ORDER_COL,
            a_dtype: DType::F32,
            b_dtype: DType::F32,
            c_dtype: DType::F32,
            d_dtype: DType::F32,
            compute_type: hipblasComputeType_t::HIPBLAS_COMPUTE_32F,
            scale_dtype: DType::F32,
            alpha: HostScalar::one(),
            beta: HostScalar::zero(),
            epilogue: hipblasLtEpilogue_t::HIPBLASLT_EPILOGUE_DEFAULT,
            a_scale_input: false,
            b_scale_input: false,
        }
    }

    /// The declaration of the matmul's kind term.
    pub fn sort(&self) -> (r: SortDef)
        ensures
            r.declares("hipblaslt"@, hipblaslt_fields()),
    {
        hipblaslt_sort("hipblaslt")
    }

    /// How many inputs the matmul takes.
    pub fn n_inputs(&self) -> (r: usize)
        ensures
            r == self.layout().count(),
    {
        let c_input: usize = if self.beta.is_zero() {
            0
        } else {
            1
        };
        let bias_input: usize = if epilogue_uses_bias(self.epilogue) {
            1
        } else {
            0
        };
        let a_scale: usize = if self.a_scale_input {
            1
        } else {
            0
        };
        let b_scale: usize = if self.b_scale_input {
            1
        } else {
            0
        };
        2 + c_input + bias_input + a_scale + b_scale
    }

    /// The rewrite rules that introduce the matmul.
    pub fn rewrites(&self) -> (r: Vec<RuleSource>)
        ensures
            egglog::rule_contents(r@) == rules::matmul_rules(),
    {
        rewrite_rules()
    }

    /// The matmul that the children of a kind term describe, and its inputs,
    /// which are handed on as they are.
    pub fn extract<N>(&self, children: &[KindChild<E>], input_enodes: Vec<N>) -> (r: (
        HipblasLt<E>,
        Vec<N>,
    )) where E: Copy
        requires
            extractable(children@),
        ensures
            r.0 == extracted(children@, false),
            r.1 == input_enodes,
    {
        (extract_kind(children, false), input_enodes)
    }

    /// Whether terms of the matmul are deleted once the search is over: they
    /// are kept.
    pub fn cleanup(&self) -> (r: bool)
        ensures
            !r,
    {
        false
    }

    /// The element types of A, B, C and D, the name of the compute type, and
    /// the scale type.
    pub fn type_tuple(&self) -> (r: (DType, DType, DType, DType, &'static str, DType))
        ensures
            r.0 == self.a_dtype,
            r.1 == self.b_dtype,
            r.2 == self.c_dtype,
            r.3 == self.d_dtype,
            r.4@ == names::compute_type_text(self.compute_type),
            r.5 == self.scale_dtype,
    {
        (
            self.a_dtype,
            self.b_dtype,
            self.c_dtype,
            self.d_dtype,
            compute_type_name(self.compute_type),
            self.scale_dtype,
        )
    }

    /// Alpha and beta.
    pub fn scale_values(&self) -> (r: (HostScalar, HostScalar))
        ensures
            r == (self.alpha, self.beta),
    {
        (self.alpha, self.beta)
    }

    /// The name of the epilogue.
    pub fn epilogue(&self) -> (r: &'static str)
        ensures
            r@ == names::epilogue_text(self.epilogue),
    {
        epilogue_name(self.epilogue)
    }

    /// The names of the storage orders of A, B, C and D.
    pub fn matrix_orders(&self) -> (r: (&'static str, &'static str, &'static str, &'static str))
        ensures
            r.0@ == names::order_text(self.a_order),
            r.1@ == names::order_text(self.b_order),
            r.2@ == names::order_text(self.c_order),
            r.3@ == names::order_text(self.d_order),
    {
        (
            order_name(self.a_order),
            order_name(self.b_order),
            order_name(self.c_order),
            order_name(self.d_order),
        )
    }

    /// The names of the transpositions of A and B.
    pub fn transpose_ops(&self) -> (r: (&'static str, &'static str))
        ensures
            r.0@ == names::op_text(self.a_layout),
            r.1@ == names::op_text(self.b_layout),
    {
        (transpose_op_name(self.a_layout), transpose_op_name(self.b_layout))
    }

    /// Whether C and D are stored alike, given whether their leading
    /// dimensions are the same expression, and their batch strides.
    pub fn c_d_layouts_match(&self, same_ld: bool, same_stride: bool) -> (r: bool)
        ensures
            r == (same_ld && same_stride && self.c_order == self.d_order),
    {
        same_ld && same_stride && self.c_order == self.d_order
    }

    /// Whether A and B come with a scale factor.
    pub fn tensor_scale_inputs(&self) -> (r: (bool, bool))
        ensures
            r == (self.a_scale_input, self.b_scale_input),
    {
        (self.a_scale_input, self.b_scale_input)
    }
}

impl<E: Copy> HostOp<E> for HipblasLt<E> {
    /// The elements of D over all batches.
    open spec fn size_formula(&self) -> SizeExpr<E> {
        SizeExpr::Mul(
            Box::new(
                SizeExpr::Mul(
                    Box::new(SizeExpr::UnitStride(self.dims.batch_count)),
                    Box::new(SizeExpr::UnitStride(self.dims.m)),
                ),
            ),
            Box::new(SizeExpr::UnitStride(self.dims.n)),
        )
    }

    /// The bits of D over all batches, in whole bytes.
    open spec fn bytes_formula(&self, element_bits: usize) -> SizeExpr<E> {
        SizeExpr::CeilDiv(
            Box::new(
                SizeExpr::Mul(
                    Box::new(self.size_formula()),
                    Box::new(SizeExpr::Const(element_bits)),
                ),
            ),
            Box::new(SizeExpr::Const(8)),
        )
    }

    fn output_size(&self) -> (r: SizeExpr<E>) {
        SizeExpr::UnitStride(self.dims.batch_count).times(SizeExpr::UnitStride(self.dims.m)).times(
            SizeExpr::UnitStride(self.dims.n),
        )
    }

    fn output_bytes(&self, element_bits: usize) -> (r: SizeExpr<E>) {
        self.output_size().times(SizeExpr::Const(element_bits)).ceil_div(SizeExpr::Const(8))
    }

    /// A multiplication and an addition for each term of each element of D.
    fn flop_estimate(&self) -> (r: SizeExpr<E>)
        ensures
            r == self.flop_formula(),
    {
        SizeExpr::Const(2).times(SizeExpr::UnitStride(self.dims.m)).times(
            SizeExpr::UnitStride(self.dims.n),
        ).times(SizeExpr::UnitStride(self.dims.k)).times(
            SizeExpr::UnitStride(self.dims.batch_count),
        )
    }
}

impl HipblasLtScaled {
    /// The declaration of the scaled matmul's kind term.
    pub fn sort(&self) -> (r: SortDef)
        ensures
            r.declares("hipblaslt_scaled"@, hipblaslt_fields()),
    {
        hipblaslt_sort("hipblaslt_scaled")
    }

    /// How many inputs the scaled matmul takes: A, B and their scale factors.
    pub fn n_inputs(&self) -> (r: usize)
        ensures
            r == 4,
    {
        4
    }

    /// The matmul that the children of a kind term describe, and its inputs,
    /// which are handed on as they are.
    pub fn extract<E: Copy, N>(&self, children: &[KindChild<E>], input_enodes: Vec<N>) -> (r: (
        HipblasLt<E>,
        Vec<N>,
    ))
        requires
            extractable(children@),
        ensures
            r.0 == extracted(children@, true),
            r.1 == input_enodes,
    {
        (extract_kind(children, true), input_enodes)
    }

    /// Whether terms of the matmul are deleted once the search is over: they
    /// are kept.
    pub fn cleanup(&self) -> (r: bool)
        ensures
            !r,
    {
        false
    }
}

} // verus!
