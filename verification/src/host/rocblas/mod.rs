//! rocBLAS single-precision matrix multiplication.
use std::collections::HashMap;
use vstd::prelude::*;
use vstd::string::*;

use crate::host::egglog;
use crate::host::egglog::{expr_child, text_child, KindChild, RuleSource, SortClass, SortDef};
use crate::host::hipblaslt::names;
use crate::host::hipblaslt::names::{unknown_message, unquote};
use crate::host::size::SizeExpr;
use crate::host::{DeviceBuffer, HostOp, NodeIndex};
use crate::text;
use crate::text::{same_text, CharClass};

verus! {

/// Transposition applied to an operand. The variants carry the names of the C
/// header.
#[allow(non_camel_case_types)]
#[derive(Clone, Copy, Debug, PartialEq, Eq, Structural)]
pub enum rocblas_operation {
    rocblas_operation_none,
    rocblas_operation_transpose,
    rocblas_operation_conjugate_transpose,
}

/// The transposition that a parameter text names. The quotes around an egglog
/// string are ignored.
pub open spec fn rocblas_op_of(s: Seq<char>) -> Option<rocblas_operation> {
    let name = names::unquoted(s);
    if name == "T"@ {
        Some(rocblas_operation::rocblas_operation_transpose)
    } else if name == "N"@ {
        Some(rocblas_operation::rocblas_operation_none)
    } else if name == "C"@ {
        Some(rocblas_operation::rocblas_operation_conjugate_transpose)
    } else {
        None
    }
}

/// The transposition that a parameter text names, if it names one.
pub fn try_parse_rocblas_op(s: &str) -> (r: Option<rocblas_operation>)
    ensures
        r == rocblas_op_of(s@),
{
    let name = unquote(s);
    let name = name.as_str();
    if same_text(name, "T") {
        Some(rocblas_operation::rocblas_operation_transpose)
    } else if same_text(name, "N") {
        Some(rocblas_operation::rocblas_operation_none)
    } else if same_text(name, "C") {
        Some(rocblas_operation::rocblas_operation_conjugate_transpose)
    } else {
        None
    }
}

/// The transposition that a parameter text names, with or without quotes.
pub fn parse_rocblas_op(s: &str) -> (r: rocblas_operation)
    requires
        rocblas_op_of(s@) is Some,
    ensures
        Some(r) == rocblas_op_of(s@),
{
    try_parse_rocblas_op(s).unwrap()
}

/// A matmul C = op(A) op(B) in single precision. `E` is the type of symbolic
/// expressions.
#[derive(Debug)]
pub struct RocBlasSgemm<E> {
    pub m: E,
    pub n: E,
    pub k: E,
    pub a_layout: rocblas_operation,
    pub b_layout: rocblas_operation,
    pub lda: E,
    pub ldb: E,
    pub ldc: E,
}

/// The sizes and leading dimensions of a matmul, in elements.
#[derive(Clone, Copy, Debug, PartialEq, Eq)]
pub struct SgemmDims {
    pub m: usize,
    pub n: usize,
    pub k: usize,
    pub lda: usize,
    pub ldb: usize,
    pub ldc: usize,
}

/// The arguments of a `rocblas_sgemm` call; alpha and beta by their bit
/// patterns.
#[derive(Clone, Copy, Debug, PartialEq, Eq, Structural)]
pub struct SgemmCall {
    pub a_layout: rocblas_operation,
    pub b_layout: rocblas_operation,
    pub m: i32,
    pub n: i32,
    pub k: i32,
    pub alpha: u32,
    pub a: u64,
    pub lda: i32,
    pub b: u64,
    pub ldb: i32,
    pub beta: u32,
    pub c: u64,
    pub ldc: i32,
}

/// The fields of the matmul's kind term.
pub open spec fn sgemm_fields() -> Seq<(Seq<char>, SortClass)> {
    seq![
        ("m"@, SortClass::Expression),
        ("n"@, SortClass::Expression),
        ("k"@, SortClass::Expression),
        ("a_layout"@, SortClass::Text),
        ("b_layout"@, SortClass::Text),
        ("lda"@, SortClass::Expression),
        ("ldb"@, SortClass::Expression),
        ("ldc"@, SortClass::Expression),
    ]
}

/// The rule sets of the matmul: one for each combination of storage orders.
pub open spec fn sgemm_rules() -> Seq<(bool, Seq<char>)> {
    seq![
        (true, "sgemm_v2_RmRm_rewrite.egg"@),
        (true, "sgemm_v2_RmCm_rewrite.egg"@),
        (true, "sgemm_v2_CmRm_rewrite.egg"@),
        (true, "sgemm_v2_CmCm_rewrite.egg"@),
    ]
}

/// The first transposition among the children that names nothing, as the
/// message about it.
pub open spec fn bad_parameter<E>(children: Seq<KindChild<E>>) -> Option<Seq<char>> {
    if rocblas_op_of(egglog::text_at(children, 3)) is None {
        Some(names::unknown_text("rocBLAS operation"@, egglog::text_at(children, 3)))
    } else if rocblas_op_of(egglog::text_at(children, 4)) is None {
        Some(names::unknown_text("rocBLAS operation"@, egglog::text_at(children, 4)))
    } else {
        None
    }
}

/// The children describe a matmul: they have the declared sorts, and both
/// transpositions are known.
pub open spec fn extractable<E>(children: Seq<KindChild<E>>) -> bool {
    &&& egglog::well_sorted(children, sgemm_fields())
    &&& bad_parameter(children) is None
}

proof fn sorts_of_children<E>(children: Seq<KindChild<E>>)
    requires
        egglog::well_sorted(children, sgemm_fields()),
    ensures
        children.len() >= 8,
        children[0] is Expr,
        children[1] is Expr,
        children[2] is Expr,
        children[3] is Text,
        children[4] is Text,
        children[5] is Expr,
        children[6] is Expr,
        children[7] is Expr,
{
    let fields = sgemm_fields();
    assert(children[0].has_sort(fields[0].1));
    assert(children[1].has_sort(fields[1].1));
    assert(children[2].has_sort(fields[2].1));
    assert(children[3].has_sort(fields[3].1));
    assert(children[4].has_sort(fields[4].1));
    assert(children[5].has_sort(fields[5].1));
    assert(children[6].has_sort(fields[6].1));
    assert(children[7].has_sort(fields[7].1));
}

/// The message about the first transposition that names nothing, or `None`
/// where both are known.
pub fn parameter_problem<E>(children: &[KindChild<E>]) -> (r: Option<String>)
    requires
        egglog::well_sorted(children@, sgemm_fields()),
    ensures
        r is Some <==> bad_parameter(children@) is Some,
        r is Some ==> r->0@ == bad_parameter(children@)->0,
{
    proof {
        sorts_of_children(children@);
    }
    if try_parse_rocblas_op(text_child(children, 3)).is_none() {
        return Some(unknown_message("rocBLAS operation", text_child(children, 3)));
    }
    if try_parse_rocblas_op(text_child(children, 4)).is_none() {
        return Some(unknown_message("rocBLAS operation", text_child(children, 4)));
    }
    None
}

impl<E> RocBlasSgemm<E> {
    /// A matmul of unspecified size, for declarations that need some value:
    /// `dim` stands for every size.
    pub fn placeholder(dim: E) -> (r: Self) where E: Copy
        ensures
            r == (RocBlasSgemm {
                m: dim,
                n: dim,
                k: dim,
                a_layout: rocblas_operation::rocblas_operation_none,
                b_layout: rocblas_operation::rocblas_operation_transpose,
                lda: dim,
                ldb: dim,
                ldc: dim,
            }),
    {
        RocBlasSgemm {
            m: dim,
            n: dim,
            k: dim,
            a_layout: rocblas_operation::rocblas_operation_none,
            b_layout: rocblas_operation::rocblas_operation_transpose,
            lda: dim,
            ldb: dim,
            ldc: dim,
        }
    }

    /// The declaration of the matmul's kind term.
    pub fn sort(&self) -> (r: SortDef)
        ensures
            r.declares("rocblas_sgemm"@, sgemm_fields()),
    {
        let fields: Vec<(&'static str, SortClass)> = vec![
            ("m", SortClass::Expression),
            ("n", SortClass::Expression),
            ("k", SortClass::Expression),
            ("a_layout", SortClass::Text),
            ("b_layout", SortClass::Text),
            ("lda", SortClass::Expression),
            ("ldb", SortClass::Expression),
            ("ldc", SortClass::Expression),
        ];
        assert(egglog::field_views(fields@) =~= sgemm_fields());
        SortDef { class: SortClass::OpKind, name: "rocblas_sgemm", fields }
    }

    /// How many inputs the matmul takes.
    pub fn n_inputs(&self) -> (r: usize)
        ensures
            r == 2,
    {
        2
    }

    /// The rewrite rules that introduce the matmul.
    pub fn rewrites(&self) -> (r: Vec<RuleSource>)
        ensures
            egglog::rule_contents(r@) == sgemm_rules(),
    {
        let rules: Vec<RuleSource> = vec![
            RuleSource::File("sgemm_v2_RmRm_rewrite.egg"),
            RuleSource::File("sgemm_v2_RmCm_rewrite.egg"),
            RuleSource::File("sgemm_v2_CmRm_rewrite.egg"),
            RuleSource::File("sgemm_v2_CmCm_rewrite.egg"),
        ];
        assert(egglog::rule_contents(rules@) =~= sgemm_rules());
        rules
    }

    /// The matmul that the children of a kind term describe, and its inputs,
    /// which are handed on as they are.
    pub fn extract<N>(&self, children: &[KindChild<E>], input_enodes: Vec<N>) -> (r: (
        RocBlasSgemm<E>,
        Vec<N>,
    )) where E: Copy
        requires
            extractable(children@),
        ensures
            r.0 == (RocBlasSgemm {
                m: egglog::expr_at(children@, 0),
                n: egglog::expr_at(children@, 1),
                k: egglog::expr_at(children@, 2),
                a_layout: rocblas_op_of(egglog::text_at(children@, 3))->0,
                b_layout: rocblas_op_of(egglog::text_at(children@, 4))->0,
                lda: egglog::expr_at(children@, 5),
                ldb: egglog::expr_at(children@, 6),
                ldc: egglog::expr_at(children@, 7),
            }),
            r.1 == input_enodes,
    {
        proof {
            sorts_of_children(children@);
        }
        let op = RocBlasSgemm {
            m: expr_child(children, 0),
            n: expr_child(children, 1),
            k: expr_child(children, 2),
            a_layout: parse_rocblas_op(text_child(children, 3)),
            b_layout: parse_rocblas_op(text_child(children, 4)),
            lda: expr_child(children, 5),
            ldb: expr_child(children, 6),
            ldc: expr_child(children, 7),
        };
        (op, input_enodes)
    }

    /// Whether terms of the matmul are deleted once the search is over: they
    /// are kept.
    pub fn cleanup(&self) -> (r: bool)
        ensures
            !r,
    {
        false
    }

    /// The floating-point operations of the matmul: two for each term of each
    /// element of C.
    pub open spec fn flop_formula(self) -> SizeExpr<E> {
        SizeExpr::Mul(
            Box::new(
                SizeExpr::Mul(
                    Box::new(
                        SizeExpr::Mul(
                            Box::new(SizeExpr::Const(2)),
                            Box::new(SizeExpr::Dim(self.m)),
                        ),
                    ),
                    Box::new(SizeExpr::Dim(self.n)),
                ),
            ),
            Box::new(SizeExpr::Dim(self.k)),
        )
    }

    /// The call that executes the matmul: alpha is one and beta zero, A and B
    /// are the first two inputs, and `self_node` holds C. `dims` are the values
    /// of the symbolic sizes.
    pub fn execute(
        &self,
        dims: &SgemmDims,
        self_node: NodeIndex,
        inputs: &[NodeIndex],
        buffers: &HashMap<NodeIndex, DeviceBuffer>,
    ) -> (r: SgemmCall)
        requires
            inputs@.len() >= 2,
            buffers@.contains_key(self_node),
            buffers@.contains_key(inputs@[0]),
            buffers@.contains_key(inputs@[1]),
        ensures
            r == (SgemmCall {
                a_layout: self.a_layout,
                b_layout: self.b_layout,
                m: dims.m as i32,
                n: dims.n as i32,
                k: dims.k as i32,
                alpha: 0x3f80_0000,
                a: buffers@[inputs@[0]].address(),
                lda: dims.lda as i32,
                b: buffers@[inputs@[1]].address(),
                ldb: dims.ldb as i32,
                beta: 0,
                c: buffers@[self_node].address(),
                ldc: dims.ldc as i32,
            }),
    {
        let c_buf = buffers.get(&self_node).unwrap();
        let a_buf = buffers.get(&inputs[0]).unwrap();
        let b_buf = buffers.get(&inputs[1]).unwrap();
        #[verifier::truncate]
        let m: i32 = dims.m as i32;
        #[verifier::truncate]
        let n: i32 = dims.n as i32;
        #[verifier::truncate]
        let k: i32 = dims.k as i32;
        #[verifier::truncate]
        let lda: i32 = dims.lda as i32;
        #[verifier::truncate]
        let ldb: i32 = dims.ldb as i32;
        #[verifier::truncate]
        let ldc: i32 = dims.ldc as i32;
        SgemmCall {
            a_layout: self.a_layout,
            b_layout: self.b_layout,
            m,
            n,
            k,
            alpha: 0x3f80_0000,
            a: a_buf.ptr(),
            lda,
            b: b_buf.ptr(),
            ldb,
            beta: 0,
            c: c_buf.ptr(),
            ldc,
        }
    }
}

/// What came of the call: nothing to report, or the message about a status
/// other than success. `status` is that status's name.
pub fn sgemm_outcome(success: bool, status: &str) -> (r: Result<(), String>)
    ensures
        r is Ok <==> success,
        r is Err ==> r->Err_0@ == "cuBLAS SGEMM TN failed with status: "@ + status@,
{
    if success {
        Ok(())
    } else {
        let mut out = String::new();
        out.append("cuBLAS SGEMM TN failed with status: ");
        out.append(status);
        assert(out@ =~= "cuBLAS SGEMM TN failed with status: "@ + status@);
        Err(out)
    }
}

impl<E: Copy> HostOp<E> for RocBlasSgemm<E> {
    /// The elements of C.
    open spec fn size_formula(&self) -> SizeExpr<E> {
        SizeExpr::Mul(Box::new(SizeExpr::Dim(self.m)), Box::new(SizeExpr::Dim(self.n)))
    }

    /// Four bytes for each element of C, which is always in single precision.
    open spec fn bytes_formula(&self, element_bits: usize) -> SizeExpr<E> {
        SizeExpr::Mul(Box::new(self.size_formula()), Box::new(SizeExpr::Const(4)))
    }

    fn output_size(&self) -> (r: SizeExpr<E>) {
        SizeExpr::Dim(self.m).times(SizeExpr::Dim(self.n))
    }

    fn output_bytes(&self, element_bits: usize) -> (r: SizeExpr<E>) {
        self.output_size().times(SizeExpr::Const(4))
    }

    /// A multiplication and an addition for each term of each element of C.
    fn flop_estimate(&self) -> (r: SizeExpr<E>)
        ensures
            r == self.flop_formula(),
    {
        SizeExpr::Const(2).times(SizeExpr::Dim(self.m)).times(SizeExpr::Dim(self.n)).times(
            SizeExpr::Dim(self.k),
        )
    }
}

/// The matmul reports two floating-point operations for each of its m by n by k
/// terms.
pub proof fn matmul_reports_its_cost<E: Copy>(
    op: RocBlasSgemm<E>,
    dim: spec_fn(E) -> nat,
    unit: spec_fn(E) -> nat,
)
    ensures
        op.flop_formula().value(dim, unit) == 2 * dim(op.m) * dim(op.n) * dim(op.k),
{
    reveal_with_fuel(SizeExpr::value, 5);
}

/// The output has as many elements as C, and four bytes for each.
pub proof fn output_sizes<E: Copy>(
    op: RocBlasSgemm<E>,
    element_bits: usize,
    dim: spec_fn(E) -> nat,
    unit: spec_fn(E) -> nat,
)
    ensures
        op.size_formula().value(dim, unit) == dim(op.m) * dim(op.n),
        op.bytes_formula(element_bits).value(dim, unit) == 4 * (dim(op.m) * dim(op.n)),
{
    reveal_with_fuel(SizeExpr::value, 3);
}

/// The call multiplies the first two inputs into the buffer of the operation's
/// own node, with the operation's transpositions, at the sizes that are given,
/// and overwrites what is there: alpha is one, and beta zero.
pub proof fn call_multiplies_the_inputs<E>(
    op: &RocBlasSgemm<E>,
    dims: &SgemmDims,
    self_node: NodeIndex,
    inputs: &[NodeIndex],
    buffers: &HashMap<NodeIndex, DeviceBuffer>,
    call: SgemmCall,
)
    requires
        call_ensures(
            RocBlasSgemm::<E>::execute,
            (op, dims, self_node, inputs, buffers),
            call,
        ),
    ensures
        call.a_layout == op.a_layout,
        call.b_layout == op.b_layout,
        call.m == dims.m as i32,
        call.n == dims.n as i32,
        call.k == dims.k as i32,
        call.lda == dims.lda as i32,
        call.ldb == dims.ldb as i32,
        call.ldc == dims.ldc as i32,
        call.a == buffers@[inputs@[0]].address(),
        call.b == buffers@[inputs@[1]].address(),
        call.c == buffers@[self_node].address(),
        call.alpha == 127 * 0x80_0000,
        call.beta == 0,
{
}

/// Extraction reads every child of the kind term into the field that it is for,
/// and hands the inputs on.
pub proof fn extraction_reads_every_child<E: Copy, N>(
    declared: &RocBlasSgemm<E>,
    children: &[KindChild<E>],
    input_enodes: Vec<N>,
    r: (RocBlasSgemm<E>, Vec<N>),
)
    requires
        extractable(children@),
        call_ensures(RocBlasSgemm::<E>::extract::<N>, (declared, children, input_enodes), r),
    ensures
        r.0.m == children@[0]->Expr_0,
        r.0.n == children@[1]->Expr_0,
        r.0.k == children@[2]->Expr_0,
        rocblas_op_of(children@[3]->Text_0@) == Some(r.0.a_layout),
        rocblas_op_of(children@[4]->Text_0@) == Some(r.0.b_layout),
        r.0.lda == children@[5]->Expr_0,
        r.0.ldb == children@[6]->Expr_0,
        r.0.ldc == children@[7]->Expr_0,
        r.1 == input_enodes,
{
}

/// A text names a transposition exactly when it is that transposition's letter,
/// in quotes or not.
pub proof fn transpositions_are_named_by_their_letter(s: &str, r: Option<rocblas_operation>)
    requires
        call_ensures(try_parse_rocblas_op, (s,), r),
    ensures
        ({
            let name = text::trim(s@, CharClass::One('"'));
            &&& r == Some(rocblas_operation::rocblas_operation_none) <==> name == "N"@
            &&& r == Some(rocblas_operation::rocblas_operation_transpose) <==> name == "T"@
            &&& r == Some(rocblas_operation::rocblas_operation_conjugate_transpose) <==> name
                == "C"@
        }),
{
    reveal_strlit("T");
    reveal_strlit("N");
    reveal_strlit("C");
    assert("N"@[0] != "T"@[0]);
    assert("C"@[0] != "T"@[0]);
    assert("C"@[0] != "N"@[0]);
}

/// Nothing is reported of the children exactly when both transpositions are
/// known; and else the first that is not.
pub proof fn unknown_transpositions_are_reported<E>(
    children: &[KindChild<E>],
    problem: Option<String>,
)
    requires
        call_ensures(parameter_problem::<E>, (children,), problem),
    ensures
        ({
            let a = children@[3]->Text_0@;
            let b = children@[4]->Text_0@;
            &&& problem is None <==> rocblas_op_of(a) is Some && rocblas_op_of(b) is Some
            &&& rocblas_op_of(a) is None ==> problem->0@ == names::unknown_text(
                "rocBLAS operation"@,
                a,
            )
            &&& rocblas_op_of(a) is Some && rocblas_op_of(b) is None ==> problem->0@
                == names::unknown_text("rocBLAS operation"@, b)
        }),
{
}

/// A call that succeeded has nothing to report, and one that did not reports its
/// status.
pub proof fn failed_calls_report_their_status(
    success: bool,
    status: &str,
    r: Result<(), String>,
)
    requires
        call_ensures(sgemm_outcome, (success, status), r),
    ensures
        success ==> r is Ok,
        !success ==> r is Err && r->Err_0@ == "cuBLAS SGEMM TN failed with status: "@ + status@,
{
}

/// The fields of the matmul's kind term are declared in the order in which
/// extraction reads them.
pub proof fn fields_are_declared_in_order<E>(op: &RocBlasSgemm<E>, sort: SortDef)
    requires
        call_ensures(RocBlasSgemm::<E>::sort, (op,), sort),
    ensures
        sort.class is OpKind,
        sort.name@ == "rocblas_sgemm"@,
        sort.fields@.len() == 8,
        sort.fields@[0].0@ == "m"@ && sort.fields@[0].1 is Expression,
        sort.fields@[1].0@ == "n"@ && sort.fields@[1].1 is Expression,
        sort.fields@[2].0@ == "k"@ && sort.fields@[2].1 is Expression,
        sort.fields@[3].0@ == "a_layout"@ && sort.fields@[3].1 is Text,
        sort.fields@[4].0@ == "b_layout"@ && sort.fields@[4].1 is Text,
        sort.fields@[5].0@ == "lda"@ && sort.fields@[5].1 is Expression,
        sort.fields@[6].0@ == "ldb"@ && sort.fields@[6].1 is Expression,
        sort.fields@[7].0@ == "ldc"@ && sort.fields@[7].1 is Expression,
{
    let views = egglog::field_views(sort.fields@);
    assert(views.len() == sort.fields@.len());
    assert forall|i: int| 0 <= i < views.len() implies #[trigger] views[i] == (
        sort.fields@[i].0@,
        sort.fields@[i].1,
    ) by {}
    let fields = sgemm_fields();
    assert(views[0] == fields[0]);
    assert(views[1] == fields[1]);
    assert(views[2] == fields[2]);
    assert(views[3] == fields[3]);
    assert(views[4] == fields[4]);
    assert(views[5] == fields[5]);
    assert(views[6] == fields[6]);
    assert(views[7] == fields[7]);
}

/// The matmul is introduced by the rewrites for the four combinations of storage
/// orders, takes two inputs, and its terms are kept.
pub proof fn matmul_declares_itself<E>(
    op: &RocBlasSgemm<E>,
    rules: Vec<RuleSource>,
    inputs: usize,
    cleaned: bool,
)
    requires
        call_ensures(RocBlasSgemm::<E>::rewrites, (op,), rules),
        call_ensures(RocBlasSgemm::<E>::n_inputs, (op,), inputs),
        call_ensures(RocBlasSgemm::<E>::cleanup, (op,), cleaned),
    ensures
        rules@.len() == 4,
        rules@[0] matches RuleSource::File(name) && name@ == "sgemm_v2_RmRm_rewrite.egg"@,
        rules@[1] matches RuleSource::File(name) && name@ == "sgemm_v2_RmCm_rewrite.egg"@,
        rules@[2] matches RuleSource::File(name) && name@ == "sgemm_v2_CmRm_rewrite.egg"@,
        rules@[3] matches RuleSource::File(name) && name@ == "sgemm_v2_CmCm_rewrite.egg"@,
        inputs == 2,
        !cleaned,
{
    let contents = egglog::rule_contents(rules@);
    assert(contents.len() == rules@.len());
    assert forall|i: int| 0 <= i < rules@.len() implies (#[trigger] rules@[i]).content()
        == contents[i] by {}
}

/// The sizes that the memory planner and the statistics are told have the values
/// m n, four bytes for each of those, and two operations for each of m n k terms.
pub proof fn reported_sizes_are_those_of_the_product<E: Copy>(
    op: &RocBlasSgemm<E>,
    element_bits: usize,
    elements: SizeExpr<E>,
    bytes: SizeExpr<E>,
    operations: SizeExpr<E>,
    dim: spec_fn(E) -> nat,
    unit: spec_fn(E) -> nat,
)
    requires
        call_ensures(<RocBlasSgemm<E> as HostOp<E>>::output_size, (op,), elements),
        call_ensures(<RocBlasSgemm<E> as HostOp<E>>::output_bytes, (op, element_bits), bytes),
        call_ensures(<RocBlasSgemm<E> as HostOp<E>>::flop_estimate, (op,), operations),
    ensures
        elements.value(dim, unit) == dim(op.m) * dim(op.n),
        bytes.value(dim, unit) == 4 * (dim(op.m) * dim(op.n)),
        operations.value(dim, unit) == 2 * dim(op.m) * dim(op.n) * dim(op.k),
{
    output_sizes(*op, element_bits, dim, unit);
    matmul_reports_its_cost(*op, dim, unit);
}

} // verus!
