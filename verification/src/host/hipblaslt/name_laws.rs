//! Reading a parameter text undoes naming a parameter.
use vstd::prelude::*;

use crate::dtype::DType;
use crate::host::hipblaslt::error::LtError;
use crate::host::hipblaslt::names;
use crate::host::hipblaslt::names::{
    default_compute_and_scale_dtype, matmul_supports, try_parse_hipblaslt_compute_type,
    try_parse_hipblaslt_epilogue, try_parse_hipblaslt_op, try_parse_hipblaslt_order,
    try_parse_hipblaslt_scale_dtype, unknown_message, unquote, unsupported_dtype_message,
};
use crate::host::hipblaslt::scalar::{HostScalar, LtScalar};
use crate::host::hipblaslt::types::{
    hipblasComputeType_t, hipblasLtEpilogue_t, hipblasLtOrder_t, hipblasOperation_t,
};
use crate::host::rocblas;
use crate::host::rocblas::rocblas_operation;
use crate::text;
use crate::text::CharClass;

verus! {

/// A text in double quotes, as the e-graph keeps it.
pub open spec fn quoted(s: Seq<char>) -> Seq<char> {
    seq!['"'] + s + seq!['"']
}

/// A transposition is read back from its name, with or without quotes.
pub proof fn op_name_reads_back(op: hipblasOperation_t)
    ensures
        names::op_of(names::op_text(op)) == Some(op),
        names::op_of(quoted(names::op_text(op))) == Some(op),
{
    reveal_strlit("T");
    reveal_strlit("N");
    reveal_strlit("C");
    let name = names::op_text(op);
    assert("T"@.len() == 1);
    assert("N"@.len() == 1);
    assert("C"@.len() == 1);
    text::trim_removes_only_the_ends(name, '"');
    assert("N"@[0] != "T"@[0]);
    assert("C"@[0] != "T"@[0]);
    assert("C"@[0] != "N"@[0]);
}

/// A storage order that rewrites use is read back from its name, with or without
/// quotes.
pub proof fn order_name_reads_back(order: hipblasLtOrder_t)
    requires
        order is HIPBLASLT_ORDER_COL || order is HIPBLASLT_ORDER_ROW,
    ensures
        names::order_of(names::order_text(order)) == Some(order),
        names::order_of(quoted(names::order_text(order))) == Some(order),
{
    reveal_strlit("COL");
    reveal_strlit("ROW");
    let name = names::order_text(order);
    assert("COL"@.len() == 3);
    assert("ROW"@.len() == 3);
    text::trim_removes_only_the_ends(name, '"');
    assert("ROW"@[0] != "COL"@[0]);
}

/// An epilogue that rewrites use is read back from its name, with or without
/// quotes.
pub proof fn epilogue_name_reads_back(epilogue: hipblasLtEpilogue_t)
    requires
        ({
            ||| epilogue is HIPBLASLT_EPILOGUE_DEFAULT
            ||| epilogue is HIPBLASLT_EPILOGUE_BIAS
            ||| epilogue is HIPBLASLT_EPILOGUE_RELU
            ||| epilogue is HIPBLASLT_EPILOGUE_RELU_BIAS
            ||| epilogue is HIPBLASLT_EPILOGUE_GELU
            ||| epilogue is HIPBLASLT_EPILOGUE_GELU_BIAS
        }),
    ensures
        names::epilogue_of(names::epilogue_text(epilogue)) == Some(epilogue),
        names::epilogue_of(quoted(names::epilogue_text(epilogue))) == Some(epilogue),
{
    reveal_strlit("DEFAULT");
    reveal_strlit("BIAS");
    reveal_strlit("RELU");
    reveal_strlit("RELU_BIAS");
    reveal_strlit("GELU");
    reveal_strlit("GELU_BIAS");
    let name = names::epilogue_text(epilogue);
    assert("DEFAULT"@.len() == 7);
    assert("BIAS"@.len() == 4);
    assert("RELU"@.len() == 4);
    assert("RELU_BIAS"@.len() == 9);
    assert("GELU"@.len() == 4);
    assert("GELU_BIAS"@.len() == 9);
    text::trim_removes_only_the_ends(name, '"');
    assert("RELU"@[0] != "BIAS"@[0]);
    assert("GELU"@[0] != "BIAS"@[0]);
    assert("GELU"@[0] != "RELU"@[0]);
    assert("GELU_BIAS"@[0] != "RELU_BIAS"@[0]);
}

/// A compute type that rewrites use is read back from its name, with or without
/// quotes, whatever the element type.
pub proof fn compute_type_name_reads_back(compute_type: hipblasComputeType_t, default_dtype: DType)
    requires
        ({
            ||| compute_type is HIPBLAS_COMPUTE_64F
            ||| compute_type is HIPBLAS_COMPUTE_32F
            ||| compute_type is HIPBLAS_COMPUTE_32F_FAST_16BF
            ||| compute_type is HIPBLAS_COMPUTE_32F_FAST_TF32
        }),
    ensures
        names::compute_type_of(names::compute_type_text(compute_type), default_dtype)
            == Some(compute_type),
        names::compute_type_of(quoted(names::compute_type_text(compute_type)), default_dtype)
            == Some(compute_type),
{
    reveal_strlit("default");
    reveal_strlit("64F");
    reveal_strlit("32F");
    reveal_strlit("32F_FAST_16BF");
    reveal_strlit("32F_FAST_TF32");
    let name = names::compute_type_text(compute_type);
    assert("default"@.len() == 7);
    assert("64F"@.len() == 3);
    assert("32F"@.len() == 3);
    assert("32F_FAST_16BF"@.len() == 13);
    assert("32F_FAST_TF32"@.len() == 13);
    text::trim_removes_only_the_ends(name, '"');
    assert("32F"@[0] != "64F"@[0]);
    assert("32F_FAST_TF32"@[9] != "32F_FAST_16BF"@[9]);
}

/// A scale type is read back from its name, with or without quotes, whatever the
/// element type.
pub proof fn scale_dtype_name_reads_back(dtype: DType, default_dtype: DType)
    requires
        names::matmul_dtype(dtype) is Some,
    ensures
        names::scale_dtype_of(dtype.name_text(), default_dtype) == Some(dtype),
        names::scale_dtype_of(quoted(dtype.name_text()), default_dtype) == Some(dtype),
{
    reveal_strlit("default");
    reveal_strlit("F64");
    reveal_strlit("F32");
    reveal_strlit("F16");
    reveal_strlit("Bf16");
    reveal_strlit("TF32");
    reveal_strlit("F8E4M3");
    reveal_strlit("F8E5M2");
    let name = dtype.name_text();
    assert("default"@.len() == 7);
    assert("F64"@.len() == 3);
    assert("F32"@.len() == 3);
    assert("F16"@.len() == 3);
    assert("Bf16"@.len() == 4);
    assert("TF32"@.len() == 4);
    assert("F8E4M3"@.len() == 6);
    assert("F8E5M2"@.len() == 6);
    text::trim_removes_only_the_ends(name, '"');
    assert("F32"@[1] != "F64"@[1]);
    assert("F16"@[1] != "F64"@[1]);
    assert("F16"@[1] != "F32"@[1]);
    assert("TF32"@[0] != "Bf16"@[0]);
    assert("F8E5M2"@[3] != "F8E4M3"@[3]);
}

/// The transposition of the one library that corresponds to one of the other.
pub open spec fn corresponding(op: hipblasOperation_t) -> rocblas_operation {
    match op {
        hipblasOperation_t::HIPBLAS_OP_N => rocblas_operation::rocblas_operation_none,
        hipblasOperation_t::HIPBLAS_OP_T => rocblas_operation::rocblas_operation_transpose,
        hipblasOperation_t::HIPBLAS_OP_C =>
            rocblas_operation::rocblas_operation_conjugate_transpose,
    }
}

/// A parameter text names a transposition for the one library exactly when it
/// does for the other, and then the same.
pub proof fn both_libraries_read_the_same_operations(s: Seq<char>)
    ensures
        rocblas::rocblas_op_of(s) == (match names::op_of(s) {
            Some(op) => Some(corresponding(op)),
            None => None::<rocblas_operation>,
        }),
{
}

/// A text with this many double quotes before and behind it.
pub open spec fn in_quotes(before: nat, s: Seq<char>, behind: nat) -> Seq<char> {
    Seq::new(before, |i: int| '"') + s + Seq::new(behind, |i: int| '"')
}

/// The quotes around a text do not matter, however many there are; and a text is
/// its unquoted text with nothing but quotes around it.
pub proof fn quotes_do_not_matter(s: Seq<char>, before: nat, behind: nat)
    requires
        s.len() > 0,
        s[0] != '"',
        s.last() != '"',
    ensures
        names::unquoted(in_quotes(before, s, behind)) == s,
{
    text::trimming_undoes_padding(
        Seq::new(before, |i: int| '"'),
        s,
        Seq::new(behind, |i: int| '"'),
        CharClass::One('"'),
    );
}

/// A text is what is left without the quotes, with nothing but quotes around it.
pub proof fn unquoting_removes_only_quotes(s: &str, r: String) -> (quotes: (nat, nat))
    requires
        call_ensures(unquote, (s,), r),
    ensures
        s@ == in_quotes(quotes.0, r@, quotes.1),
        r@.len() > 0 ==> r@[0] != '"' && r@.last() != '"',
{
    let ends = text::trimming_leaves_what_lies_between_the_ends(s@, CharClass::One('"'));
    let quotes = (ends.0 as nat, (s@.len() - ends.1) as nat);
    assert(s@ =~= in_quotes(quotes.0, r@, quotes.1));
    quotes
}

/// A text names a transposition exactly when it is that transposition's letter,
/// in quotes or not.
pub proof fn transpositions_are_named_by_their_letter(s: &str, r: Option<hipblasOperation_t>)
    requires
        call_ensures(try_parse_hipblaslt_op, (s,), r),
    ensures
        ({
            let name = text::trim(s@, CharClass::One('"'));
            &&& r == Some(hipblasOperation_t::HIPBLAS_OP_N) <==> name == "N"@
            &&& r == Some(hipblasOperation_t::HIPBLAS_OP_T) <==> name == "T"@
            &&& r == Some(hipblasOperation_t::HIPBLAS_OP_C) <==> name == "C"@
        }),
{
    reveal_strlit("T");
    reveal_strlit("N");
    reveal_strlit("C");
    assert("N"@[0] != "T"@[0]);
    assert("C"@[0] != "T"@[0]);
    assert("C"@[0] != "N"@[0]);
}

/// A text names a storage order exactly when it is COL or ROW, in quotes or not.
pub proof fn orders_are_named_by_their_abbreviation(s: &str, r: Option<hipblasLtOrder_t>)
    requires
        call_ensures(try_parse_hipblaslt_order, (s,), r),
    ensures
        ({
            let name = text::trim(s@, CharClass::One('"'));
            &&& r == Some(hipblasLtOrder_t::HIPBLASLT_ORDER_COL) <==> name == "COL"@
            &&& r == Some(hipblasLtOrder_t::HIPBLASLT_ORDER_ROW) <==> name == "ROW"@
            &&& r is Some ==> name == "COL"@ || name == "ROW"@
        }),
{
    reveal_strlit("COL");
    reveal_strlit("ROW");
    assert("ROW"@[0] != "COL"@[0]);
}

/// A text names an epilogue exactly when it is one of the six names, in quotes
/// or not.
pub proof fn epilogues_are_named_by_what_they_do(s: &str, r: Option<hipblasLtEpilogue_t>)
    requires
        call_ensures(try_parse_hipblaslt_epilogue, (s,), r),
    ensures
        ({
            let name = text::trim(s@, CharClass::One('"'));
            &&& r == Some(hipblasLtEpilogue_t::HIPBLASLT_EPILOGUE_DEFAULT) <==> name == "DEFAULT"@
            &&& r == Some(hipblasLtEpilogue_t::HIPBLASLT_EPILOGUE_BIAS) <==> name == "BIAS"@
            &&& r == Some(hipblasLtEpilogue_t::HIPBLASLT_EPILOGUE_RELU) <==> name == "RELU"@
            &&& r == Some(hipblasLtEpilogue_t::HIPBLASLT_EPILOGUE_RELU_BIAS) <==> name
                == "RELU_BIAS"@
            &&& r == Some(hipblasLtEpilogue_t::HIPBLASLT_EPILOGUE_GELU) <==> name == "GELU"@
            &&& r == Some(hipblasLtEpilogue_t::HIPBLASLT_EPILOGUE_GELU_BIAS) <==> name
                == "GELU_BIAS"@
            &&& r is Some <==> name == "DEFAULT"@ || name == "BIAS"@ || name == "RELU"@ || name
                == "RELU_BIAS"@ || name == "GELU"@ || name == "GELU_BIAS"@
        }),
{
    reveal_strlit("DEFAULT");
    reveal_strlit("BIAS");
    reveal_strlit("RELU");
    reveal_strlit("RELU_BIAS");
    reveal_strlit("GELU");
    reveal_strlit("GELU_BIAS");
    assert("DEFAULT"@.len() == 7);
    assert("BIAS"@.len() == 4 && "RELU"@.len() == 4 && "GELU"@.len() == 4);
    assert("RELU_BIAS"@.len() == 9 && "GELU_BIAS"@.len() == 9);
    assert("RELU"@[0] != "BIAS"@[0]);
    assert("GELU"@[0] != "BIAS"@[0]);
    assert("GELU"@[0] != "RELU"@[0]);
    assert("GELU_BIAS"@[0] != "RELU_BIAS"@[0]);
}

/// A text names a compute type exactly when it is that type's name, in quotes or
/// not; or `default`, which names double precision for F64, the fast types for
/// Bf16 and TF32, and single precision for the other types that a matmul takes.
pub proof fn compute_types_are_named_or_follow_the_elements(
    s: &str,
    dtype: DType,
    r: Option<hipblasComputeType_t>,
)
    requires
        call_ensures(try_parse_hipblaslt_compute_type, (s, dtype), r),
    ensures
        ({
            let name = text::trim(s@, CharClass::One('"'));
            let default = name == "default"@;
            let single = dtype is F32 || dtype is F16 || dtype is F8E4M3 || dtype is F8E5M2;
            &&& r == Some(hipblasComputeType_t::HIPBLAS_COMPUTE_64F) <==> name == "64F"@ || default
                && dtype is F64
            &&& r == Some(hipblasComputeType_t::HIPBLAS_COMPUTE_32F) <==> name == "32F"@ || default
                && single
            &&& r == Some(hipblasComputeType_t::HIPBLAS_COMPUTE_32F_FAST_16BF) <==> name
                == "32F_FAST_16BF"@ || default && dtype is Bf16
            &&& r == Some(hipblasComputeType_t::HIPBLAS_COMPUTE_32F_FAST_TF32) <==> name
                == "32F_FAST_TF32"@ || default && dtype is TF32
            &&& r is Some <==> name == "64F"@ || name == "32F"@ || name == "32F_FAST_16BF"@ || name
                == "32F_FAST_TF32"@ || default && (single || dtype is F64 || dtype is Bf16
                || dtype is TF32)
        }),
{
    reveal_strlit("default");
    reveal_strlit("64F");
    reveal_strlit("32F");
    reveal_strlit("32F_FAST_16BF");
    reveal_strlit("32F_FAST_TF32");
    assert("default"@.len() == 7);
    assert("64F"@.len() == 3 && "32F"@.len() == 3);
    assert("32F_FAST_16BF"@.len() == 13 && "32F_FAST_TF32"@.len() == 13);
    assert("32F"@[0] != "64F"@[0]);
    assert("32F_FAST_TF32"@[9] != "32F_FAST_16BF"@[9]);
}

/// A text other than `default` names a scale type exactly when it is the name of
/// an element type that a matmul takes, in quotes or not, whatever the matrices
/// hold.
pub proof fn scale_types_are_named_like_element_types(
    s: &str,
    dtype: DType,
    r: Option<DType>,
)
    requires
        call_ensures(try_parse_hipblaslt_scale_dtype, (s, dtype), r),
        text::trim(s@, CharClass::One('"')) != "default"@,
    ensures
        ({
            let name = text::trim(s@, CharClass::One('"'));
            &&& r == Some(DType::F64) <==> name == "F64"@
            &&& r == Some(DType::F32) <==> name == "F32"@
            &&& r == Some(DType::F16) <==> name == "F16"@
            &&& r == Some(DType::Bf16) <==> name == "Bf16"@
            &&& r == Some(DType::TF32) <==> name == "TF32"@
            &&& r == Some(DType::F8E4M3) <==> name == "F8E4M3"@
            &&& r == Some(DType::F8E5M2) <==> name == "F8E5M2"@
            &&& r is Some <==> name == "F64"@ || name == "F32"@ || name == "F16"@ || name
                == "Bf16"@ || name == "TF32"@ || name == "F8E4M3"@ || name == "F8E5M2"@
        }),
{
    reveal_strlit("F64");
    reveal_strlit("F32");
    reveal_strlit("F16");
    reveal_strlit("Bf16");
    reveal_strlit("TF32");
    reveal_strlit("F8E4M3");
    reveal_strlit("F8E5M2");
    assert("F64"@.len() == 3 && "F32"@.len() == 3 && "F16"@.len() == 3);
    assert("Bf16"@.len() == 4 && "TF32"@.len() == 4);
    assert("F8E4M3"@.len() == 6 && "F8E5M2"@.len() == 6);
    assert("F32"@[1] != "F64"@[1]);
    assert("F16"@[1] != "F64"@[1]);
    assert("F16"@[1] != "F32"@[1]);
    assert("TF32"@[0] != "Bf16"@[0]);
    assert("F8E5M2"@[3] != "F8E4M3"@[3]);
}

/// The text `default`, however it is quoted, names the scale type F64 for
/// matrices of F64 and F32 for those of every other element type that a matmul
/// takes, and nothing for the rest. So the default scale type always has host
/// scalars: no matmul is refused for it.
pub proof fn default_scale_type_has_host_scalars(
    s: &str,
    before: nat,
    behind: nat,
    dtype: DType,
    supported: bool,
    r: Option<DType>,
    value: HostScalar,
    packed: Result<LtScalar, LtError>,
)
    requires
        s@ == in_quotes(before, "default"@, behind),
        call_ensures(matmul_supports, (dtype,), supported),
        call_ensures(try_parse_hipblaslt_scale_dtype, (s, dtype), r),
        r is Some ==> call_ensures(LtScalar::from_f64, (r->0, value), packed),
    ensures
        r is Some <==> supported,
        r is Some <==> dtype is F64 || dtype is F32 || dtype is F16 || dtype is Bf16
            || dtype is TF32 || dtype is F8E4M3 || dtype is F8E5M2,
        r is Some ==> r == Some(
            if dtype is F64 {
                DType::F64
            } else {
                DType::F32
            },
        ),
        r is Some ==> packed is Ok,
{
    reveal_strlit("default");
    assert("default"@[0] != '"' && "default"@.last() != '"');
    quotes_do_not_matter("default"@, before, behind);
}

/// The default precision of an element type is what `default` names as compute
/// type and as scale type.
pub proof fn default_precision_is_what_default_names(
    s: &str,
    before: nat,
    behind: nat,
    dtype: DType,
    precision: (hipblasComputeType_t, DType),
    compute_type: Option<hipblasComputeType_t>,
    scale_dtype: Option<DType>,
)
    requires
        s@ == in_quotes(before, "default"@, behind),
        names::matmul_dtype(dtype) is Some,
        call_ensures(default_compute_and_scale_dtype, (dtype,), precision),
        call_ensures(try_parse_hipblaslt_compute_type, (s, dtype), compute_type),
        call_ensures(try_parse_hipblaslt_scale_dtype, (s, dtype), scale_dtype),
    ensures
        compute_type == Some(precision.0),
        scale_dtype == Some(precision.1),
{
    reveal_strlit("default");
    assert("default"@[0] != '"' && "default"@.last() != '"');
    quotes_do_not_matter("default"@, before, behind);
}

/// The parameter text of an epilogue that rewrites use is its header name
/// without the prefix that all of them have.
pub proof fn header_names_end_in_parameter_names(epilogue: hipblasLtEpilogue_t)
    requires
        names::epilogue_text(epilogue) != "other"@,
    ensures
        names::epilogue_debug_text(epilogue) == "HIPBLASLT_EPILOGUE_"@ + names::epilogue_text(
            epilogue,
        ),
{
    reveal_strlit("HIPBLASLT_EPILOGUE_");
    reveal_strlit("DEFAULT");
    reveal_strlit("BIAS");
    reveal_strlit("RELU");
    reveal_strlit("RELU_BIAS");
    reveal_strlit("GELU");
    reveal_strlit("GELU_BIAS");
    reveal_strlit("HIPBLASLT_EPILOGUE_DEFAULT");
    reveal_strlit("HIPBLASLT_EPILOGUE_BIAS");
    reveal_strlit("HIPBLASLT_EPILOGUE_RELU");
    reveal_strlit("HIPBLASLT_EPILOGUE_RELU_BIAS");
    reveal_strlit("HIPBLASLT_EPILOGUE_GELU");
    reveal_strlit("HIPBLASLT_EPILOGUE_GELU_BIAS");
    assert(names::epilogue_debug_text(epilogue) =~= "HIPBLASLT_EPILOGUE_"@ + names::epilogue_text(
        epilogue,
    ));
}

/// The message about a text that names nothing holds what it should have named,
/// the text without quotes, and the text as it is.
pub proof fn messages_about_unknown_names_show_them(what: &str, s: &str, message: String)
    requires
        call_ensures(unknown_message, (what, s), message),
    ensures
        message@ == "Unknown "@ + what@ + ": '"@ + text::trim(s@, CharClass::One('"'))
            + "' (original: '"@ + s@ + "')"@,
{
}

/// The message about an element type that a matmul does not take says so of
/// integers and truth values, and of every other that it is yet to come.
pub proof fn messages_about_element_types_name_them(dtype: DType, message: String)
    requires
        call_ensures(unsupported_dtype_message, (dtype,), message),
    ensures
        dtype is Int ==> message@ == "cuBLAS LT does not support "@ + "integer"@ + " matmul"@,
        dtype is Bool ==> message@ == "cuBLAS LT does not support "@ + "bool"@ + " matmul"@,
        dtype !is Int && dtype !is Bool ==> message@
            == "not yet implemented: cuBLAS LT matmul not yet implemented for "@
            + dtype.name_text(),
{
    reveal_strlit("cuBLAS LT does not support ");
    reveal_strlit("integer");
    reveal_strlit("bool");
    reveal_strlit(" matmul");
    reveal_strlit("cuBLAS LT does not support integer matmul");
    reveal_strlit("cuBLAS LT does not support bool matmul");
}

} // verus!
