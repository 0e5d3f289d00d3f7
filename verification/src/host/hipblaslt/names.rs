//! The names by which rewrite rules write matmul parameters, and their
//! reading.
use vstd::prelude::*;
use vstd::string::*;

use crate::dtype::DType;
use crate::host::hipblaslt::types::{
    hipDataType, hipblasComputeType_t, hipblasLtEpilogue_t, hipblasLtOrder_t, hipblasOperation_t,
};
use crate::text;
use crate::text::{same_text, string_of, trimmed, CharClass};

verus! {

/// `s` without the double quotes around it.
pub open spec fn unquoted(s: Seq<char>) -> Seq<char> {
    text::trim(s, CharClass::One('"'))
}

/// `s` without the double quotes around it.
pub fn unquote(s: &str) -> (r: String)
    ensures
        r@ == unquoted(s@),
{
    let chars = trimmed(s, CharClass::One('"'));
    string_of(chars.as_slice())
}

/// The message about a parameter text that names nothing known.
pub open spec fn unknown_text(what: Seq<char>, s: Seq<char>) -> Seq<char> {
    "Unknown "@ + what + ": '"@ + unquoted(s) + "' (original: '"@ + s + "')"@
}

/// The message about a parameter text `s` that is no known `what`.
pub fn unknown_message(what: &str, s: &str) -> (r: String)
    ensures
        r@ == unknown_text(what@, s@),
{
    let mut out = String::new();
    out.append("Unknown ");
    out.append(what);
    out.append(": '");
    let name = unquote(s);
    out.append(name.as_str());
    out.append("' (original: '");
    out.append(s);
    out.append("')");
    assert(out@ =~= unknown_text(what@, s@));
    out
}

/// The device element type of a matrix of this type, where a matmul takes
/// such matrices: the floating-point types of eight bits and more. TF32 is a
/// compute mode over 32-bit storage.
pub open spec fn matmul_dtype(dtype: DType) -> Option<hipDataType> {
    match dtype {
        DType::F64 => Some(hipDataType::HIP_R_64F),
        DType::F32 => Some(hipDataType::HIP_R_32F),
        DType::F16 => Some(hipDataType::HIP_R_16F),
        DType::Bf16 => Some(hipDataType::HIP_R_16BF),
        DType::TF32 => Some(hipDataType::HIP_R_32F),
        DType::F8E4M3 => Some(hipDataType::HIP_R_8F_E4M3),
        DType::F8E5M2 => Some(hipDataType::HIP_R_8F_E5M2),
        _ => None,
    }
}

/// Whether a matmul takes matrices of this element type.
pub fn matmul_supports(dtype: DType) -> (r: bool)
    ensures
        r == matmul_dtype(dtype) is Some,
{
    match dtype {
        DType::F64
        | DType::F32
        | DType::F16
        | DType::Bf16
        | DType::TF32
        | DType::F8E4M3
        | DType::F8E5M2 => true,
        _ => false,
    }
}

/// The message about an element type that a matmul does not take.
pub open spec fn unsupported_dtype_text(dtype: DType) -> Seq<char> {
    match dtype {
        DType::Int => "cuBLAS LT does not support integer matmul"@,
        DType::Bool => "cuBLAS LT does not support bool matmul"@,
        _ => "not yet implemented: cuBLAS LT matmul not yet implemented for "@ + dtype.name_text(),
    }
}

/// The message about an element type that a matmul does not take.
pub fn unsupported_dtype_message(dtype: DType) -> (r: String)
    ensures
        r@ == unsupported_dtype_text(dtype),
{
    let mut out = String::new();
    match dtype {
        DType::Int => {
            out.append("cuBLAS LT does not support integer matmul");
        },
        DType::Bool => {
            out.append("cuBLAS LT does not support bool matmul");
        },
        _ => {
            out.append("not yet implemented: cuBLAS LT matmul not yet implemented for ");
            out.append(dtype.name());
        },
    }
    assert(out@ =~= unsupported_dtype_text(dtype));
    out
}

/// The device element type of a matrix of this type.
pub fn dtype_to_rocm_dtype(dtype: DType) -> (r: hipDataType)
    requires
        matmul_dtype(dtype) is Some,
    ensures
        Some(r) == matmul_dtype(dtype),
{
    match dtype {
        DType::F64 => hipDataType::HIP_R_64F,
        DType::F32 => hipDataType::HIP_R_32F,
        DType::F16 => hipDataType::HIP_R_16F,
        DType::Bf16 => hipDataType::HIP_R_16BF,
        DType::TF32 => hipDataType::HIP_R_32F,
        DType::F8E4M3 => hipDataType::HIP_R_8F_E4M3,
        _ => hipDataType::HIP_R_8F_E5M2,
    }
}

/// The compute type and the scale type that a matmul of this element type
/// uses by default.
pub open spec fn default_compute_and_scale(dtype: DType) -> Option<(hipblasComputeType_t, DType)> {
    match dtype {
        DType::F64 => Some((hipblasComputeType_t::HIPBLAS_COMPUTE_64F, DType::F64)),
        DType::F32 => Some((hipblasComputeType_t::HIPBLAS_COMPUTE_32F, DType::F32)),
        DType::F16 => Some((hipblasComputeType_t::HIPBLAS_COMPUTE_32F, DType::F32)),
        DType::Bf16 => Some((hipblasComputeType_t::HIPBLAS_COMPUTE_32F_FAST_16BF, DType::F32)),
        DType::TF32 => Some((hipblasComputeType_t::HIPBLAS_COMPUTE_32F_FAST_TF32, DType::F32)),
        DType::F8E4M3 => Some((hipblasComputeType_t::HIPBLAS_COMPUTE_32F, DType::F32)),
        DType::F8E5M2 => Some((hipblasComputeType_t::HIPBLAS_COMPUTE_32F, DType::F32)),
        _ => None,
    }
}

/// The compute type and the scale type that a matmul of this element type
/// uses by default.
pub fn default_compute_and_scale_dtype(dtype: DType) -> (r: (hipblasComputeType_t, DType))
    requires
        matmul_dtype(dtype) is Some,
    ensures
        Some(r) == default_compute_and_scale(dtype),
{
    match dtype {
        DType::F64 => (hipblasComputeType_t::HIPBLAS_COMPUTE_64F, DType::F64),
        DType::F32 => (hipblasComputeType_t::HIPBLAS_COMPUTE_32F, DType::F32),
        DType::F16 => (hipblasComputeType_t::HIPBLAS_COMPUTE_32F, DType::F32),
        DType::Bf16 => (hipblasComputeType_t::HIPBLAS_COMPUTE_32F_FAST_16BF, DType::F32),
        DType::TF32 => (hipblasComputeType_t::HIPBLAS_COMPUTE_32F_FAST_TF32, DType::F32),
        DType::F8E4M3 => (hipblasComputeType_t::HIPBLAS_COMPUTE_32F, DType::F32),
        _ => (hipblasComputeType_t::HIPBLAS_COMPUTE_32F, DType::F32),
    }
}

/// The compute type that a parameter text names; `default` stands for the
/// default of the element type. The quotes around an egglog string are ignored.
pub open spec fn compute_type_of(s: Seq<char>, default_dtype: DType) -> Option<
    hipblasComputeType_t,
> {
    let name = unquoted(s);
    if name == "default"@ {
        match default_compute_and_scale(default_dtype) {
            Some(pair) => Some(pair.0),
            None => None,
        }
    } else if name == "64F"@ {
        Some(hipblasComputeType_t::HIPBLAS_COMPUTE_64F)
    } else if name == "32F"@ {
        Some(hipblasComputeType_t::HIPBLAS_COMPUTE_32F)
    } else if name == "32F_FAST_16BF"@ {
        Some(hipblasComputeType_t::HIPBLAS_COMPUTE_32F_FAST_16BF)
    } else if name == "32F_FAST_TF32"@ {
        Some(hipblasComputeType_t::HIPBLAS_COMPUTE_32F_FAST_TF32)
    } else {
        None
    }
}

/// The compute type that a parameter text names; `default` stands for the
/// default of the element type. `None` where the name is unknown.
pub fn try_parse_hipblaslt_compute_type(s: &str, default_dtype: DType) -> (r: Option<
    hipblasComputeType_t,
>)
    ensures
        r == compute_type_of(s@, default_dtype),
{
    let name = unquote(s);
    let name = name.as_str();
    if same_text(name, "default") {
        if matmul_supports(default_dtype) {
            Some(default_compute_and_scale_dtype(default_dtype).0)
        } else {
            None
        }
    } else if same_text(name, "64F") {
        Some(hipblasComputeType_t::HIPBLAS_COMPUTE_64F)
    } else if same_text(name, "32F") {
        Some(hipblasComputeType_t::HIPBLAS_COMPUTE_32F)
    } else if same_text(name, "32F_FAST_16BF") {
        Some(hipblasComputeType_t::HIPBLAS_COMPUTE_32F_FAST_16BF)
    } else if same_text(name, "32F_FAST_TF32") {
        Some(hipblasComputeType_t::HIPBLAS_COMPUTE_32F_FAST_TF32)
    } else {
        None
    }
}

/// The compute type that a parameter text names; `default` stands for the
/// default of the element type.
pub fn parse_hipblaslt_compute_type(s: &str, default_dtype: DType) -> (r: hipblasComputeType_t)
    requires
        compute_type_of(s@, default_dtype) is Some,
    ensures
        Some(r) == compute_type_of(s@, default_dtype),
{
    try_parse_hipblaslt_compute_type(s, default_dtype).unwrap()
}

/// The scale type that a parameter text names; `default` stands for the default
/// of the element type. The quotes around an egglog string are ignored.
pub open spec fn scale_dtype_of(s: Seq<char>, default_dtype: DType) -> Option<DType> {
    let name = unquoted(s);
    if name == "default"@ {
        match default_compute_and_scale(default_dtype) {
            Some(pair) => Some(pair.1),
            None => None,
        }
    } else if name == "F64"@ {
        Some(DType::F64)
    } else if name == "F32"@ {
        Some(DType::F32)
    } else if name == "F16"@ {
        Some(DType::F16)
    } else if name == "Bf16"@ {
        Some(DType::Bf16)
    } else if name == "TF32"@ {
        Some(DType::TF32)
    } else if name == "F8E4M3"@ {
        Some(DType::F8E4M3)
    } else if name == "F8E5M2"@ {
        Some(DType::F8E5M2)
    } else {
        None
    }
}

/// The scale type that a parameter text names; `default` stands for the default
/// of the element type. `None` where the name is unknown.
pub fn try_parse_hipblaslt_scale_dtype(s: &str, default_dtype: DType) -> (r: Option<DType>)
    ensures
        r == scale_dtype_of(s@, default_dtype),
{
    let name = unquote(s);
    let name = name.as_str();
    if same_text(name, "default") {
        if matmul_supports(default_dtype) {
            Some(default_compute_and_scale_dtype(default_dtype).1)
        } else {
            None
        }
    } else if same_text(name, "F64") {
        Some(DType::F64)
    } else if same_text(name, "F32") {
        Some(DType::F32)
    } else if same_text(name, "F16") {
        Some(DType::F16)
    } else if same_text(name, "Bf16") {
        Some(DType::Bf16)
    } else if same_text(name, "TF32") {
        Some(DType::TF32)
    } else if same_text(name, "F8E4M3") {
        Some(DType::F8E4M3)
    } else if same_text(name, "F8E5M2") {
        Some(DType::F8E5M2)
    } else {
        None
    }
}

/// The scale type that a parameter text names; `default` stands for the default
/// of the element type.
pub fn parse_hipblaslt_scale_dtype(s: &str, default_dtype: DType) -> (r: DType)
    requires
        scale_dtype_of(s@, default_dtype) is Some,
    ensures
        Some(r) == scale_dtype_of(s@, default_dtype),
{
    try_parse_hipblaslt_scale_dtype(s, default_dtype).unwrap()
}

/// The storage order that a parameter text names. The quotes around an egglog string are ignored.
pub open spec fn order_of(s: Seq<char>) -> Option<hipblasLtOrder_t> {
    let name = unquoted(s);
    if name == "COL"@ {
        Some(hipblasLtOrder_t::HIPBLASLT_ORDER_COL)
    } else if name == "ROW"@ {
        Some(hipblasLtOrder_t::HIPBLASLT_ORDER_ROW)
    } else {
        None
    }
}

/// The storage order that a parameter text names. `None` where the name is unknown.
pub fn try_parse_hipblaslt_order(s: &str) -> (r: Option<hipblasLtOrder_t>)
    ensures
        r == order_of(s@),
{
    let name = unquote(s);
    let name = name.as_str();
    if same_text(name, "COL") {
        Some(hipblasLtOrder_t::HIPBLASLT_ORDER_COL)
    } else if same_text(name, "ROW") {
        Some(hipblasLtOrder_t::HIPBLASLT_ORDER_ROW)
    } else {
        None
    }
}

/// The storage order that a parameter text names.
pub fn parse_hipblaslt_order(s: &str) -> (r: hipblasLtOrder_t)
    requires
        order_of(s@) is Some,
    ensures
        Some(r) == order_of(s@),
{
    try_parse_hipblaslt_order(s).unwrap()
}

/// The transposition that a parameter text names. The quotes around an egglog string are ignored.
pub open spec fn op_of(s: Seq<char>) -> Option<hipblasOperation_t> {
    let name = unquoted(s);
    if name == "T"@ {
        Some(hipblasOperation_t::HIPBLAS_OP_T)
    } else if name == "N"@ {
        Some(hipblasOperation_t::HIPBLAS_OP_N)
    } else if name == "C"@ {
        Some(hipblasOperation_t::HIPBLAS_OP_C)
    } else {
        None
    }
}

/// The transposition that a parameter text names. `None` where the name is unknown.
pub fn try_parse_hipblaslt_op(s: &str) -> (r: Option<hipblasOperation_t>)
    ensures
        r == op_of(s@),
{
    let name = unquote(s);
    let name = name.as_str();
    if same_text(name, "T") {
        Some(hipblasOperation_t::HIPBLAS_OP_T)
    } else if same_text(name, "N") {
        Some(hipblasOperation_t::HIPBLAS_OP_N)
    } else if same_text(name, "C") {
        Some(hipblasOperation_t::HIPBLAS_OP_C)
    } else {
        None
    }
}

/// The transposition that a parameter text names.
pub fn parse_hipblaslt_op(s: &str) -> (r: hipblasOperation_t)
    requires
        op_of(s@) is Some,
    ensures
        Some(r) == op_of(s@),
{
    try_parse_hipblaslt_op(s).unwrap()
}

/// The epilogue that a parameter text names. The quotes around an egglog string are ignored.
pub open spec fn epilogue_of(s: Seq<char>) -> Option<hipblasLtEpilogue_t> {
    let name = unquoted(s);
    if name == "DEFAULT"@ {
        Some(hipblasLtEpilogue_t::HIPBLASLT_EPILOGUE_DEFAULT)
    } else if name == "BIAS"@ {
        Some(hipblasLtEpilogue_t::HIPBLASLT_EPILOGUE_BIAS)
    } else if name == "RELU"@ {
        Some(hipblasLtEpilogue_t::HIPBLASLT_EPILOGUE_RELU)
    } else if name == "RELU_BIAS"@ {
        Some(hipblasLtEpilogue_t::HIPBLASLT_EPILOGUE_RELU_BIAS)
    } else if name == "GELU"@ {
        Some(hipblasLtEpilogue_t::HIPBLASLT_EPILOGUE_GELU)
    } else if name == "GELU_BIAS"@ {
        Some(hipblasLtEpilogue_t::HIPBLASLT_EPILOGUE_GELU_BIAS)
    } else {
        None
    }
}

/// The epilogue that a parameter text names. `None` where the name is unknown.
pub fn try_parse_hipblaslt_epilogue(s: &str) -> (r: Option<hipblasLtEpilogue_t>)
    ensures
        r == epilogue_of(s@),
{
    let name = unquote(s);
    let name = name.as_str();
    if same_text(name, "DEFAULT") {
        Some(hipblasLtEpilogue_t::HIPBLASLT_EPILOGUE_DEFAULT)
    } else if same_text(name, "BIAS") {
        Some(hipblasLtEpilogue_t::HIPBLASLT_EPILOGUE_BIAS)
    } else if same_text(name, "RELU") {
        Some(hipblasLtEpilogue_t::HIPBLASLT_EPILOGUE_RELU)
    } else if same_text(name, "RELU_BIAS") {
        Some(hipblasLtEpilogue_t::HIPBLASLT_EPILOGUE_RELU_BIAS)
    } else if same_text(name, "GELU") {
        Some(hipblasLtEpilogue_t::HIPBLASLT_EPILOGUE_GELU)
    } else if same_text(name, "GELU_BIAS") {
        Some(hipblasLtEpilogue_t::HIPBLASLT_EPILOGUE_GELU_BIAS)
    } else {
        None
    }
}

/// The epilogue that a parameter text names.
pub fn parse_hipblaslt_epilogue(s: &str) -> (r: hipblasLtEpilogue_t)
    requires
        epilogue_of(s@) is Some,
    ensures
        Some(r) == epilogue_of(s@),
{
    try_parse_hipblaslt_epilogue(s).unwrap()
}

/// The parameter text of a compute type.
pub open spec fn compute_type_text(compute_type: hipblasComputeType_t) -> Seq<char> {
    match compute_type {
        hipblasComputeType_t::HIPBLAS_COMPUTE_64F => "64F"@,
        hipblasComputeType_t::HIPBLAS_COMPUTE_32F => "32F"@,
        hipblasComputeType_t::HIPBLAS_COMPUTE_32F_FAST_16BF => "32F_FAST_16BF"@,
        hipblasComputeType_t::HIPBLAS_COMPUTE_32F_FAST_TF32 => "32F_FAST_TF32"@,
        _ => "other"@,
    }
}

/// The parameter text of a compute type.
pub fn compute_type_name(compute_type: hipblasComputeType_t) -> (r: &'static str)
    ensures
        r@ == compute_type_text(compute_type),
{
    match compute_type {
        hipblasComputeType_t::HIPBLAS_COMPUTE_64F => "64F",
        hipblasComputeType_t::HIPBLAS_COMPUTE_32F => "32F",
        hipblasComputeType_t::HIPBLAS_COMPUTE_32F_FAST_16BF => "32F_FAST_16BF",
        hipblasComputeType_t::HIPBLAS_COMPUTE_32F_FAST_TF32 => "32F_FAST_TF32",
        _ => "other",
    }
}

/// The parameter text of a storage order.
pub open spec fn order_text(order: hipblasLtOrder_t) -> Seq<char> {
    match order {
        hipblasLtOrder_t::HIPBLASLT_ORDER_COL => "COL"@,
        hipblasLtOrder_t::HIPBLASLT_ORDER_ROW => "ROW"@,
        _ => "other"@,
    }
}

/// The parameter text of a storage order.
pub fn order_name(order: hipblasLtOrder_t) -> (r: &'static str)
    ensures
        r@ == order_text(order),
{
    match order {
        hipblasLtOrder_t::HIPBLASLT_ORDER_COL => "COL",
        hipblasLtOrder_t::HIPBLASLT_ORDER_ROW => "ROW",
        _ => "other",
    }
}

/// The parameter text of a transposition.
pub open spec fn op_text(op: hipblasOperation_t) -> Seq<char> {
    match op {
        hipblasOperation_t::HIPBLAS_OP_N => "N"@,
        hipblasOperation_t::HIPBLAS_OP_T => "T"@,
        hipblasOperation_t::HIPBLAS_OP_C => "C"@,
    }
}

/// The parameter text of a transposition.
pub fn transpose_op_name(op: hipblasOperation_t) -> (r: &'static str)
    ensures
        r@ == op_text(op),
{
    match op {
        hipblasOperation_t::HIPBLAS_OP_N => "N",
        hipblasOperation_t::HIPBLAS_OP_T => "T",
        hipblasOperation_t::HIPBLAS_OP_C => "C",
    }
}

/// The parameter text of an epilogue.
pub open spec fn epilogue_text(epilogue: hipblasLtEpilogue_t) -> Seq<char> {
    match epilogue {
        hipblasLtEpilogue_t::HIPBLASLT_EPILOGUE_DEFAULT => "DEFAULT"@,
        hipblasLtEpilogue_t::HIPBLASLT_EPILOGUE_BIAS => "BIAS"@,
        hipblasLtEpilogue_t::HIPBLASLT_EPILOGUE_RELU => "RELU"@,
        hipblasLtEpilogue_t::HIPBLASLT_EPILOGUE_RELU_BIAS => "RELU_BIAS"@,
        hipblasLtEpilogue_t::HIPBLASLT_EPILOGUE_GELU => "GELU"@,
        hipblasLtEpilogue_t::HIPBLASLT_EPILOGUE_GELU_BIAS => "GELU_BIAS"@,
        _ => "other"@,
    }
}

/// The parameter text of an epilogue.
pub fn epilogue_name(epilogue: hipblasLtEpilogue_t) -> (r: &'static str)
    ensures
        r@ == epilogue_text(epilogue),
{
    match epilogue {
        hipblasLtEpilogue_t::HIPBLASLT_EPILOGUE_DEFAULT => "DEFAULT",
        hipblasLtEpilogue_t::HIPBLASLT_EPILOGUE_BIAS => "BIAS",
        hipblasLtEpilogue_t::HIPBLASLT_EPILOGUE_RELU => "RELU",
        hipblasLtEpilogue_t::HIPBLASLT_EPILOGUE_RELU_BIAS => "RELU_BIAS",
        hipblasLtEpilogue_t::HIPBLASLT_EPILOGUE_GELU => "GELU",
        hipblasLtEpilogue_t::HIPBLASLT_EPILOGUE_GELU_BIAS => "GELU_BIAS",
        _ => "other",
    }
}

/// The header name of an epilogue.
pub open spec fn epilogue_debug_text(epilogue: hipblasLtEpilogue_t) -> Seq<char> {
    match epilogue {
        hipblasLtEpilogue_t::HIPBLASLT_EPILOGUE_DEFAULT => "HIPBLASLT_EPILOGUE_DEFAULT"@,
        hipblasLtEpilogue_t::HIPBLASLT_EPILOGUE_RELU => "HIPBLASLT_EPILOGUE_RELU"@,
        hipblasLtEpilogue_t::HIPBLASLT_EPILOGUE_BIAS => "HIPBLASLT_EPILOGUE_BIAS"@,
        hipblasLtEpilogue_t::HIPBLASLT_EPILOGUE_RELU_BIAS => "HIPBLASLT_EPILOGUE_RELU_BIAS"@,
        hipblasLtEpilogue_t::HIPBLASLT_EPILOGUE_GELU => "HIPBLASLT_EPILOGUE_GELU"@,
        hipblasLtEpilogue_t::HIPBLASLT_EPILOGUE_GELU_BIAS => "HIPBLASLT_EPILOGUE_GELU_BIAS"@,
        hipblasLtEpilogue_t::HIPBLASLT_EPILOGUE_RELU_AUX => "HIPBLASLT_EPILOGUE_RELU_AUX"@,
        hipblasLtEpilogue_t::HIPBLASLT_EPILOGUE_RELU_AUX_BIAS =>
            "HIPBLASLT_EPILOGUE_RELU_AUX_BIAS"@,
        hipblasLtEpilogue_t::HIPBLASLT_EPILOGUE_GELU_AUX => "HIPBLASLT_EPILOGUE_GELU_AUX"@,
        hipblasLtEpilogue_t::HIPBLASLT_EPILOGUE_GELU_AUX_BIAS =>
            "HIPBLASLT_EPILOGUE_GELU_AUX_BIAS"@,
        hipblasLtEpilogue_t::HIPBLASLT_EPILOGUE_DGELU => "HIPBLASLT_EPILOGUE_DGELU"@,
        hipblasLtEpilogue_t::HIPBLASLT_EPILOGUE_DGELU_BGRAD => "HIPBLASLT_EPILOGUE_DGELU_BGRAD"@,
        hipblasLtEpilogue_t::HIPBLASLT_EPILOGUE_BGRADA => "HIPBLASLT_EPILOGUE_BGRADA"@,
        hipblasLtEpilogue_t::HIPBLASLT_EPILOGUE_BGRADB => "HIPBLASLT_EPILOGUE_BGRADB"@,
        hipblasLtEpilogue_t::HIPBLASLT_EPILOGUE_SWISH_EXT => "HIPBLASLT_EPILOGUE_SWISH_EXT"@,
        hipblasLtEpilogue_t::HIPBLASLT_EPILOGUE_SWISH_BIAS_EXT =>
            "HIPBLASLT_EPILOGUE_SWISH_BIAS_EXT"@,
        hipblasLtEpilogue_t::HIPBLASLT_EPILOGUE_CLAMP_EXT => "HIPBLASLT_EPILOGUE_CLAMP_EXT"@,
        hipblasLtEpilogue_t::HIPBLASLT_EPILOGUE_CLAMP_BIAS_EXT =>
            "HIPBLASLT_EPILOGUE_CLAMP_BIAS_EXT"@,
        hipblasLtEpilogue_t::HIPBLASLT_EPILOGUE_CLAMP_AUX_EXT =>
            "HIPBLASLT_EPILOGUE_CLAMP_AUX_EXT"@,
        hipblasLtEpilogue_t::HIPBLASLT_EPILOGUE_CLAMP_AUX_BIAS_EXT =>
            "HIPBLASLT_EPILOGUE_CLAMP_AUX_BIAS_EXT"@,
        hipblasLtEpilogue_t::HIPBLASLT_EPILOGUE_SIGMOID_EXT => "HIPBLASLT_EPILOGUE_SIGMOID_EXT"@,
        hipblasLtEpilogue_t::HIPBLASLT_EPILOGUE_SIGMOID_BIAS_EXT =>
            "HIPBLASLT_EPILOGUE_SIGMOID_BIAS_EXT"@,
    }
}

/// The header name of an epilogue.
pub fn epilogue_debug_name(epilogue: hipblasLtEpilogue_t) -> (r: &'static str)
    ensures
        r@ == epilogue_debug_text(epilogue),
{
    match epilogue {
        hipblasLtEpilogue_t::HIPBLASLT_EPILOGUE_DEFAULT => "HIPBLASLT_EPILOGUE_DEFAULT",
        hipblasLtEpilogue_t::HIPBLASLT_EPILOGUE_RELU => "HIPBLASLT_EPILOGUE_RELU",
        hipblasLtEpilogue_t::HIPBLASLT_EPILOGUE_BIAS => "HIPBLASLT_EPILOGUE_BIAS",
        hipblasLtEpilogue_t::HIPBLASLT_EPILOGUE_RELU_BIAS => "HIPBLASLT_EPILOGUE_RELU_BIAS",
        hipblasLtEpilogue_t::HIPBLASLT_EPILOGUE_GELU => "HIPBLASLT_EPILOGUE_GELU",
        hipblasLtEpilogue_t::HIPBLASLT_EPILOGUE_GELU_BIAS => "HIPBLASLT_EPILOGUE_GELU_BIAS",
        hipblasLtEpilogue_t::HIPBLASLT_EPILOGUE_RELU_AUX => "HIPBLASLT_EPILOGUE_RELU_AUX",
        hipblasLtEpilogue_t::HIPBLASLT_EPILOGUE_RELU_AUX_BIAS => "HIPBLASLT_EPILOGUE_RELU_AUX_BIAS",
        hipblasLtEpilogue_t::HIPBLASLT_EPILOGUE_GELU_AUX => "HIPBLASLT_EPILOGUE_GELU_AUX",
        hipblasLtEpilogue_t::HIPBLASLT_EPILOGUE_GELU_AUX_BIAS => "HIPBLASLT_EPILOGUE_GELU_AUX_BIAS",
        hipblasLtEpilogue_t::HIPBLASLT_EPILOGUE_DGELU => "HIPBLASLT_EPILOGUE_DGELU",
        hipblasLtEpilogue_t::HIPBLASLT_EPILOGUE_DGELU_BGRAD => "HIPBLASLT_EPILOGUE_DGELU_BGRAD",
        hipblasLtEpilogue_t::HIPBLASLT_EPILOGUE_BGRADA => "HIPBLASLT_EPILOGUE_BGRADA",
        hipblasLtEpilogue_t::HIPBLASLT_EPILOGUE_BGRADB => "HIPBLASLT_EPILOGUE_BGRADB",
        hipblasLtEpilogue_t::HIPBLASLT_EPILOGUE_SWISH_EXT => "HIPBLASLT_EPILOGUE_SWISH_EXT",
        hipblasLtEpilogue_t::HIPBLASLT_EPILOGUE_SWISH_BIAS_EXT =>
            "HIPBLASLT_EPILOGUE_SWISH_BIAS_EXT",
        hipblasLtEpilogue_t::HIPBLASLT_EPILOGUE_CLAMP_EXT => "HIPBLASLT_EPILOGUE_CLAMP_EXT",
        hipblasLtEpilogue_t::HIPBLASLT_EPILOGUE_CLAMP_BIAS_EXT =>
            "HIPBLASLT_EPILOGUE_CLAMP_BIAS_EXT",
        hipblasLtEpilogue_t::HIPBLASLT_EPILOGUE_CLAMP_AUX_EXT => "HIPBLASLT_EPILOGUE_CLAMP_AUX_EXT",
        hipblasLtEpilogue_t::HIPBLASLT_EPILOGUE_CLAMP_AUX_BIAS_EXT =>
            "HIPBLASLT_EPILOGUE_CLAMP_AUX_BIAS_EXT",
        hipblasLtEpilogue_t::HIPBLASLT_EPILOGUE_SIGMOID_EXT => "HIPBLASLT_EPILOGUE_SIGMOID_EXT",
        hipblasLtEpilogue_t::HIPBLASLT_EPILOGUE_SIGMOID_BIAS_EXT =>
            "HIPBLASLT_EPILOGUE_SIGMOID_BIAS_EXT",
    }
}

} // verus!
