//! The hipBLASLt and HIP enumerations that a matmul is described with. The
//! variants carry the names of the C headers.
use vstd::prelude::*;

verus! {

/// Element type of a device matrix.
#[allow(non_camel_case_types)]
#[derive(Clone, Copy, Debug, PartialEq, Eq, Hash, Structural)]
pub enum hipDataType {
    HIP_R_32F,
    HIP_R_64F,
    HIP_R_16F,
    HIP_R_8I,
    HIP_C_32F,
    HIP_C_64F,
    HIP_C_16F,
    HIP_C_8I,
    HIP_R_8U,
    HIP_C_8U,
    HIP_R_32I,
    HIP_C_32I,
    HIP_R_32U,
    HIP_C_32U,
    HIP_R_16BF,
    HIP_C_16BF,
    HIP_R_4I,
    HIP_C_4I,
    HIP_R_4U,
    HIP_C_4U,
    HIP_R_16I,
    HIP_C_16I,
    HIP_R_16U,
    HIP_C_16U,
    HIP_R_64I,
    HIP_C_64I,
    HIP_R_64U,
    HIP_C_64U,
    HIP_R_8F_E4M3,
    HIP_R_8F_E5M2,
    HIP_R_8F_UE8M0,
    HIP_R_6F_E2M3,
    HIP_R_6F_E3M2,
    HIP_R_4F_E2M1,
    HIP_R_8F_E4M3_FNUZ,
    HIP_R_8F_E5M2_FNUZ,
}

/// Precision in which a matmul accumulates.
#[allow(non_camel_case_types)]
#[derive(Clone, Copy, Debug, PartialEq, Eq, Hash, Structural)]
pub enum hipblasComputeType_t {
    HIPBLAS_COMPUTE_16F,
    HIPBLAS_COMPUTE_16F_PEDANTIC,
    HIPBLAS_COMPUTE_32F,
    HIPBLAS_COMPUTE_32F_PEDANTIC,
    HIPBLAS_COMPUTE_32F_FAST_16F,
    HIPBLAS_COMPUTE_32F_FAST_16BF,
    HIPBLAS_COMPUTE_32F_FAST_TF32,
    HIPBLAS_COMPUTE_64F,
    HIPBLAS_COMPUTE_64F_PEDANTIC,
    HIPBLAS_COMPUTE_32I,
    HIPBLAS_COMPUTE_32I_PEDANTIC,
    HIPBLAS_COMPUTE_32F_FAST_8F_FNUZ,
    HIPBLAS_COMPUTE_32F_FAST_8BF_FNUZ,
    HIPBLAS_COMPUTE_32F_FAST_8F8BF_FNUZ,
    HIPBLAS_COMPUTE_32F_FAST_8BF8F_FNUZ,
}

/// Operation fused behind a matmul.
#[allow(non_camel_case_types)]
#[derive(Clone, Copy, Debug, PartialEq, Eq, Hash, Structural)]
pub enum hipblasLtEpilogue_t {
    HIPBLASLT_EPILOGUE_DEFAULT,
    HIPBLASLT_EPILOGUE_RELU,
    HIPBLASLT_EPILOGUE_BIAS,
    HIPBLASLT_EPILOGUE_RELU_BIAS,
    HIPBLASLT_EPILOGUE_GELU,
    HIPBLASLT_EPILOGUE_GELU_BIAS,
    HIPBLASLT_EPILOGUE_RELU_AUX,
    HIPBLASLT_EPILOGUE_RELU_AUX_BIAS,
    HIPBLASLT_EPILOGUE_GELU_AUX,
    HIPBLASLT_EPILOGUE_GELU_AUX_BIAS,
    HIPBLASLT_EPILOGUE_DGELU,
    HIPBLASLT_EPILOGUE_DGELU_BGRAD,
    HIPBLASLT_EPILOGUE_BGRADA,
    HIPBLASLT_EPILOGUE_BGRADB,
    HIPBLASLT_EPILOGUE_SWISH_EXT,
    HIPBLASLT_EPILOGUE_SWISH_BIAS_EXT,
    HIPBLASLT_EPILOGUE_CLAMP_EXT,
    HIPBLASLT_EPILOGUE_CLAMP_BIAS_EXT,
    HIPBLASLT_EPILOGUE_CLAMP_AUX_EXT,
    HIPBLASLT_EPILOGUE_CLAMP_AUX_BIAS_EXT,
    HIPBLASLT_EPILOGUE_SIGMOID_EXT,
    HIPBLASLT_EPILOGUE_SIGMOID_BIAS_EXT,
}

/// Storage order of a device matrix.
#[allow(non_camel_case_types)]
#[derive(Clone, Copy, Debug, PartialEq, Eq, Hash, Structural)]
pub enum hipblasLtOrder_t {
    HIPBLASLT_ORDER_COL,
    HIPBLASLT_ORDER_ROW,
    HIPBLASLT_ORDER_COL16_4R16,
    HIPBLASLT_ORDER_COL16_4R8,
    HIPBLASLT_ORDER_COL16_4R4,
    HIPBLASLT_ORDER_COL16_4R2,
}

/// Transposition applied to an operand.
#[allow(non_camel_case_types)]
#[derive(Clone, Copy, Debug, PartialEq, Eq, Hash, Structural)]
pub enum hipblasOperation_t {
    HIPBLAS_OP_N,
    HIPBLAS_OP_T,
    HIPBLAS_OP_C,
}

/// Whether the operation fused behind a matmul adds a bias vector.
pub open spec fn uses_bias(epilogue: hipblasLtEpilogue_t) -> bool {
    ||| epilogue is HIPBLASLT_EPILOGUE_BIAS
    ||| epilogue is HIPBLASLT_EPILOGUE_RELU_BIAS
    ||| epilogue is HIPBLASLT_EPILOGUE_RELU_AUX_BIAS
    ||| epilogue is HIPBLASLT_EPILOGUE_GELU_BIAS
    ||| epilogue is HIPBLASLT_EPILOGUE_GELU_AUX_BIAS
}

/// Whether the operation fused behind a matmul reads a bias vector that the
/// caller supplies as an input.
pub fn epilogue_uses_bias(epilogue: hipblasLtEpilogue_t) -> (r: bool)
    ensures
        r == uses_bias(epilogue),
{
    match epilogue {
        hipblasLtEpilogue_t::HIPBLASLT_EPILOGUE_BIAS => true,
        hipblasLtEpilogue_t::HIPBLASLT_EPILOGUE_RELU_BIAS => true,
        hipblasLtEpilogue_t::HIPBLASLT_EPILOGUE_RELU_AUX_BIAS => true,
        hipblasLtEpilogue_t::HIPBLASLT_EPILOGUE_GELU_BIAS => true,
        hipblasLtEpilogue_t::HIPBLASLT_EPILOGUE_GELU_AUX_BIAS => true,
        _ => false,
    }
}

/// Whether a matrix of this element type needs a scale factor for the whole
/// tensor: the eight-bit floating-point formats.
pub open spec fn needs_tensorwide_scale(dtype: hipDataType) -> bool {
    dtype is HIP_R_8F_E4M3 || dtype is HIP_R_8F_E5M2
}

/// Whether a matrix of this element type needs a scale factor for the whole
/// tensor.
pub fn rocm_dtype_needs_tensorwide_scale(dtype: hipDataType) -> (r: bool)
    ensures
        r == needs_tensorwide_scale(dtype),
{
    match dtype {
        hipDataType::HIP_R_8F_E4M3 => true,
        hipDataType::HIP_R_8F_E5M2 => true,
        _ => false,
    }
}

} // verus!
