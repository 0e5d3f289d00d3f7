#![allow(non_snake_case)]

use std::collections::HashMap;

use luminal_rocm_lite::dtype::DType;
use luminal_rocm_lite::host::hipblaslt::error::LtError;
use luminal_rocm_lite::host::hipblaslt::pointers::resolve_hipblaslt_pointers;
use luminal_rocm_lite::host::hipblaslt::scalar::{HostScalar, LtScalar};
use luminal_rocm_lite::host::hipblaslt::types::{
    epilogue_uses_bias, hipDataType, hipblasLtEpilogue_t, rocm_dtype_needs_tensorwide_scale,
};
use luminal_rocm_lite::host::{DeviceBuffer, NodeIndex};

fn scalar(value: f64) -> HostScalar {
    HostScalar {
        double: value.to_bits(),
        single: (value as f32).to_bits(),
        half: half::f16::from_f32(value as f32).to_bits(),
        brain: half::bf16::from_f32(value as f32).to_bits(),
    }
}

fn buffers_for(entries: &[(NodeIndex, u64)]) -> HashMap<NodeIndex, DeviceBuffer> {
    entries
        .iter()
        .map(|(node, ptr)| (*node, DeviceBuffer::new(*ptr, 16)))
        .collect()
}

#[test]
fn lt_scalar_packs_f32_scale_values() {
    match LtScalar::one(DType::F32).unwrap() {
        LtScalar::F32(value) => assert_eq!(f32::from_bits(value), 1.0),
        other => panic!("expected f32 scalar, got {other:?}"),
    }

    match LtScalar::zero(DType::F32).unwrap() {
        LtScalar::F32(value) => assert_eq!(f32::from_bits(value), 0.0),
        other => panic!("expected f32 scalar, got {other:?}"),
    }
}

#[test]
fn lt_scalar_packs_f64_scale_values() {
    match LtScalar::one(DType::F64).unwrap() {
        LtScalar::F64(value) => assert_eq!(f64::from_bits(value), 1.0),
        other => panic!("expected f64 scalar, got {other:?}"),
    }

    match LtScalar::zero(DType::F64).unwrap() {
        LtScalar::F64(value) => assert_eq!(f64::from_bits(value), 0.0),
        other => panic!("expected f64 scalar, got {other:?}"),
    }
}

#[test]
fn lt_scalar_packs_low_precision_scale_values() {
    match LtScalar::one(DType::F16).unwrap() {
        LtScalar::F16(value) => assert_eq!(f32::from(half::f16::from_bits(value)), 1.0),
        other => panic!("expected f16 scalar, got {other:?}"),
    }

    match LtScalar::zero(DType::Bf16).unwrap() {
        LtScalar::Bf16(value) => assert_eq!(f32::from(half::bf16::from_bits(value)), 0.0),
        other => panic!("expected bf16 scalar, got {other:?}"),
    }
}

#[test]
fn lt_scalar_rejects_non_host_scalar_scale_dtypes() {
    assert!(LtScalar::one(DType::TF32).is_err());
    assert!(LtScalar::zero(DType::F8E4M3).is_err());
}

#[test]
fn fp8_rocm_dtypes_request_tensorwide_scales() {
    assert!(rocm_dtype_needs_tensorwide_scale(
        hipDataType::HIP_R_8F_E4M3
    ));
    assert!(rocm_dtype_needs_tensorwide_scale(
        hipDataType::HIP_R_8F_E5M2
    ));
    assert!(!rocm_dtype_needs_tensorwide_scale(hipDataType::HIP_R_32F));
}

#[test]
fn hipblasLt_pointers_alias_output_as_c_for_two_input_beta_zero() {
    let output: NodeIndex = 0;
    let a: NodeIndex = 1;
    let b: NodeIndex = 2;
    let buffers = buffers_for(&[(output, 0xD000), (a, 0xA000), (b, 0xB000)]);

    let ptrs = resolve_hipblaslt_pointers(
        output,
        &[a, b],
        &buffers,
        scalar(0.0),
        hipblasLtEpilogue_t::HIPBLASLT_EPILOGUE_DEFAULT,
        false,
        false,
    )
    .unwrap();

    assert_eq!(ptrs.a, 0xA000);
    assert_eq!(ptrs.b, 0xB000);
    assert_eq!(ptrs.c, 0xD000);
    assert_eq!(ptrs.d, 0xD000);
    assert_eq!(ptrs.bias, None);
}

#[test]
fn hipblasLt_pointers_ignore_extra_inputs_for_beta_zero() {
    let output: NodeIndex = 0;
    let a: NodeIndex = 1;
    let b: NodeIndex = 2;
    let extra: NodeIndex = 3;
    let buffers = buffers_for(&[(output, 0xD000), (a, 0xA000), (b, 0xB000), (extra, 0xEEEE)]);

    let ptrs = resolve_hipblaslt_pointers(
        output,
        &[a, b, extra],
        &buffers,
        scalar(0.0),
        hipblasLtEpilogue_t::HIPBLASLT_EPILOGUE_DEFAULT,
        false,
        false,
    )
    .unwrap();

    assert_eq!(ptrs.a, 0xA000);
    assert_eq!(ptrs.b, 0xB000);
    assert_eq!(ptrs.c, 0xD000);
    assert_eq!(ptrs.d, 0xD000);
    assert_eq!(ptrs.bias, None);
}

#[test]
fn hipblasLt_pointers_use_distinct_c_input_when_present() {
    let output: NodeIndex = 0;
    let a: NodeIndex = 1;
    let b: NodeIndex = 2;
    let c: NodeIndex = 3;
    let buffers = buffers_for(&[(output, 0xD000), (a, 0xA000), (b, 0xB000), (c, 0xC000)]);

    let ptrs = resolve_hipblaslt_pointers(
        output,
        &[a, b, c],
        &buffers,
        scalar(1.0),
        hipblasLtEpilogue_t::HIPBLASLT_EPILOGUE_DEFAULT,
        false,
        false,
    )
    .unwrap();

    assert_eq!(ptrs.a, 0xA000);
    assert_eq!(ptrs.b, 0xB000);
    assert_eq!(ptrs.c, 0xC000);
    assert_eq!(ptrs.d, 0xD000);
    assert_eq!(ptrs.bias, None);
}

#[test]
fn hipblasLt_pointers_use_bias_input_for_bias_epilogue() {
    let output: NodeIndex = 0;
    let a: NodeIndex = 1;
    let b: NodeIndex = 2;
    let bias: NodeIndex = 3;
    let buffers = buffers_for(&[(output, 0xD000), (a, 0xA000), (b, 0xB000), (bias, 0xB1A5)]);

    let ptrs = resolve_hipblaslt_pointers(
        output,
        &[a, b, bias],
        &buffers,
        scalar(0.0),
        hipblasLtEpilogue_t::HIPBLASLT_EPILOGUE_BIAS,
        false,
        false,
    )
    .unwrap();

    assert_eq!(ptrs.a, 0xA000);
    assert_eq!(ptrs.b, 0xB000);
    assert_eq!(ptrs.c, 0xD000);
    assert_eq!(ptrs.d, 0xD000);
    assert_eq!(ptrs.bias, Some(0xB1A5));
}

#[test]
fn hipblasLt_pointers_use_tensor_scale_inputs_after_base_inputs() {
    let output: NodeIndex = 0;
    let a: NodeIndex = 1;
    let b: NodeIndex = 2;
    let a_scale: NodeIndex = 3;
    let b_scale: NodeIndex = 4;
    let buffers = buffers_for(&[
        (output, 0xD000),
        (a, 0xA000),
        (b, 0xB000),
        (a_scale, 0xA5A5),
        (b_scale, 0xB5B5),
    ]);

    let ptrs = resolve_hipblaslt_pointers(
        output,
        &[a, b, a_scale, b_scale],
        &buffers,
        scalar(0.0),
        hipblasLtEpilogue_t::HIPBLASLT_EPILOGUE_DEFAULT,
        true,
        true,
    )
    .unwrap();

    assert_eq!(ptrs.a, 0xA000);
    assert_eq!(ptrs.b, 0xB000);
    assert_eq!(ptrs.c, 0xD000);
    assert_eq!(ptrs.d, 0xD000);
    assert_eq!(ptrs.bias, None);
    assert_eq!(ptrs.a_scale, Some(0xA5A5));
    assert_eq!(ptrs.b_scale, Some(0xB5B5));
}

#[test]
fn hipblasLt_pointers_reject_two_input_nonzero_beta() {
    let output: NodeIndex = 0;
    let a: NodeIndex = 1;
    let b: NodeIndex = 2;
    let buffers = buffers_for(&[(output, 0xD000), (a, 0xA000), (b, 0xB000)]);

    let err = resolve_hipblaslt_pointers(
        output,
        &[a, b],
        &buffers,
        scalar(1.0),
        hipblasLtEpilogue_t::HIPBLASLT_EPILOGUE_DEFAULT,
        false,
        false,
    )
    .unwrap_err();

    let err = err.message("1");
    assert!(
        err.contains("requires a third C input"),
        "unexpected error: {err}"
    );
    assert_eq!(err, "hipblasLt matmul with beta=1 requires a third C input");
}

#[test]
fn hipblasLt_pointers_reject_missing_bias_input() {
    let output: NodeIndex = 0;
    let a: NodeIndex = 1;
    let b: NodeIndex = 2;
    let buffers = buffers_for(&[(output, 0xD000), (a, 0xA000), (b, 0xB000)]);

    let err = resolve_hipblaslt_pointers(
        output,
        &[a, b],
        &buffers,
        scalar(0.0),
        hipblasLtEpilogue_t::HIPBLASLT_EPILOGUE_BIAS,
        false,
        false,
    )
    .unwrap_err();

    let err = err.message("0");
    assert!(
        err.contains("requires a bias input"),
        "unexpected error: {err}"
    );
    assert_eq!(
        err,
        "hipblasLt matmul with HIPBLASLT_EPILOGUE_BIAS epilogue requires a bias input"
    );
}

#[test]
fn constants_are_the_encodings_of_their_values() {
    assert_eq!(HostScalar::one(), scalar(1.0));
    assert_eq!(HostScalar::zero(), scalar(0.0));
    assert!(scalar(0.0).is_zero());
    assert!(scalar(-0.0).is_zero());
    assert!(!scalar(f64::MIN_POSITIVE).is_zero());
    assert!(!scalar(f64::NAN).is_zero());
}

#[test]
fn scalars_are_packed_in_the_scale_type() {
    assert_eq!(
        LtScalar::from_f64(DType::F64, scalar(0.1)).unwrap(),
        LtScalar::F64(0.1f64.to_bits())
    );
    assert_eq!(
        LtScalar::from_f64(DType::F32, scalar(0.1)).unwrap(),
        LtScalar::F32(0.1f32.to_bits())
    );
    assert_eq!(
        LtScalar::from_f64(DType::F16, scalar(-2.5)).unwrap(),
        LtScalar::F16(0xc100)
    );
    assert_eq!(
        LtScalar::from_f64(DType::Bf16, scalar(-2.5)).unwrap(),
        LtScalar::Bf16(0xc020)
    );
    let refused = LtScalar::from_f64(DType::TF32, scalar(1.0)).unwrap_err();
    assert_eq!(
        refused.message(""),
        "hipblasLt scale dtype TF32 is not supported for host alpha/beta scalars"
    );
}

#[test]
fn bias_epilogues_take_a_bias() {
    assert!(epilogue_uses_bias(hipblasLtEpilogue_t::HIPBLASLT_EPILOGUE_RELU_BIAS));
    assert!(epilogue_uses_bias(hipblasLtEpilogue_t::HIPBLASLT_EPILOGUE_RELU_AUX_BIAS));
    assert!(epilogue_uses_bias(hipblasLtEpilogue_t::HIPBLASLT_EPILOGUE_GELU_AUX_BIAS));
    assert!(!epilogue_uses_bias(hipblasLtEpilogue_t::HIPBLASLT_EPILOGUE_GELU));
    assert!(!epilogue_uses_bias(hipblasLtEpilogue_t::HIPBLASLT_EPILOGUE_SWISH_BIAS_EXT));
}

fn failure_of(
    inputs: &[NodeIndex],
    present: &[NodeIndex],
    beta: f64,
    epilogue: hipblasLtEpilogue_t,
    a_scale: bool,
    b_scale: bool,
) -> String {
    let entries: Vec<(NodeIndex, u64)> = present.iter().map(|n| (*n, 0x1000 + *n as u64)).collect();
    let error: LtError = resolve_hipblaslt_pointers(
        0,
        inputs,
        &buffers_for(&entries),
        scalar(beta),
        epilogue,
        a_scale,
        b_scale,
    )
    .unwrap_err();
    error.message("0.5")
}

#[test]
fn every_missing_buffer_is_named() {
    let plain = hipblasLtEpilogue_t::HIPBLASLT_EPILOGUE_DEFAULT;
    let bias = hipblasLtEpilogue_t::HIPBLASLT_EPILOGUE_GELU_BIAS;
    assert_eq!(
        failure_of(&[1], &[0, 1], 0.0, plain, false, false),
        "hipblasLt matmul expected at least 2 inputs (A, B[, C]), got 1"
    );
    assert_eq!(
        failure_of(&[1, 2], &[0, 2], 0.0, plain, false, false),
        "missing hipblasLt A input buffer"
    );
    assert_eq!(
        failure_of(&[1, 2], &[0, 1], 0.0, plain, false, false),
        "missing hipblasLt B input buffer"
    );
    assert_eq!(
        failure_of(&[1, 2], &[1, 2], 0.0, plain, false, false),
        "missing hipblasLt output buffer"
    );
    assert_eq!(
        failure_of(&[1, 2], &[0, 1, 2], 0.5, plain, false, false),
        "hipblasLt matmul with beta=0.5 requires a third C input"
    );
    assert_eq!(
        failure_of(&[1, 2, 3], &[0, 1, 2], 0.5, plain, false, false),
        "missing hipblasLt C input buffer"
    );
    assert_eq!(
        failure_of(&[1, 2, 3], &[0, 1, 2, 3], 0.5, bias, false, false),
        "hipblasLt matmul with HIPBLASLT_EPILOGUE_GELU_BIAS epilogue requires a bias input"
    );
    assert_eq!(
        failure_of(&[1, 2, 3], &[0, 1, 2], 0.0, bias, false, false),
        "missing hipblasLt bias input buffer"
    );
    assert_eq!(
        failure_of(&[1, 2], &[0, 1, 2], 0.0, plain, true, true),
        "hipblasLt matmul requires an A scale input pointer"
    );
    assert_eq!(
        failure_of(&[1, 2, 3], &[0, 1, 2], 0.0, plain, true, true),
        "missing hipblasLt A scale input buffer"
    );
    assert_eq!(
        failure_of(&[1, 2, 3], &[0, 1, 2, 3], 0.0, plain, true, true),
        "hipblasLt matmul requires a B scale input pointer"
    );
    assert_eq!(
        failure_of(&[1, 2, 3, 4], &[0, 1, 2, 3], 0.0, plain, true, true),
        "missing hipblasLt B scale input buffer"
    );
}

#[test]
fn all_optional_inputs_follow_in_order() {
    let entries: Vec<(NodeIndex, u64)> = (0..7).map(|n| (n, 0x100 * (n as u64 + 1))).collect();
    let ptrs = resolve_hipblaslt_pointers(
        0,
        &[1, 2, 3, 4, 5, 6],
        &buffers_for(&entries),
        scalar(2.0),
        hipblasLtEpilogue_t::HIPBLASLT_EPILOGUE_RELU_BIAS,
        true,
        true,
    )
    .unwrap();
    assert_eq!(ptrs.d, 0x100);
    assert_eq!(ptrs.a, 0x200);
    assert_eq!(ptrs.b, 0x300);
    assert_eq!(ptrs.c, 0x400);
    assert_eq!(ptrs.bias, Some(0x500));
    assert_eq!(ptrs.a_scale, Some(0x600));
    assert_eq!(ptrs.b_scale, Some(0x700));
}

#[test]
fn device_buffers_keep_address_and_length() {
    let buffer = DeviceBuffer::new(0xBEEF, 64);
    assert_eq!(buffer.ptr(), 0xBEEF);
    assert_eq!(buffer.len(), 64);
    assert!(!buffer.is_empty());
    assert!(DeviceBuffer::new(0xBEEF, 0).is_empty());
}
