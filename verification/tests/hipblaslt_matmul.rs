use std::collections::HashMap;

use luminal_rocm_lite::dtype::DType;
use luminal_rocm_lite::host::egglog::{is_well_sorted, KindChild, RuleSource, SortClass};
use luminal_rocm_lite::host::hipblaslt::handle::{get_hipblaslt, try_create_hipblaslt, HandleAttempt};
use luminal_rocm_lite::host::hipblaslt::matmul::{
    clamp_ld_for_order, plan_hipblaslt_matmul, Descriptor, LtMatmulSpec, LtOutcome,
    LtRawDescriptors, LtRun, LtStep, Operand, ScaleSource,
};
use luminal_rocm_lite::host::hipblaslt::names::{
    compute_type_name, default_compute_and_scale_dtype, dtype_to_rocm_dtype, epilogue_name,
    matmul_supports, order_name, parse_hipblaslt_compute_type, parse_hipblaslt_epilogue,
    parse_hipblaslt_op, parse_hipblaslt_order, parse_hipblaslt_scale_dtype, transpose_op_name,
    try_parse_hipblaslt_compute_type, try_parse_hipblaslt_epilogue, try_parse_hipblaslt_op,
    try_parse_hipblaslt_order, try_parse_hipblaslt_scale_dtype, unknown_message,
    unsupported_dtype_message,
};
use luminal_rocm_lite::host::hipblaslt::op::{
    parameter_problem, HipblasLt, HipblasLtScaled, LtDims, WORKSPACE_SIZE,
};
use luminal_rocm_lite::host::hipblaslt::pointers::LtMatmulPointers;
use luminal_rocm_lite::host::hipblaslt::rules::{BASE_DTYPE_RULES, MUL_CLEANUP_RULE};
use luminal_rocm_lite::host::hipblaslt::scalar::{HostScalar, LtScalar};
use luminal_rocm_lite::host::hipblaslt::types::{
    hipDataType, hipblasComputeType_t, hipblasLtEpilogue_t, hipblasLtOrder_t, hipblasOperation_t,
};
use luminal_rocm_lite::host::size::SizeExpr;
use luminal_rocm_lite::host::{DeviceBuffer, HostOp, NodeIndex};

fn scalar(value: f64) -> HostScalar {
    HostScalar {
        double: value.to_bits(),
        single: (value as f32).to_bits(),
        half: half::f16::from_f32(value as f32).to_bits(),
        brain: half::bf16::from_f32(value as f32).to_bits(),
    }
}

fn op() -> HipblasLt<u32> {
    HipblasLt::placeholder(7, 1, 0)
}

fn dims() -> LtDims<usize> {
    LtDims {
        m: 2,
        n: 3,
        k: 5,
        lda: 1,
        ldb: 20,
        ldc: 0,
        ldd: 2,
        batch_count: 1,
        stride_a: 10,
        stride_b: 15,
        stride_c: 6,
        stride_d: 6,
    }
}

fn buffers(count: u32) -> HashMap<NodeIndex, DeviceBuffer> {
    (0..count)
        .map(|n| (n, DeviceBuffer::new(0x1000 * (n as u64 + 1), 64)))
        .collect()
}

fn plan(op: &HipblasLt<u32>, dims: &LtDims<usize>, inputs: &[NodeIndex]) -> (LtMatmulSpec, LtMatmulPointers) {
    op.execute(dims, 0, inputs, &buffers(8)).unwrap()
}

#[test]
fn leading_dimensions_are_raised_to_the_stored_length() {
    let col = hipblasLtOrder_t::HIPBLASLT_ORDER_COL;
    let row = hipblasLtOrder_t::HIPBLASLT_ORDER_ROW;
    assert_eq!(clamp_ld_for_order(1, 4, 9, col), 4);
    assert_eq!(clamp_ld_for_order(1, 4, 9, row), 9);
    assert_eq!(clamp_ld_for_order(30, 4, 9, row), 30);
    assert_eq!(
        clamp_ld_for_order(1, 4, 9, hipblasLtOrder_t::HIPBLASLT_ORDER_COL16_4R8),
        4
    );
    // A length beyond the signed range wraps around and raises nothing.
    assert_eq!(clamp_ld_for_order(1, u64::MAX, 9, col), 1);
}

#[test]
fn execution_describes_the_stored_matrices() {
    let op = op();
    let (spec, ptrs) = plan(&op, &dims(), &[1, 2]);
    assert_eq!((spec.problem.m, spec.problem.n, spec.problem.k), (2, 3, 5));
    assert_eq!(spec.problem.batch_count, 1);
    // A is taken as it is, B transposed.
    assert_eq!((spec.a.rows, spec.a.cols, spec.a.ld), (2, 5, 2));
    assert_eq!((spec.b.rows, spec.b.cols, spec.b.ld), (3, 5, 20));
    assert_eq!((spec.c.rows, spec.c.cols, spec.c.ld), (2, 3, 2));
    assert_eq!((spec.d.rows, spec.d.cols, spec.d.ld), (2, 3, 2));
    assert_eq!(spec.a.batch_stride, 10);
    assert_eq!(spec.b.batch_stride, 15);
    assert_eq!(spec.a.dtype, hipDataType::HIP_R_32F);
    assert_eq!(spec.compute.scale_dtype, hipDataType::HIP_R_32F);
    assert_eq!(spec.compute.alpha, LtScalar::F32(1.0f32.to_bits()));
    assert_eq!(spec.compute.beta, LtScalar::F32(0));
    assert_eq!(spec.workspace_size, WORKSPACE_SIZE);
    assert_eq!(WORKSPACE_SIZE, 32 * 1024 * 1024);
    assert_eq!((ptrs.a, ptrs.b, ptrs.c, ptrs.d), (0x2000, 0x3000, 0x1000, 0x1000));
}

#[test]
fn execution_swaps_the_shape_of_a_transposed_a() {
    let mut op = op();
    op.a_layout = hipblasOperation_t::HIPBLAS_OP_C;
    op.b_layout = hipblasOperation_t::HIPBLAS_OP_N;
    let (spec, _) = plan(&op, &dims(), &[1, 2]);
    assert_eq!((spec.a.rows, spec.a.cols), (5, 2));
    assert_eq!((spec.b.rows, spec.b.cols), (5, 3));
}

#[test]
fn execution_refuses_a_scale_type_without_host_scalars() {
    let mut op = op();
    op.scale_dtype = DType::TF32;
    assert!(op.supports_dtypes());
    let error = op.execute(&dims(), 0, &[], &buffers(0)).unwrap_err();
    assert_eq!(
        error.message(""),
        "hipblasLt scale dtype TF32 is not supported for host alpha/beta scalars"
    );
    op.scale_dtype = DType::F16;
    let error = op.execute(&dims(), 0, &[], &buffers(0)).unwrap_err();
    assert_eq!(
        error.message(""),
        "hipblasLt matmul expected at least 2 inputs (A, B[, C]), got 0"
    );
    op.d_dtype = DType::Int;
    assert!(!op.supports_dtypes());
}

#[test]
fn plain_matmul_makes_the_expected_calls() {
    let op = op();
    let (spec, ptrs) = plan(&op, &dims(), &[1, 2]);
    let steps = plan_hipblaslt_matmul(&spec, ptrs).unwrap();
    let layout = |operand, rows, cols, ld| LtStep::CreateLayout {
        operand,
        dtype: hipDataType::HIP_R_32F,
        rows,
        cols,
        ld,
    };
    let col = hipblasLtOrder_t::HIPBLASLT_ORDER_COL;
    let expected = vec![
        LtStep::AllocWorkspace(WORKSPACE_SIZE),
        LtStep::CreateMatmulDesc {
            compute_type: hipblasComputeType_t::HIPBLAS_COMPUTE_32F,
            scale_dtype: hipDataType::HIP_R_32F,
        },
        LtStep::SetTransA(hipblasOperation_t::HIPBLAS_OP_N),
        LtStep::SetTransB(hipblasOperation_t::HIPBLAS_OP_T),
        LtStep::SetEpilogue(hipblasLtEpilogue_t::HIPBLASLT_EPILOGUE_DEFAULT),
        layout(Operand::A, 2, 5, 2),
        LtStep::SetLayoutOrder(Operand::A, col),
        layout(Operand::B, 3, 5, 20),
        LtStep::SetLayoutOrder(Operand::B, col),
        layout(Operand::C, 2, 3, 2),
        LtStep::SetLayoutOrder(Operand::C, col),
        layout(Operand::D, 2, 3, 2),
        LtStep::SetLayoutOrder(Operand::D, col),
        LtStep::CreatePreference,
        LtStep::SetMaxWorkspace(WORKSPACE_SIZE),
        LtStep::GetHeuristic { requested: 1 },
        LtStep::Launch {
            alpha: LtScalar::F32(1.0f32.to_bits()),
            beta: LtScalar::F32(0),
            a: 0x2000,
            b: 0x3000,
            c: 0x1000,
            d: 0x1000,
            workspace_size: WORKSPACE_SIZE,
        },
    ];
    assert_eq!(steps, expected);
}

#[test]
fn eight_bit_matrices_without_a_scale_get_a_unit_scale() {
    let mut op = op();
    op.a_dtype = DType::F8E4M3;
    op.b_dtype = DType::F8E5M2;
    op.b_scale_input = true;
    op.d_dtype = DType::F8E4M3;
    let (spec, ptrs) = plan(&op, &dims(), &[1, 2, 3]);
    let steps = plan_hipblaslt_matmul(&spec, ptrs).unwrap();
    assert_eq!(
        &steps[..3],
        &[
            LtStep::AllocWorkspace(WORKSPACE_SIZE),
            LtStep::UploadUnitScale(Operand::A),
            LtStep::UploadUnitScale(Operand::D),
        ]
    );
    assert_eq!(
        &steps[7..10],
        &[
            LtStep::SetScalePointer(Operand::A, ScaleSource::Uploaded),
            LtStep::SetScalePointer(Operand::B, ScaleSource::Given(0x4000)),
            LtStep::SetScalePointer(Operand::D, ScaleSource::Uploaded),
        ]
    );
}

#[test]
fn given_scale_is_used_for_any_element_type() {
    let mut op = op();
    op.a_scale_input = true;
    let (spec, ptrs) = plan(&op, &dims(), &[1, 2, 3]);
    let steps = plan_hipblaslt_matmul(&spec, ptrs).unwrap();
    assert!(steps.contains(&LtStep::SetScalePointer(Operand::A, ScaleSource::Given(0x4000))));
    assert!(!steps.contains(&LtStep::UploadUnitScale(Operand::A)));
}

#[test]
fn batched_matmul_sets_batch_attributes() {
    let mut sizes = dims();
    sizes.batch_count = 4;
    let (spec, ptrs) = plan(&op(), &sizes, &[1, 2]);
    let steps = plan_hipblaslt_matmul(&spec, ptrs).unwrap();
    assert_eq!(
        &steps[13..21],
        &[
            LtStep::SetBatchCount(Operand::A, 4),
            LtStep::SetBatchStride(Operand::A, 10),
            LtStep::SetBatchCount(Operand::B, 4),
            LtStep::SetBatchStride(Operand::B, 15),
            LtStep::SetBatchCount(Operand::C, 4),
            LtStep::SetBatchStride(Operand::C, 6),
            LtStep::SetBatchCount(Operand::D, 4),
            LtStep::SetBatchStride(Operand::D, 6),
        ]
    );
}

#[test]
fn bias_pointer_is_set_behind_the_epilogue() {
    let mut op = op();
    op.epilogue = hipblasLtEpilogue_t::HIPBLASLT_EPILOGUE_BIAS;
    let (spec, ptrs) = plan(&op, &dims(), &[1, 2, 3]);
    let steps = plan_hipblaslt_matmul(&spec, ptrs).unwrap();
    assert_eq!(
        steps[4],
        LtStep::SetEpilogue(hipblasLtEpilogue_t::HIPBLASLT_EPILOGUE_BIAS)
    );
    assert_eq!(steps[5], LtStep::SetBiasPointer(0x4000));
}

#[test]
fn empty_matmul_is_refused() {
    let mut sizes = dims();
    sizes.k = 0;
    let (spec, ptrs) = plan(&op(), &sizes, &[1, 2]);
    let error = plan_hipblaslt_matmul(&spec, ptrs).unwrap_err();
    assert_eq!(
        error.message(""),
        "hipblasLt matmul got zero-sized dimensions: m=2, n=3, k=0"
    );
    assert!(LtRun::start(&spec, ptrs).is_err());
}

#[test]
fn run_makes_every_call_and_ends() {
    let (spec, ptrs) = plan(&op(), &dims(), &[1, 2]);
    let steps = plan_hipblaslt_matmul(&spec, ptrs).unwrap();
    let mut run = LtRun::start(&spec, ptrs).unwrap_or_else(|_| panic!("refused"));
    let mut made = Vec::new();
    while let Some(step) = run.current() {
        made.push(step);
        assert!(run.advance(LtOutcome::Done { algorithms: 1 }).is_ok());
    }
    assert_eq!(made, steps);
}

#[test]
fn run_stops_without_an_algorithm() {
    let (spec, ptrs) = plan(&op(), &dims(), &[1, 2]);
    let mut run = LtRun::start(&spec, ptrs).unwrap_or_else(|_| panic!("refused"));
    let error = loop {
        match run.advance(LtOutcome::Done { algorithms: 0 }) {
            Ok(()) => {}
            Err(error) => break error,
        }
    };
    assert_eq!(error.message(""), "No suitable hipblasLt algorithm found");
    assert_eq!(run.current(), None);
    assert_eq!(
        run.created().release_order(),
        vec![
            Descriptor::Preference,
            Descriptor::Layout(Operand::D),
            Descriptor::Layout(Operand::C),
            Descriptor::Layout(Operand::B),
            Descriptor::Layout(Operand::A),
            Descriptor::Matmul,
        ]
    );
}

#[test]
fn run_reports_a_failed_call() {
    let (spec, ptrs) = plan(&op(), &dims(), &[1, 2]);
    let mut run = LtRun::start(&spec, ptrs).unwrap_or_else(|_| panic!("refused"));
    let error = run
        .advance(LtOutcome::Failed("HIP error: out of memory".to_string()))
        .unwrap_err();
    assert_eq!(error.message(""), "HIP error: out of memory");
    assert_eq!(run.current(), None);
    assert!(run.created().release_order().is_empty());
}

#[test]
fn nothing_is_launched_after_a_failure() {
    let (spec, ptrs) = plan(&op(), &dims(), &[1, 2]);
    let steps = plan_hipblaslt_matmul(&spec, ptrs).unwrap();
    for failed in 0..steps.len() {
        let mut run = LtRun::start(&spec, ptrs).unwrap_or_else(|_| panic!("refused"));
        let mut made = Vec::new();
        while let Some(step) = run.current() {
            let outcome = if made.len() == failed {
                LtOutcome::Failed("e".to_string())
            } else {
                LtOutcome::Done { algorithms: 1 }
            };
            made.push(step);
            assert_eq!(run.advance(outcome).is_err(), made.len() == failed + 1);
        }
        assert_eq!(made, steps[..=failed]);
        let launched = made.iter().any(|step| matches!(step, LtStep::Launch { .. }));
        assert_eq!(launched, failed == steps.len() - 1);
    }
}

#[test]
fn failed_run_releases_what_it_created() {
    let (spec, ptrs) = plan(&op(), &dims(), &[1, 2]);
    let mut run = LtRun::start(&spec, ptrs).unwrap_or_else(|_| panic!("refused"));
    while !matches!(run.current(), Some(LtStep::CreateLayout { operand: Operand::C, .. })) {
        assert!(run.advance(LtOutcome::Done { algorithms: 0 }).is_ok());
    }
    let error = run.advance(LtOutcome::Failed("bad layout".to_string())).unwrap_err();
    assert_eq!(error.message(""), "bad layout");
    assert_eq!(run.current(), None);
    assert_eq!(
        run.created().release_order(),
        vec![
            Descriptor::Layout(Operand::B),
            Descriptor::Layout(Operand::A),
            Descriptor::Matmul,
        ]
    );
}

#[test]
fn existing_objects_are_released_last_first() {
    assert!(LtRawDescriptors::default().release_order().is_empty());
    let mut descriptors = LtRawDescriptors::default();
    descriptors.matmul_desc = true;
    descriptors.a_desc = true;
    descriptors.c_desc = true;
    descriptors.preference = true;
    assert_eq!(
        descriptors.release_order(),
        vec![
            Descriptor::Preference,
            Descriptor::Layout(Operand::C),
            Descriptor::Layout(Operand::A),
            Descriptor::Matmul,
        ]
    );
}

#[test]
fn handle_failures_are_reported() {
    assert_eq!(try_create_hipblaslt(HandleAttempt::Made(3)), Ok(3));
    assert_eq!(
        try_create_hipblaslt::<u8>(HandleAttempt::Refused("status 3".to_string())),
        Err("status 3".to_string())
    );
    assert_eq!(
        try_create_hipblaslt::<u8>(HandleAttempt::Panicked(Some("no library".to_string()))),
        Err("no library".to_string())
    );
    assert_eq!(
        try_create_hipblaslt::<u8>(HandleAttempt::Panicked(None)),
        Err("rocBLASLt initialization panicked".to_string())
    );
    assert_eq!(get_hipblaslt(HandleAttempt::Made(3)).unwrap(), 3);
    let error = get_hipblaslt::<u8>(HandleAttempt::Refused("status 3".to_string())).unwrap_err();
    assert_eq!(
        error.message(""),
        "hipblasLt unavailable on this machine: status 3"
    );
}

#[test]
fn input_count_follows_the_parameters() {
    let mut op = op();
    assert_eq!(op.n_inputs(), 2);
    op.beta = scalar(1.0);
    assert_eq!(op.n_inputs(), 3);
    op.epilogue = hipblasLtEpilogue_t::HIPBLASLT_EPILOGUE_RELU_BIAS;
    assert_eq!(op.n_inputs(), 4);
    op.a_scale_input = true;
    op.b_scale_input = true;
    assert_eq!(op.n_inputs(), 6);
    assert_eq!(HipblasLtScaled.n_inputs(), 4);
}

fn text(s: &str) -> KindChild<u32> {
    KindChild::Text(s.to_string())
}

fn number(s: &str) -> KindChild<u32> {
    KindChild::Scalar(s.to_string(), s.parse::<f64>().ok().map(scalar))
}

fn children() -> Vec<KindChild<u32>> {
    vec![
        KindChild::Expr(100),
        KindChild::Expr(101),
        KindChild::Expr(102),
        text("\"T\""),
        text("\"N\""),
        text("\"COL\""),
        text("\"ROW\""),
        text("COL"),
        text("\"ROW\""),
        KindChild::Expr(109),
        KindChild::Expr(110),
        KindChild::Expr(111),
        KindChild::Expr(112),
        KindChild::Expr(113),
        KindChild::Expr(114),
        KindChild::Expr(115),
        KindChild::Expr(116),
        KindChild::Expr(117),
        KindChild::Dtype(DType::Bf16),
        KindChild::Dtype(DType::F8E4M3),
        KindChild::Dtype(DType::F16),
        KindChild::Dtype(DType::F32),
        text("\"default\""),
        text("\"F64\""),
        number("0.5"),
        number("0"),
        text("\"GELU\""),
    ]
}

#[test]
fn children_are_extracted_by_position() {
    let sort = op().sort();
    let children = children();
    assert!(is_well_sorted(&children, &sort));
    assert_eq!(parameter_problem(&children), None);
    let (extracted, inputs) = op().extract(&children, vec![7, 8, 9]);
    assert_eq!(inputs, [7, 8, 9]);
    let d = &extracted.dims;
    assert_eq!((d.m, d.n, d.k), (100, 101, 102));
    assert_eq!((d.lda, d.ldb, d.ldc, d.ldd), (109, 110, 111, 112));
    assert_eq!(d.batch_count, 113);
    assert_eq!(
        (d.stride_a, d.stride_b, d.stride_c, d.stride_d),
        (114, 115, 116, 117)
    );
    assert_eq!(extracted.transpose_ops(), ("T", "N"));
    assert_eq!(extracted.matrix_orders(), ("COL", "ROW", "COL", "ROW"));
    assert_eq!(
        extracted.type_tuple(),
        (
            DType::Bf16,
            DType::F8E4M3,
            DType::F16,
            DType::F32,
            "32F_FAST_16BF",
            DType::F64
        )
    );
    assert_eq!(extracted.scale_values(), (scalar(0.5), scalar(0.0)));
    assert_eq!(extracted.epilogue(), "GELU");
    assert_eq!(extracted.tensor_scale_inputs(), (false, false));
    assert!(!extracted.c_d_layouts_match(true, true));
    let (scaled, inputs) = HipblasLtScaled.extract(&children, vec!["a", "b", "sa", "sb"]);
    assert_eq!(inputs, ["a", "b", "sa", "sb"]);
    assert_eq!(scaled.tensor_scale_inputs(), (true, true));
    assert_eq!(scaled.n_inputs(), 4);
    assert!(!extracted.cleanup());
    assert!(!HipblasLtScaled.cleanup());
}

#[test]
fn layouts_match_only_in_every_respect() {
    let op = op();
    assert!(op.c_d_layouts_match(true, true));
    assert!(!op.c_d_layouts_match(false, true));
    assert!(!op.c_d_layouts_match(true, false));
}

#[test]
fn unknown_parameters_are_reported_in_order() {
    let mut children = children();
    children[26] = text("\"SOFTMAX\"");
    assert_eq!(
        parameter_problem(&children).unwrap(),
        "Unknown hipblasLt epilogue: 'SOFTMAX' (original: '\"SOFTMAX\"')"
    );
    children[24] = number("half");
    assert_eq!(
        parameter_problem(&children).unwrap(),
        "Unknown hipblasLt scalar literal: 'half' (original: 'half')"
    );
    children[23] = text("\"U8\"");
    assert_eq!(
        parameter_problem(&children).unwrap(),
        "Unknown hipblasLt scale dtype: 'U8' (original: '\"U8\"')"
    );
    children[18] = KindChild::Dtype(DType::Int);
    assert_eq!(
        parameter_problem(&children).unwrap(),
        "cuBLAS LT does not support integer matmul"
    );
    children[22] = text("\"16F\"");
    assert_eq!(
        parameter_problem(&children).unwrap(),
        "Unknown hipblasLt compute type: '16F' (original: '\"16F\"')"
    );
    children[8] = text("\"COL32\"");
    assert_eq!(
        parameter_problem(&children).unwrap(),
        "Unknown hipblasLt matrix order: 'COL32' (original: '\"COL32\"')"
    );
    children[3] = text("\"X\"");
    assert_eq!(
        parameter_problem(&children).unwrap(),
        "Unknown hipBLAS operation: 'X' (original: '\"X\"')"
    );
}

#[test]
fn children_of_the_wrong_sort_are_noticed() {
    let sort = op().sort();
    let mut children = children();
    children[4] = KindChild::Expr(1);
    assert!(!is_well_sorted(&children, &sort));
    children.truncate(4);
    assert!(!is_well_sorted(&children, &sort));
}

#[test]
fn sorts_declare_all_fields() {
    let sort = op().sort();
    assert_eq!(sort.class, SortClass::OpKind);
    assert_eq!(sort.name, "hipblaslt");
    assert_eq!(sort.fields.len(), 27);
    assert_eq!(sort.fields[13], ("batch_count", SortClass::Expression));
    assert_eq!(sort.fields[24], ("alpha", SortClass::Float));
    assert_eq!(sort.fields[26], ("epilogue", SortClass::Text));
    let scaled = HipblasLtScaled.sort();
    assert_eq!(scaled.name, "hipblaslt_scaled");
    assert_eq!(scaled.fields, sort.fields);
}

#[test]
fn rewrites_come_in_order() {
    let rules = op().rewrites();
    assert_eq!(rules.len(), 15);
    assert!(matches!(rules[0], RuleSource::Inline(r) if r == BASE_DTYPE_RULES));
    assert!(matches!(rules[1], RuleSource::File("hipblaslt_RmRm_rewrite.egg")));
    assert!(matches!(rules[10], RuleSource::File("hipblaslt_row_order_rewrite.egg")));
    assert!(matches!(rules[11], RuleSource::Inline(r) if r == MUL_CLEANUP_RULE));
    assert!(BASE_DTYPE_RULES.starts_with("(relation hipblasLt_base_dtype (DType))\n"));
}

#[test]
fn names_read_back() {
    for op in [
        hipblasOperation_t::HIPBLAS_OP_N,
        hipblasOperation_t::HIPBLAS_OP_T,
        hipblasOperation_t::HIPBLAS_OP_C,
    ] {
        assert_eq!(parse_hipblaslt_op(transpose_op_name(op)), op);
    }
    for order in [
        hipblasLtOrder_t::HIPBLASLT_ORDER_COL,
        hipblasLtOrder_t::HIPBLASLT_ORDER_ROW,
    ] {
        assert_eq!(parse_hipblaslt_order(order_name(order)), order);
        let quoted = format!("\"{}\"", order_name(order));
        assert_eq!(parse_hipblaslt_order(&quoted), order);
    }
    for epilogue in [
        hipblasLtEpilogue_t::HIPBLASLT_EPILOGUE_DEFAULT,
        hipblasLtEpilogue_t::HIPBLASLT_EPILOGUE_BIAS,
        hipblasLtEpilogue_t::HIPBLASLT_EPILOGUE_RELU,
        hipblasLtEpilogue_t::HIPBLASLT_EPILOGUE_RELU_BIAS,
        hipblasLtEpilogue_t::HIPBLASLT_EPILOGUE_GELU,
        hipblasLtEpilogue_t::HIPBLASLT_EPILOGUE_GELU_BIAS,
    ] {
        assert_eq!(parse_hipblaslt_epilogue(epilogue_name(epilogue)), epilogue);
    }
    for compute in [
        hipblasComputeType_t::HIPBLAS_COMPUTE_64F,
        hipblasComputeType_t::HIPBLAS_COMPUTE_32F,
        hipblasComputeType_t::HIPBLAS_COMPUTE_32F_FAST_16BF,
        hipblasComputeType_t::HIPBLAS_COMPUTE_32F_FAST_TF32,
    ] {
        assert_eq!(
            parse_hipblaslt_compute_type(compute_type_name(compute), DType::Int),
            compute
        );
    }
    for dtype in [DType::F64, DType::F32, DType::F16, DType::Bf16, DType::TF32, DType::F8E5M2] {
        assert_eq!(parse_hipblaslt_scale_dtype(dtype.name(), DType::Int), dtype);
    }
    assert_eq!(order_name(hipblasLtOrder_t::HIPBLASLT_ORDER_COL16_4R2), "other");
    assert_eq!(epilogue_name(hipblasLtEpilogue_t::HIPBLASLT_EPILOGUE_DGELU), "other");
    assert_eq!(compute_type_name(hipblasComputeType_t::HIPBLAS_COMPUTE_16F), "other");
}

#[test]
fn unknown_names_are_not_read() {
    assert_eq!(try_parse_hipblaslt_op("t"), None);
    assert_eq!(try_parse_hipblaslt_order("COL32"), None);
    assert_eq!(try_parse_hipblaslt_epilogue(""), None);
    assert_eq!(try_parse_hipblaslt_compute_type("default", DType::Bool), None);
    assert_eq!(try_parse_hipblaslt_scale_dtype("default", DType::I4), None);
    assert_eq!(
        unknown_message("hipblasLt matrix order", "\"COL32\""),
        "Unknown hipblasLt matrix order: 'COL32' (original: '\"COL32\"')"
    );
    assert_eq!(
        unsupported_dtype_message(DType::Bool),
        "cuBLAS LT does not support bool matmul"
    );
    assert_eq!(
        unsupported_dtype_message(DType::U4),
        "not yet implemented: cuBLAS LT matmul not yet implemented for U4"
    );
}

#[test]
fn element_types_have_default_precisions() {
    assert_eq!(dtype_to_rocm_dtype(DType::TF32), hipDataType::HIP_R_32F);
    assert_eq!(dtype_to_rocm_dtype(DType::Bf16), hipDataType::HIP_R_16BF);
    assert_eq!(dtype_to_rocm_dtype(DType::F8E5M2), hipDataType::HIP_R_8F_E5M2);
    assert!(!matmul_supports(DType::Int));
    assert!(matmul_supports(DType::F8E4M3));
    assert_eq!(
        default_compute_and_scale_dtype(DType::F64),
        (hipblasComputeType_t::HIPBLAS_COMPUTE_64F, DType::F64)
    );
    assert_eq!(
        default_compute_and_scale_dtype(DType::TF32),
        (hipblasComputeType_t::HIPBLAS_COMPUTE_32F_FAST_TF32, DType::F32)
    );
    assert_eq!(
        default_compute_and_scale_dtype(DType::F8E4M3),
        (hipblasComputeType_t::HIPBLAS_COMPUTE_32F, DType::F32)
    );
}

fn value(size: &SizeExpr<u32>) -> usize {
    match size {
        SizeExpr::Dim(e) | SizeExpr::UnitStride(e) => *e as usize,
        SizeExpr::Const(n) => *n,
        SizeExpr::Mul(a, b) => value(a) * value(b),
        SizeExpr::CeilDiv(a, b) => value(a).div_ceil(value(b)),
    }
}

#[test]
fn output_sizes_cover_all_batches() {
    let mut op = op();
    op.dims.batch_count = 3;
    op.dims.m = 5;
    op.dims.n = 7;
    assert_eq!(value(&op.output_size()), 105);
    assert_eq!(value(&op.output_bytes(16)), 210);
    // 105 elements of six bits take 630 bits, so 79 bytes.
    assert_eq!(value(&op.output_bytes(6)), 79);
    assert!(matches!(op.output_size(), SizeExpr::Mul(_, n) if matches!(*n, SizeExpr::UnitStride(7))));
}

#[test]
fn host_operations_have_plain_defaults() {
    let op = op();
    let dyn_map: HashMap<char, usize> = HashMap::new();
    assert!(op.extra_buffer_nodes().is_empty());
    assert!(op.extra_buffer_lifetimes().is_none());
    assert!(op.extra_buffer_sizes().is_empty());
    assert_eq!(op.stats_name(), None);
    assert_eq!(op.kernel_launch_count(&dyn_map), 1);
}

#[test]
fn matmul_reports_two_operations_a_term() {
    let mut op = op();
    op.dims.m = 5;
    op.dims.n = 7;
    op.dims.k = 11;
    op.dims.batch_count = 1;
    assert_eq!(value(&op.flop_estimate()), 2 * 5 * 7 * 11);
    op.dims.batch_count = 3;
    assert_eq!(value(&op.flop_estimate()), 2 * 5 * 7 * 11 * 3);
}

#[derive(Debug)]
struct Reshape;

impl HostOp<u32> for Reshape {
    fn size_formula(&self) -> SizeExpr<u32> {
        SizeExpr::Const(6)
    }

    fn bytes_formula(&self, _element_bits: usize) -> SizeExpr<u32> {
        SizeExpr::Const(24)
    }

    fn output_size(&self) -> SizeExpr<u32> {
        SizeExpr::Const(6)
    }

    fn output_bytes(&self, _element_bits: usize) -> SizeExpr<u32> {
        SizeExpr::Const(24)
    }
}

#[test]
fn operation_without_arithmetic_reports_none() {
    assert_eq!(value(&Reshape.flop_estimate()), 0);
}
