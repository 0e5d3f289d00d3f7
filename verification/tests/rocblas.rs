use std::collections::HashMap;

use luminal_rocm_lite::host::egglog::{is_well_sorted, KindChild, RuleSource, SortClass};
use luminal_rocm_lite::host::rocblas::{
    parameter_problem, parse_rocblas_op, rocblas_operation, sgemm_outcome, try_parse_rocblas_op,
    RocBlasSgemm, SgemmDims,
};
use luminal_rocm_lite::host::size::SizeExpr;
use luminal_rocm_lite::host::{DeviceBuffer, HostOp, NodeIndex};

fn children(a_layout: &str, b_layout: &str) -> Vec<KindChild<u32>> {
    vec![
        KindChild::Expr(10),
        KindChild::Expr(11),
        KindChild::Expr(12),
        KindChild::Text(a_layout.to_string()),
        KindChild::Text(b_layout.to_string()),
        KindChild::Expr(15),
        KindChild::Expr(16),
        KindChild::Expr(17),
    ]
}

#[test]
fn operations_are_read_with_or_without_quotes() {
    assert_eq!(
        parse_rocblas_op("\"T\""),
        rocblas_operation::rocblas_operation_transpose
    );
    assert_eq!(parse_rocblas_op("N"), rocblas_operation::rocblas_operation_none);
    assert_eq!(
        parse_rocblas_op("\"C\""),
        rocblas_operation::rocblas_operation_conjugate_transpose
    );
    assert_eq!(try_parse_rocblas_op("\"H\""), None);
}

#[test]
fn sgemm_is_extracted_by_position() {
    let op: RocBlasSgemm<u32> = RocBlasSgemm::placeholder(0);
    let good = children("\"T\"", "\"N\"");
    assert!(is_well_sorted(&good, &op.sort()));
    assert_eq!(parameter_problem(&good), None);
    let (extracted, inputs) = op.extract(&good, vec!["a", "b"]);
    assert_eq!(inputs, ["a", "b"]);
    assert_eq!((extracted.m, extracted.n, extracted.k), (10, 11, 12));
    assert_eq!((extracted.lda, extracted.ldb, extracted.ldc), (15, 16, 17));
    assert_eq!(
        extracted.a_layout,
        rocblas_operation::rocblas_operation_transpose
    );
    assert_eq!(extracted.b_layout, rocblas_operation::rocblas_operation_none);
    assert_eq!(
        parameter_problem(&children("\"T\"", "\"Q\"")).unwrap(),
        "Unknown rocBLAS operation: 'Q' (original: '\"Q\"')"
    );
    assert_eq!(
        parameter_problem(&children("P", "\"Q\"")).unwrap(),
        "Unknown rocBLAS operation: 'P' (original: 'P')"
    );
    assert!(!is_well_sorted(&good[..7], &op.sort()));
}

#[test]
fn sgemm_declares_itself() {
    let op: RocBlasSgemm<u32> = RocBlasSgemm::placeholder(0);
    let sort = op.sort();
    assert_eq!(sort.name, "rocblas_sgemm");
    assert_eq!(sort.fields.len(), 8);
    assert_eq!(sort.fields[4], ("b_layout", SortClass::Text));
    assert_eq!(sort.fields[7], ("ldc", SortClass::Expression));
    assert_eq!(op.n_inputs(), 2);
    assert!(!op.cleanup());
    let rules = op.rewrites();
    assert_eq!(rules.len(), 4);
    assert!(matches!(rules[2], RuleSource::File("sgemm_v2_CmRm_rewrite.egg")));
}

#[test]
fn sgemm_call_takes_inputs_and_output() {
    let op: RocBlasSgemm<u32> = RocBlasSgemm::placeholder(0);
    let buffers: HashMap<NodeIndex, DeviceBuffer> = (0..3)
        .map(|n| (n, DeviceBuffer::new(0x100 * (n as u64 + 1), 64)))
        .collect();
    let dims = SgemmDims {
        m: 2,
        n: 3,
        k: 4,
        lda: 2,
        ldb: 3,
        ldc: (1usize << 32) + 5,
    };
    let call = op.execute(&dims, 0, &[1, 2], &buffers);
    assert_eq!((call.m, call.n, call.k), (2, 3, 4));
    assert_eq!((call.a, call.b, call.c), (0x200, 0x300, 0x100));
    assert_eq!(f32::from_bits(call.alpha), 1.0);
    assert_eq!(f32::from_bits(call.beta), 0.0);
    // A leading dimension is cut down to 32 bits.
    assert_eq!((call.lda, call.ldb, call.ldc), (2, 3, 5));
    assert_eq!(call.a_layout, rocblas_operation::rocblas_operation_none);
    assert_eq!(call.b_layout, rocblas_operation::rocblas_operation_transpose);
}

#[test]
fn sgemm_failure_shows_the_status() {
    assert_eq!(sgemm_outcome(true, "rocblas_status_success"), Ok(()));
    assert_eq!(
        sgemm_outcome(false, "rocblas_status_invalid_size"),
        Err("cuBLAS SGEMM TN failed with status: rocblas_status_invalid_size".to_string())
    );
}

fn value(size: &SizeExpr<u32>) -> usize {
    match size {
        SizeExpr::Dim(e) | SizeExpr::UnitStride(e) => *e as usize,
        SizeExpr::Const(n) => *n,
        SizeExpr::Mul(a, b) => value(a) * value(b),
        SizeExpr::CeilDiv(a, b) => value(a).div_ceil(value(b)),
    }
}

#[test]
fn sgemm_output_takes_four_bytes_an_element() {
    let mut op: RocBlasSgemm<u32> = RocBlasSgemm::placeholder(0);
    op.m = 6;
    op.n = 7;
    assert_eq!(value(&op.output_size()), 42);
    assert_eq!(value(&op.output_bytes(32)), 168);
    op.k = 8;
    assert_eq!(value(&op.flop_estimate()), 2 * 6 * 7 * 8);
}
