//! The rewrite rules that turn sums of products into matmuls.
use vstd::prelude::*;

use crate::host::egglog;
use crate::host::egglog::RuleSource;

verus! {

/// The element types that the rewrites know: the plain ones, the eight-bit ones, and
/// the pairs of eight-bit ones with a 32-bit result.
pub const BASE_DTYPE_RULES: &'static str = "(relation hipblasLt_base_dtype (DType))
                 (hipblasLt_base_dtype (F32))
                 (hipblasLt_base_dtype (F16))
                 (hipblasLt_base_dtype (Bf16))
                 (hipblasLt_base_dtype (TF32))
                 (relation hipblasLt_fp8_dtype (DType))
                 (hipblasLt_fp8_dtype (F8E4M3))
                 (hipblasLt_fp8_dtype (F8E5M2))
                 (relation hipblasLt_fp8_f32_output_pair (DType DType))
                 (hipblasLt_fp8_f32_output_pair (F8E4M3) (F8E4M3))
                 (hipblasLt_fp8_f32_output_pair (F8E4M3) (F8E5M2))
                 (hipblasLt_fp8_f32_output_pair (F8E5M2) (F8E4M3))";

/// Deletes the broadcast product of a matmul once its sum has a hipBLASLt
/// alternative. The rewrites add that alternative only after they have matched
/// the broadcast, so its presence is all there is to test; and since the matmul
/// takes the inputs of the product, it outlives the emptied product.
pub const MUL_CLEANUP_RULE: &'static str = "(rule
                ((= ?mul (Op (Mul ?shape ?as ?bs ?os) ?inputs))
                 (= ?sum (Op (Sum ?sshape ?sk ?ssi ?sks ?sso) (ICons ?mul (INil))))
                 (= ?sum (Op (hipblasLt ?cm ?cn ?ck ?cta ?ctb ?cao ?cbo ?cco ?cdo ?clda ?cldb ?cldc ?cldd ?cbc ?csa ?csb ?csc ?csd ?cadt ?cbdt ?ccdt ?cddt ?ccompute ?cscale ?calpha ?cbeta ?cepilogue) ?ci)))
                ((delete (Op (Mul ?shape ?as ?bs ?os) ?inputs)))
                :ruleset cleanup
            )";

/// Deletes the broadcast product of a matmul once its sum has a batched-matmul
/// alternative.
pub const BATCHED_MUL_CLEANUP_RULE: &'static str = "(rule
                ((= ?mul (Op (Mul ?shape ?as ?bs ?os) ?inputs))
                 (= ?sum (Op (Sum ?sshape ?sk ?ssi ?sks ?sso) (ICons ?mul (INil))))
                 (= ?sum (Op (KernelBatchMatMul ?bos ?bk ?bas ?baks ?bbs ?bbks ?bouts ?bdt) ?bi)))
                ((delete (Op (Mul ?shape ?as ?bs ?os) ?inputs)))
                :ruleset cleanup
            )";

/// Deletes a fusion wrapper around the broadcast product. It is a rule of its own
/// because not every such product is wrapped.
pub const FUSION_CLEANUP_RULE: &'static str = "(rule
                ((= ?mul (Op (FusionEnd ?fshape ?fos ?fdt) ?finputs))
                 (= ?sum (Op (Sum ?sshape ?sk ?ssi ?sks ?sso) (ICons ?mul (INil))))
                 (= ?sum (Op (hipblasLt ?cm ?cn ?ck ?cta ?ctb ?cao ?cbo ?cco ?cdo ?clda ?cldb ?cldc ?cldd ?cbc ?csa ?csb ?csc ?csd ?cadt ?cbdt ?ccdt ?cddt ?ccompute ?cscale ?calpha ?cbeta ?cepilogue) ?ci)))
                ((delete (Op (FusionEnd ?fshape ?fos ?fdt) ?finputs)))
                :ruleset cleanup
            )";

/// Deletes a fusion wrapper around the broadcast product of a batched matmul.
pub const BATCHED_FUSION_CLEANUP_RULE: &'static str = "(rule
                ((= ?mul (Op (FusionEnd ?fshape ?fos ?fdt) ?finputs))
                 (= ?sum (Op (Sum ?sshape ?sk ?ssi ?sks ?sso) (ICons ?mul (INil))))
                 (= ?sum (Op (KernelBatchMatMul ?bos ?bk ?bas ?baks ?bbs ?bbks ?bouts ?bdt) ?bi)))
                ((delete (Op (FusionEnd ?fshape ?fos ?fdt) ?finputs)))
                :ruleset cleanup
            )";

/// The rule sets of the matmul: the element types, the rewrites of each
/// combination of storage orders and of each extension, and the deletion of the
/// terms that a matmul replaces.
pub open spec fn matmul_rules() -> Seq<(bool, Seq<char>)> {
    seq![
        (false, BASE_DTYPE_RULES@),
        (true, "hipblaslt_RmRm_rewrite.egg"@),
        (true, "hipblaslt_RmCm_rewrite.egg"@),
        (true, "hipblaslt_CmRm_rewrite.egg"@),
        (true, "hipblaslt_CmCm_rewrite.egg"@),
        (true, "hipblaslt_fp8_rewrite.egg"@),
        (true, "hipblaslt_mixed_dtype_rewrite.egg"@),
        (true, "hipblaslt_scale_rewrite.egg"@),
        (true, "hipblaslt_beta_rewrite.egg"@),
        (true, "hipblaslt_epilogue_rewrite.egg"@),
        (true, "hipblaslt_row_order_rewrite.egg"@),
        (false, MUL_CLEANUP_RULE@),
        (false, BATCHED_MUL_CLEANUP_RULE@),
        (false, FUSION_CLEANUP_RULE@),
        (false, BATCHED_FUSION_CLEANUP_RULE@),
    ]
}

/// The rule sets of the matmul, in order.
pub fn rewrite_rules() -> (r: Vec<RuleSource>)
    ensures
        egglog::rule_contents(r@) == matmul_rules(),
{
    let rules: Vec<RuleSource> = vec![
        RuleSource::Inline(BASE_DTYPE_RULES),
        RuleSource::File("hipblaslt_RmRm_rewrite.egg"),
        RuleSource::File("hipblaslt_RmCm_rewrite.egg"),
        RuleSource::File("hipblaslt_CmRm_rewrite.egg"),
        RuleSource::File("hipblaslt_CmCm_rewrite.egg"),
        RuleSource::File("hipblaslt_fp8_rewrite.egg"),
        RuleSource::File("hipblaslt_mixed_dtype_rewrite.egg"),
        RuleSource::File("hipblaslt_scale_rewrite.egg"),
        RuleSource::File("hipblaslt_beta_rewrite.egg"),
        RuleSource::File("hipblaslt_epilogue_rewrite.egg"),
        RuleSource::File("hipblaslt_row_order_rewrite.egg"),
        RuleSource::Inline(MUL_CLEANUP_RULE),
        RuleSource::Inline(BATCHED_MUL_CLEANUP_RULE),
        RuleSource::Inline(FUSION_CLEANUP_RULE),
        RuleSource::Inline(BATCHED_FUSION_CLEANUP_RULE),
    ];
    assert(egglog::rule_contents(rules@) =~= matmul_rules());
    rules
}

/// The rule sets come in order: the element types, the rewrites for the four
/// combinations of storage orders and for each extension, from their files, and
/// then the four that clean up.
pub proof fn rules_come_in_order(r: Vec<RuleSource>)
    requires
        call_ensures(rewrite_rules, (), r),
    ensures
        r@.len() == 15,
        r@[0] matches RuleSource::Inline(rules) && rules@ == BASE_DTYPE_RULES@,
        r@[1] matches RuleSource::File(name) && name@ == "hipblaslt_RmRm_rewrite.egg"@,
        r@[2] matches RuleSource::File(name) && name@ == "hipblaslt_RmCm_rewrite.egg"@,
        r@[3] matches RuleSource::File(name) && name@ == "hipblaslt_CmRm_rewrite.egg"@,
        r@[4] matches RuleSource::File(name) && name@ == "hipblaslt_CmCm_rewrite.egg"@,
        r@[5] matches RuleSource::File(name) && name@ == "hipblaslt_fp8_rewrite.egg"@,
        r@[6] matches RuleSource::File(name) && name@ == "hipblaslt_mixed_dtype_rewrite.egg"@,
        r@[7] matches RuleSource::File(name) && name@ == "hipblaslt_scale_rewrite.egg"@,
        r@[8] matches RuleSource::File(name) && name@ == "hipblaslt_beta_rewrite.egg"@,
        r@[9] matches RuleSource::File(name) && name@ == "hipblaslt_epilogue_rewrite.egg"@,
        r@[10] matches RuleSource::File(name) && name@ == "hipblaslt_row_order_rewrite.egg"@,
        r@[11] matches RuleSource::Inline(rules) && rules@ == MUL_CLEANUP_RULE@,
        r@[12] matches RuleSource::Inline(rules) && rules@ == BATCHED_MUL_CLEANUP_RULE@,
        r@[13] matches RuleSource::Inline(rules) && rules@ == FUSION_CLEANUP_RULE@,
        r@[14] matches RuleSource::Inline(rules) && rules@ == BATCHED_FUSION_CLEANUP_RULE@,
{
    let contents = egglog::rule_contents(r@);
    assert(contents.len() == r@.len());
    assert forall|i: int| 0 <= i < r@.len() implies (#[trigger] r@[i]).content()
        == contents[i] by {}
}

} // verus!
