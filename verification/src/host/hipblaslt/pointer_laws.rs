//! What holds of the pointers of every matmul: which input each comes from, and
//! what is missing where they are not found.
use std::collections::HashMap;
use vstd::prelude::*;

use crate::host::hipblaslt::error::LtError;
use crate::host::hipblaslt::pointers::{resolve_hipblaslt_pointers, LtMatmulPointers};
use crate::host::hipblaslt::scalar::HostScalar;
use crate::host::hipblaslt::types::{epilogue_uses_bias, hipblasLtEpilogue_t};
use crate::host::{DeviceBuffer, NodeIndex};

verus! {

/// The scalar is not zero: a bit other than the sign is set.
pub open spec fn nonzero(scalar: HostScalar) -> bool {
    scalar.double % 0x8000_0000_0000_0000 != 0
}

/// A scalar counts as zero exactly when no bit other than its sign is set.
pub proof fn zero_is_told_by_all_bits_but_the_sign(scalar: &HostScalar, r: bool)
    requires
        call_ensures(HostScalar::is_zero, (scalar,), r),
    ensures
        r <==> !nonzero(*scalar),
{
}

/// The epilogues that add a bias vector which is an input of the matmul.
pub open spec fn adds_bias(epilogue: hipblasLtEpilogue_t) -> bool {
    match epilogue {
        hipblasLtEpilogue_t::HIPBLASLT_EPILOGUE_BIAS => true,
        hipblasLtEpilogue_t::HIPBLASLT_EPILOGUE_RELU_BIAS => true,
        hipblasLtEpilogue_t::HIPBLASLT_EPILOGUE_GELU_BIAS => true,
        hipblasLtEpilogue_t::HIPBLASLT_EPILOGUE_RELU_AUX_BIAS => true,
        hipblasLtEpilogue_t::HIPBLASLT_EPILOGUE_GELU_AUX_BIAS => true,
        _ => false,
    }
}

/// A bias is asked for exactly by the plain, ReLU and GELU epilogues with bias,
/// with or without an auxiliary output.
pub proof fn bias_is_asked_for_by_bias_epilogues(epilogue: hipblasLtEpilogue_t, r: bool)
    requires
        call_ensures(epilogue_uses_bias, (epilogue,), r),
    ensures
        r <==> adds_bias(epilogue),
{
}

/// How many inputs an optional one takes.
pub open spec fn slots(present: bool) -> int {
    if present {
        1
    } else {
        0
    }
}

/// Each pointer comes from an input of its own, in the order A, B, C, bias, A
/// scale, B scale: those that the matmul does not take are left out, and the
/// others move up. Without a C input, C is the output.
pub proof fn each_pointer_comes_from_its_input(
    self_node: NodeIndex,
    inputs: &[NodeIndex],
    buffers: &HashMap<NodeIndex, DeviceBuffer>,
    beta: HostScalar,
    epilogue: hipblasLtEpilogue_t,
    a_scale_input: bool,
    b_scale_input: bool,
    r: Result<LtMatmulPointers, LtError>,
)
    requires
        call_ensures(
            resolve_hipblaslt_pointers,
            (self_node, inputs, buffers, beta, epilogue, a_scale_input, b_scale_input),
            r,
        ),
        r is Ok,
    ensures
        ({
            let found = r->Ok_0;
            let bias_at = 2 + slots(nonzero(beta));
            let a_scale_at = bias_at + slots(adds_bias(epilogue));
            let b_scale_at = a_scale_at + slots(a_scale_input);
            &&& inputs@.len() >= b_scale_at + slots(b_scale_input)
            &&& found.a == buffers@[inputs@[0]].address()
            &&& found.b == buffers@[inputs@[1]].address()
            &&& found.d == buffers@[self_node].address()
            &&& nonzero(beta) ==> found.c == buffers@[inputs@[2]].address()
            &&& !nonzero(beta) ==> found.c == buffers@[self_node].address()
            &&& adds_bias(epilogue) ==> found.bias == Some(buffers@[inputs@[bias_at]].address())
            &&& !adds_bias(epilogue) ==> found.bias is None
            &&& a_scale_input ==> found.a_scale == Some(buffers@[inputs@[a_scale_at]].address())
            &&& !a_scale_input ==> found.a_scale is None
            &&& b_scale_input ==> found.b_scale == Some(buffers@[inputs@[b_scale_at]].address())
            &&& !b_scale_input ==> found.b_scale is None
        }),
{
}

/// The address that an optional pointer adds to a list.
pub open spec fn if_there(pointer: Option<u64>) -> Seq<u64> {
    match pointer {
        Some(pointer) => seq![pointer],
        None => seq![],
    }
}

/// The pointers, in the order A, B, C where it is an input, bias, A scale and B
/// scale, are the addresses of the first inputs one by one: none is passed over,
/// none is used twice, and all of them have buffers.
pub proof fn pointers_are_the_inputs_in_order(
    self_node: NodeIndex,
    inputs: &[NodeIndex],
    buffers: &HashMap<NodeIndex, DeviceBuffer>,
    beta: HostScalar,
    epilogue: hipblasLtEpilogue_t,
    a_scale_input: bool,
    b_scale_input: bool,
    r: Result<LtMatmulPointers, LtError>,
)
    requires
        call_ensures(
            resolve_hipblaslt_pointers,
            (self_node, inputs, buffers, beta, epilogue, a_scale_input, b_scale_input),
            r,
        ),
        r is Ok,
    ensures
        ({
            let found = r->Ok_0;
            let c = if nonzero(beta) {
                Some(found.c)
            } else {
                None
            };
            let addresses = seq![found.a, found.b] + if_there(c) + if_there(found.bias) + if_there(
                found.a_scale,
            ) + if_there(found.b_scale);
            &&& addresses.len() <= inputs@.len()
            &&& buffers@.contains_key(self_node)
            &&& forall|i: int|
                0 <= i < addresses.len() ==> buffers@.contains_key(inputs@[i])
                    && #[trigger] addresses[i] == buffers@[inputs@[i]].address()
        }),
{
}

/// The input at this place is there and has a buffer.
pub open spec fn held(
    inputs: Seq<NodeIndex>,
    buffers: Map<NodeIndex, DeviceBuffer>,
    at: int,
) -> bool {
    at < inputs.len() && buffers.contains_key(inputs[at])
}

/// A failure says what is missing, and it is the first that is: of A and B, then
/// the output, then C, the bias and the scales, where the matmul takes them. An
/// input that is not there is told apart from one without a buffer.
pub proof fn failures_name_what_is_missing(
    self_node: NodeIndex,
    inputs: &[NodeIndex],
    buffers: &HashMap<NodeIndex, DeviceBuffer>,
    beta: HostScalar,
    epilogue: hipblasLtEpilogue_t,
    a_scale_input: bool,
    b_scale_input: bool,
    r: Result<LtMatmulPointers, LtError>,
)
    requires
        call_ensures(
            resolve_hipblaslt_pointers,
            (self_node, inputs, buffers, beta, epilogue, a_scale_input, b_scale_input),
            r,
        ),
        r is Err,
    ensures
        ({
            let count = inputs@.len();
            let bias_at = 2 + slots(nonzero(beta));
            let a_scale_at = bias_at + slots(adds_bias(epilogue));
            let b_scale_at = a_scale_at + slots(a_scale_input);
            let there = |at: int| held(inputs@, buffers@, at);
            let a_to_d = there(0) && there(1) && buffers@.contains_key(self_node);
            let a_to_c = a_to_d && (nonzero(beta) ==> there(2));
            let a_to_bias = a_to_c && (adds_bias(epilogue) ==> there(bias_at));
            let a_to_a_scale = a_to_bias && (a_scale_input ==> there(a_scale_at));
            match r->Err_0 {
                LtError::TooFewInputs(given) => count < 2 && given == count,
                LtError::NoABuffer => count >= 2 && !there(0),
                LtError::NoBBuffer => count >= 2 && there(0) && !there(1),
                LtError::NoOutputBuffer => there(0) && there(1) && !buffers@.contains_key(
                    self_node,
                ),
                LtError::NoCInput => a_to_d && nonzero(beta) && count == 2,
                LtError::NoCBuffer => a_to_d && nonzero(beta) && count > 2 && !there(2),
                LtError::NoBiasInput(named) => a_to_c && adds_bias(epilogue) && count == bias_at
                    && named == epilogue,
                LtError::NoBiasBuffer => a_to_c && adds_bias(epilogue) && count > bias_at && !there(
                    bias_at,
                ),
                LtError::NoAScaleInput => a_to_bias && a_scale_input && count == a_scale_at,
                LtError::NoAScaleBuffer => a_to_bias && a_scale_input && count > a_scale_at
                    && !there(a_scale_at),
                LtError::NoBScaleInput => a_to_a_scale && b_scale_input && count == b_scale_at,
                LtError::NoBScaleBuffer => a_to_a_scale && b_scale_input && count > b_scale_at
                    && !there(b_scale_at),
                _ => false,
            }
        }),
{
}

/// The pointers are found whenever the output and the inputs that the matmul
/// takes have buffers.
pub proof fn pointers_are_found_where_nothing_is_missing(
    self_node: NodeIndex,
    inputs: &[NodeIndex],
    buffers: &HashMap<NodeIndex, DeviceBuffer>,
    beta: HostScalar,
    epilogue: hipblasLtEpilogue_t,
    a_scale_input: bool,
    b_scale_input: bool,
    r: Result<LtMatmulPointers, LtError>,
)
    requires
        call_ensures(
            resolve_hipblaslt_pointers,
            (self_node, inputs, buffers, beta, epilogue, a_scale_input, b_scale_input),
            r,
        ),
        buffers@.contains_key(self_node),
        ({
            let taken = 2 + slots(nonzero(beta)) + slots(adds_bias(epilogue)) + slots(a_scale_input)
                + slots(b_scale_input);
            forall|at: int| 0 <= at < taken ==> #[trigger] held(inputs@, buffers@, at)
        }),
    ensures
        r is Ok,
{
    assert(held(inputs@, buffers@, 0));
    assert(held(inputs@, buffers@, 1));
    let bias_at = 2 + slots(nonzero(beta));
    let a_scale_at = bias_at + slots(adds_bias(epilogue));
    let b_scale_at = a_scale_at + slots(a_scale_input);
    assert(nonzero(beta) ==> held(inputs@, buffers@, 2));
    assert(adds_bias(epilogue) ==> held(inputs@, buffers@, bias_at));
    assert(a_scale_input ==> held(inputs@, buffers@, a_scale_at));
    assert(b_scale_input ==> held(inputs@, buffers@, b_scale_at));
}

} // verus!
