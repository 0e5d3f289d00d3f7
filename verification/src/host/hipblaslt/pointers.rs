//! The device pointers of a matmul, taken from the buffers of its nodes.
use std::collections::HashMap;
use vstd::prelude::*;

use crate::host::hipblaslt::error::LtError;
use crate::host::hipblaslt::scalar::HostScalar;
use crate::host::hipblaslt::types;
use crate::host::hipblaslt::types::{epilogue_uses_bias, hipblasLtEpilogue_t};
use crate::host::{DeviceBuffer, NodeIndex};

verus! {

/// The device pointers that a matmul reads and writes.
#[derive(Debug, Clone, Copy, PartialEq, Eq)]
pub struct LtMatmulPointers {
    pub a: u64,
    pub b: u64,
    pub c: u64,
    pub d: u64,
    pub bias: Option<u64>,
    pub a_scale: Option<u64>,
    pub b_scale: Option<u64>,
}

/// Which optional inputs a matmul has, in the order in which they follow A
/// and B.
#[derive(Clone, Copy)]
pub struct InputLayout {
    pub has_c: bool,
    pub has_bias: bool,
    pub has_a_scale: bool,
    pub has_b_scale: bool,
}

pub open spec fn one_if(b: bool) -> nat {
    if b {
        1
    } else {
        0
    }
}

impl InputLayout {
    /// The inputs of a matmul with these parameters: C unless beta is zero, a
    /// bias where the epilogue adds one, and the scales that are asked for.
    pub open spec fn of(
        beta: HostScalar,
        epilogue: hipblasLtEpilogue_t,
        a_scale_input: bool,
        b_scale_input: bool,
    ) -> Self {
        InputLayout {
            has_c: !beta.zero_value(),
            has_bias: types::uses_bias(epilogue),
            has_a_scale: a_scale_input,
            has_b_scale: b_scale_input,
        }
    }

    /// The position of the bias among the inputs.
    pub open spec fn bias_slot(self) -> nat {
        2 + one_if(self.has_c)
    }

    /// The position of the A scale among the inputs.
    pub open spec fn a_scale_slot(self) -> nat {
        self.bias_slot() + one_if(self.has_bias)
    }

    /// The position of the B scale among the inputs.
    pub open spec fn b_scale_slot(self) -> nat {
        self.a_scale_slot() + one_if(self.has_a_scale)
    }

    /// The number of inputs.
    pub open spec fn count(self) -> nat {
        self.b_scale_slot() + one_if(self.has_b_scale)
    }
}

/// The address of the input at `slot`, where there is such an input and it has
/// a buffer.
pub open spec fn input_address(
    inputs: Seq<NodeIndex>,
    buffers: Map<NodeIndex, DeviceBuffer>,
    slot: nat,
) -> Option<u64> {
    if slot < inputs.len() && buffers.contains_key(inputs[slot as int]) {
        Some(buffers[inputs[slot as int]].address())
    } else {
        None
    }
}

/// The first thing that keeps the pointers from being found, in the order A,
/// B, output, C, bias, A scale, B scale; an input that is not there is told
/// apart from one without a buffer.
pub open spec fn pointer_failure(
    self_node: NodeIndex,
    inputs: Seq<NodeIndex>,
    buffers: Map<NodeIndex, DeviceBuffer>,
    layout: InputLayout,
    epilogue: hipblasLtEpilogue_t,
) -> Option<LtError> {
    if inputs.len() < 2 {
        Some(LtError::TooFewInputs(inputs.len() as usize))
    } else if input_address(inputs, buffers, 0) is None {
        Some(LtError::NoABuffer)
    } else if input_address(inputs, buffers, 1) is None {
        Some(LtError::NoBBuffer)
    } else if !buffers.contains_key(self_node) {
        Some(LtError::NoOutputBuffer)
    } else if layout.has_c && inputs.len() <= 2 {
        Some(LtError::NoCInput)
    } else if layout.has_c && input_address(inputs, buffers, 2) is None {
        Some(LtError::NoCBuffer)
    } else if layout.has_bias && inputs.len() <= layout.bias_slot() {
        Some(LtError::NoBiasInput(epilogue))
    } else if layout.has_bias && input_address(inputs, buffers, layout.bias_slot()) is None {
        Some(LtError::NoBiasBuffer)
    } else if layout.has_a_scale && inputs.len() <= layout.a_scale_slot() {
        Some(LtError::NoAScaleInput)
    } else if layout.has_a_scale && input_address(inputs, buffers, layout.a_scale_slot()) is None {
        Some(LtError::NoAScaleBuffer)
    } else if layout.has_b_scale && inputs.len() <= layout.b_scale_slot() {
        Some(LtError::NoBScaleInput)
    } else if layout.has_b_scale && input_address(inputs, buffers, layout.b_scale_slot()) is None {
        Some(LtError::NoBScaleBuffer)
    } else {
        None
    }
}

/// The pointers of a matmul whose nodes all have buffers. Without a C input
/// the output stands in for C.
pub open spec fn found_pointers(
    self_node: NodeIndex,
    inputs: Seq<NodeIndex>,
    buffers: Map<NodeIndex, DeviceBuffer>,
    layout: InputLayout,
) -> LtMatmulPointers {
    let d = buffers[self_node].address();
    LtMatmulPointers {
        a: input_address(inputs, buffers, 0)->0,
        b: input_address(inputs, buffers, 1)->0,
        c: if layout.has_c {
            input_address(inputs, buffers, 2)->0
        } else {
            d
        },
        d,
        bias: if layout.has_bias {
            input_address(inputs, buffers, layout.bias_slot())
        } else {
            None
        },
        a_scale: if layout.has_a_scale {
            input_address(inputs, buffers, layout.a_scale_slot())
        } else {
            None
        },
        b_scale: if layout.has_b_scale {
            input_address(inputs, buffers, layout.b_scale_slot())
        } else {
            None
        },
    }
}

/// What the resolution of a matmul's pointers yields.
pub open spec fn resolution(
    self_node: NodeIndex,
    inputs: Seq<NodeIndex>,
    buffers: Map<NodeIndex, DeviceBuffer>,
    layout: InputLayout,
    epilogue: hipblasLtEpilogue_t,
) -> Result<LtMatmulPointers, LtError> {
    match pointer_failure(self_node, inputs, buffers, layout, epilogue) {
        Some(error) => Err(error),
        None => Ok(found_pointers(self_node, inputs, buffers, layout)),
    }
}

fn address_of(buffers: &HashMap<NodeIndex, DeviceBuffer>, node: NodeIndex) -> (r: Option<u64>)
    ensures
        r == (if buffers@.contains_key(node) {
            Some(buffers@[node].address())
        } else {
            None
        }),
{
    match buffers.get(&node) {
        Some(buffer) => Some(buffer.ptr()),
        None => None,
    }
}

/// Finds the device pointers of a matmul. A and B are the first two inputs,
/// and then come C (unless beta is zero), the bias (where the epilogue adds
/// one), and the tensor scales of A and of B (where they are inputs). Inputs
/// beyond those are ignored. `self_node` holds the output.
pub fn resolve_hipblaslt_pointers(
    self_node: NodeIndex,
    inputs: &[NodeIndex],
    buffers: &HashMap<NodeIndex, DeviceBuffer>,
    beta: HostScalar,
    epilogue: hipblasLtEpilogue_t,
    a_scale_input: bool,
    b_scale_input: bool,
) -> (r: Result<LtMatmulPointers, LtError>)
    ensures
        r == resolution(
            self_node,
            inputs@,
            buffers@,
            InputLayout::of(beta, epilogue, a_scale_input, b_scale_input),
            epilogue,
        ),
{
    if inputs.len() < 2 {
        return Err(LtError::TooFewInputs(inputs.len()));
    }
    let a = match address_of(buffers, inputs[0]) {
        Some(p) => p,
        None => return Err(LtError::NoABuffer),
    };
    let b = match address_of(buffers, inputs[1]) {
        Some(p) => p,
        None => return Err(LtError::NoBBuffer),
    };
    let d = match address_of(buffers, self_node) {
        Some(p) => p,
        None => return Err(LtError::NoOutputBuffer),
    };
    let mut next_input: usize = 2;
    let c = if beta.is_zero() {
        d
    } else {
        if next_input >= inputs.len() {
            return Err(LtError::NoCInput);
        }
        let node = inputs[next_input];
        next_input += 1;
        match address_of(buffers, node) {
            Some(p) => p,
            None => return Err(LtError::NoCBuffer),
        }
    };
    let bias = if epilogue_uses_bias(epilogue) {
        if next_input >= inputs.len() {
            return Err(LtError::NoBiasInput(epilogue));
        }
        let node = inputs[next_input];
        next_input += 1;
        match address_of(buffers, node) {
            Some(p) => Some(p),
            None => return Err(LtError::NoBiasBuffer),
        }
    } else {
        None
    };
    let a_scale = if a_scale_input {
        if next_input >= inputs.len() {
            return Err(LtError::NoAScaleInput);
        }
        let node = inputs[next_input];
        next_input += 1;
        match address_of(buffers, node) {
            Some(p) => Some(p),
            None => return Err(LtError::NoAScaleBuffer),
        }
    } else {
        None
    };
    let b_scale = if b_scale_input {
        if next_input >= inputs.len() {
            return Err(LtError::NoBScaleInput);
        }
        match address_of(buffers, inputs[next_input]) {
            Some(p) => Some(p),
            None => return Err(LtError::NoBScaleBuffer),
        }
    } else {
        None
    };
    Ok(LtMatmulPointers { a, b, c, d, bias, a_scale, b_scale })
}

/// The input at `slot` is there and has a buffer.
pub open spec fn has_input(
    inputs: Seq<NodeIndex>,
    buffers: Map<NodeIndex, DeviceBuffer>,
    slot: nat,
) -> bool {
    input_address(inputs, buffers, slot) is Some
}

/// The pointers are found exactly when there are as many inputs as the matmul
/// takes, and those inputs and the output have buffers.
pub proof fn pointers_found_iff_all_buffers_are_there(
    self_node: NodeIndex,
    inputs: Seq<NodeIndex>,
    buffers: Map<NodeIndex, DeviceBuffer>,
    layout: InputLayout,
    epilogue: hipblasLtEpilogue_t,
)
    ensures
        resolution(self_node, inputs, buffers, layout, epilogue) is Ok <==> (inputs.len()
            >= layout.count() && buffers.contains_key(self_node) && forall|slot: nat|
            slot < layout.count() ==> #[trigger] has_input(inputs, buffers, slot)),
{
    let all = inputs.len() >= layout.count() && buffers.contains_key(self_node) && (forall|
        slot: nat,
    |
        slot < layout.count() ==> #[trigger] has_input(inputs, buffers, slot));
    if all {
        assert(has_input(inputs, buffers, 0));
        assert(has_input(inputs, buffers, 1));
        assert(layout.has_c ==> has_input(inputs, buffers, 2));
        assert(layout.has_bias ==> has_input(inputs, buffers, layout.bias_slot()));
        assert(layout.has_a_scale ==> has_input(inputs, buffers, layout.a_scale_slot()));
        assert(layout.has_b_scale ==> has_input(inputs, buffers, layout.b_scale_slot()));
    }
    if resolution(self_node, inputs, buffers, layout, epilogue) is Ok {
        assert forall|slot: nat| slot < layout.count() implies #[trigger] has_input(
            inputs,
            buffers,
            slot,
        ) by {
            if slot >= 2 && !(layout.has_c && slot == 2) && !(layout.has_bias && slot
                == layout.bias_slot()) && !(layout.has_a_scale && slot == layout.a_scale_slot()) {
                assert(layout.has_b_scale && slot == layout.b_scale_slot());
            }
        }
    }
}

/// Inputs beyond those that the matmul takes change nothing.
pub proof fn extra_inputs_are_ignored(
    self_node: NodeIndex,
    inputs: Seq<NodeIndex>,
    extra: Seq<NodeIndex>,
    buffers: Map<NodeIndex, DeviceBuffer>,
    layout: InputLayout,
    epilogue: hipblasLtEpilogue_t,
)
    requires
        inputs.len() >= layout.count(),
    ensures
        resolution(self_node, inputs + extra, buffers, layout, epilogue) == resolution(
            self_node,
            inputs,
            buffers,
            layout,
            epilogue,
        ),
{
    assert forall|slot: nat| slot < inputs.len() implies #[trigger] input_address(
        inputs + extra,
        buffers,
        slot,
    ) == input_address(inputs, buffers, slot) by {
        assert((inputs + extra)[slot as int] == inputs[slot as int]);
    }
}

/// With a zero beta the output stands in for C, and no input is read as C.
pub proof fn zero_beta_aliases_output_as_c(
    self_node: NodeIndex,
    inputs: Seq<NodeIndex>,
    buffers: Map<NodeIndex, DeviceBuffer>,
    beta: HostScalar,
    epilogue: hipblasLtEpilogue_t,
    a_scale_input: bool,
    b_scale_input: bool,
)
    requires
        beta.zero_value(),
        resolution(
            self_node,
            inputs,
            buffers,
            InputLayout::of(beta, epilogue, a_scale_input, b_scale_input),
            epilogue,
        ) is Ok,
    ensures
        ({
            let ptrs = resolution(
                self_node,
                inputs,
                buffers,
                InputLayout::of(beta, epilogue, a_scale_input, b_scale_input),
                epilogue,
            )->Ok_0;
            ptrs.c == ptrs.d && ptrs.d == buffers[self_node].address()
        }),
{
}

/// A bias pointer is there exactly when the epilogue adds a bias, and a scale
/// pointer exactly when that scale is an input.
pub proof fn optional_pointers_follow_the_parameters(
    self_node: NodeIndex,
    inputs: Seq<NodeIndex>,
    buffers: Map<NodeIndex, DeviceBuffer>,
    layout: InputLayout,
    epilogue: hipblasLtEpilogue_t,
)
    requires
        resolution(self_node, inputs, buffers, layout, epilogue) is Ok,
    ensures
        ({
            let ptrs = resolution(self_node, inputs, buffers, layout, epilogue)->Ok_0;
            &&& ptrs.bias is Some <==> layout.has_bias
            &&& ptrs.a_scale is Some <==> layout.has_a_scale
            &&& ptrs.b_scale is Some <==> layout.has_b_scale
        }),
{
}

} // verus!
