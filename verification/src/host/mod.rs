//! Host operations: work that the CPU sets up and the GPU carries out.
use std::collections::HashMap;
use vstd::prelude::*;

use crate::host::size::SizeExpr;

pub mod egglog;
pub mod flashinfer;
pub mod hipblaslt;
pub mod rocblas;
pub mod size;

verus! {

/// Index of a node in the low-level graph.
pub type NodeIndex = u32;

/// Non-owning device buffer handle used by host operations.
///
/// A buffer may be a whole allocation, a region inside a reusable arena, or an
/// external pointer. Host operations need only the pointer and the logical
/// length in bytes.
#[derive(Debug, Clone, Copy, PartialEq, Eq, Structural)]
pub struct DeviceBuffer {
    ptr: u64,
    len: usize,
}

impl DeviceBuffer {
    /// The device address of the buffer.
    pub closed spec fn address(self) -> u64 {
        self.ptr
    }

    /// The length of the buffer in bytes.
    pub closed spec fn size(self) -> usize {
        self.len
    }

    /// A handle to `len` bytes at `ptr`.
    pub fn new(ptr: u64, len: usize) -> (r: Self)
        ensures
            r.address() == ptr,
            r.size() == len,
    {
        DeviceBuffer { ptr, len }
    }

    pub fn ptr(self) -> (r: u64)
        ensures
            r == self.address(),
    {
        self.ptr
    }

    pub fn len(self) -> (r: usize)
        ensures
            r == self.size(),
    {
        self.len
    }

    pub fn is_empty(self) -> (r: bool)
        ensures
            r == (self.size() == 0),
    {
        self.len == 0
    }
}

/// A host operation, as the memory planner and the statistics see it. `E` is
/// the type of symbolic expressions.
pub trait HostOp<E> {
    /// The size of the output buffer in elements.
    spec fn size_formula(&self) -> SizeExpr<E>;

    /// The size of the output buffer in bytes, for output elements of this many
    /// bits.
    spec fn bytes_formula(&self, element_bits: usize) -> SizeExpr<E>;

    /// The size of the output buffer in elements.
    fn output_size(&self) -> (r: SizeExpr<E>)
        ensures
            r == self.size_formula(),
    ;

    /// The size of the output buffer in bytes, for output elements of this many
    /// bits.
    fn output_bytes(&self, element_bits: usize) -> (r: SizeExpr<E>)
        ensures
            r == self.bytes_formula(element_bits),
    ;

    /// The nodes that the operation needs buffers for beyond its graph edges:
    /// none, unless the operation runs nodes of its own.
    fn extra_buffer_nodes(&self) -> (r: Vec<NodeIndex>)
        default_ensures
            r@ == Seq::<NodeIndex>::empty(),
    {
        Vec::new()
    }

    /// The lifetimes of the extra buffers, as `(node, first_step, last_step)`
    /// local to this operation. `None` stands for the whole operation.
    fn extra_buffer_lifetimes(&self) -> (r: Option<Vec<(NodeIndex, usize, usize)>>)
        default_ensures
            r is None,
    {
        None
    }

    /// The sizes of the extra buffers in elements, by node.
    fn extra_buffer_sizes(&self) -> (r: HashMap<NodeIndex, SizeExpr<E>>)
        default_ensures
            r@ == Map::<NodeIndex, SizeExpr<E>>::empty(),
    {
        HashMap::new()
    }

    /// The name under which statistics report the operation, if they do.
    fn stats_name(&self) -> (r: Option<&'static str>)
        default_ensures
            r is None,
    {
        None
    }

    /// An estimate of the floating-point operations that the operation issues:
    /// none, for an operation that does no arithmetic. An operation that does
    /// overrides it with its analytical cost.
    fn flop_estimate(&self) -> (r: SizeExpr<E>)
        default_ensures
            r == SizeExpr::<E>::Const(0),
    {
        SizeExpr::Const(0)
    }

    /// How many kernels the operation launches; for a library call, which may
    /// launch several, a lower bound.
    fn kernel_launch_count(&self, _dyn_map: &HashMap<char, usize>) -> (r: usize)
        default_ensures
            r == 1,
    {
        1
    }
}

/// A handle is to the bytes that it was made for, and is empty exactly when they
/// are none.
pub proof fn handles_keep_address_and_length(
    ptr: u64,
    len: usize,
    buffer: DeviceBuffer,
    shown_ptr: u64,
    shown_len: usize,
    empty: bool,
)
    requires
        call_ensures(DeviceBuffer::new, (ptr, len), buffer),
        call_ensures(DeviceBuffer::ptr, (buffer,), shown_ptr),
        call_ensures(DeviceBuffer::len, (buffer,), shown_len),
        call_ensures(DeviceBuffer::is_empty, (buffer,), empty),
    ensures
        shown_ptr == ptr,
        shown_len == len,
        empty <==> len == 0,
{
}

} // verus!
