//! What the backend says of itself.
use vstd::prelude::*;
use vstd::string::*;

verus! {

/// The name of the backend.
pub fn name() -> (r: &'static str)
    ensures
        r@ == "rocm_lite"@,
{
    "rocm_lite"
}

/// The kind of device that the backend runs on.
pub fn device_type() -> (r: &'static str)
    ensures
        r@ == "rocm"@,
{
    "rocm"
}

/// Whether the backend takes device pointers.
pub fn supports_device_ptrs() -> (r: bool)
    ensures
        r,
{
    true
}

/// The message about a device that could not be initialized.
pub fn init_failure(error: &str) -> (r: String)
    ensures
        r@ == "HIP init failed: "@ + error@,
{
    let mut out = String::new();
    out.append("HIP init failed: ");
    out.append(error);
    assert(out@ =~= "HIP init failed: "@ + error@);
    out
}

} // verus!
