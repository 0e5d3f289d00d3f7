//! The failures of a hipBLASLt matmul, and their messages.
use vstd::prelude::*;
use vstd::string::*;

use crate::dtype::DType;
use crate::host::hipblaslt::names;
use crate::host::hipblaslt::names::epilogue_debug_name;
use crate::host::hipblaslt::types::hipblasLtEpilogue_t;
use crate::numeral;
use crate::numeral::push_decimal;

verus! {

/// Why a matmul was not launched.
#[derive(Debug)]
pub enum LtError {
    /// Fewer than two input nodes were given; the number given.
    TooFewInputs(usize),
    /// The A input has no buffer.
    NoABuffer,
    /// The B input has no buffer.
    NoBBuffer,
    /// The output has no buffer.
    NoOutputBuffer,
    /// Beta is not zero and there is no input left to be C.
    NoCInput,
    /// The C input has no buffer.
    NoCBuffer,
    /// The epilogue adds a bias and there is no input left to be it.
    NoBiasInput(hipblasLtEpilogue_t),
    /// The bias input has no buffer.
    NoBiasBuffer,
    /// A scale for A is expected and there is no input left to be it.
    NoAScaleInput,
    /// The A scale input has no buffer.
    NoAScaleBuffer,
    /// A scale for B is expected and there is no input left to be it.
    NoBScaleInput,
    /// The B scale input has no buffer.
    NoBScaleBuffer,
    /// There are no host scalars of this scale type.
    ScaleDtypeUnsupported(DType),
    /// One of m, n and k is zero.
    ZeroSized { m: u64, n: u64, k: u64 },
    /// The library offers no algorithm for the problem.
    NoAlgorithm,
    /// The library handle could not be made.
    Unavailable(String),
    /// A call into the library or the driver failed; its own message.
    Call(String),
}

impl LtError {
    /// The message of the failure; `beta` is beta's decimal rendering.
    pub open spec fn text(self, beta: Seq<char>) -> Seq<char> {
        match self {
            LtError::TooFewInputs(count) =>
                "hipblasLt matmul expected at least 2 inputs (A, B[, C]), got "@
                    + numeral::decimal_text(count as nat),
            LtError::NoABuffer => "missing hipblasLt A input buffer"@,
            LtError::NoBBuffer => "missing hipblasLt B input buffer"@,
            LtError::NoOutputBuffer => "missing hipblasLt output buffer"@,
            LtError::NoCInput => "hipblasLt matmul with beta="@ + beta
                + " requires a third C input"@,
            LtError::NoCBuffer => "missing hipblasLt C input buffer"@,
            LtError::NoBiasInput(epilogue) => "hipblasLt matmul with "@
                + names::epilogue_debug_text(epilogue) + " epilogue requires a bias input"@,
            LtError::NoBiasBuffer => "missing hipblasLt bias input buffer"@,
            LtError::NoAScaleInput => "hipblasLt matmul requires an A scale input pointer"@,
            LtError::NoAScaleBuffer => "missing hipblasLt A scale input buffer"@,
            LtError::NoBScaleInput => "hipblasLt matmul requires a B scale input pointer"@,
            LtError::NoBScaleBuffer => "missing hipblasLt B scale input buffer"@,
            LtError::ScaleDtypeUnsupported(dtype) => "hipblasLt scale dtype "@ + dtype.name_text()
                + " is not supported for host alpha/beta scalars"@,
            LtError::ZeroSized { m, n, k } =>
                "hipblasLt matmul got zero-sized dimensions: m="@ + numeral::decimal_text(m as nat)
                    + ", n="@ + numeral::decimal_text(n as nat) + ", k="@
                    + numeral::decimal_text(k as nat),
            LtError::NoAlgorithm => "No suitable hipblasLt algorithm found"@,
            LtError::Unavailable(message) => "hipblasLt unavailable on this machine: "@ + message@,
            LtError::Call(message) => message@,
        }
    }

    /// The message of the failure; `beta` is beta's decimal rendering, which
    /// only the message about a missing C input shows.
    pub fn message(&self, beta: &str) -> (r: String)
        ensures
            r@ == self.text(beta@),
    {
        let mut out = String::new();
        match self {
            LtError::TooFewInputs(count) => {
                out.append("hipblasLt matmul expected at least 2 inputs (A, B[, C]), got ");
                push_decimal(&mut out, *count as u64);
            },
            LtError::NoABuffer => {
                out.append("missing hipblasLt A input buffer");
            },
            LtError::NoBBuffer => {
                out.append("missing hipblasLt B input buffer");
            },
            LtError::NoOutputBuffer => {
                out.append("missing hipblasLt output buffer");
            },
            LtError::NoCInput => {
                out.append("hipblasLt matmul with beta=");
                out.append(beta);
                out.append(" requires a third C input");
            },
            LtError::NoCBuffer => {
                out.append("missing hipblasLt C input buffer");
            },
            LtError::NoBiasInput(epilogue) => {
                out.append("hipblasLt matmul with ");
                out.append(epilogue_debug_name(*epilogue));
                out.append(" epilogue requires a bias input");
            },
            LtError::NoBiasBuffer => {
                out.append("missing hipblasLt bias input buffer");
            },
            LtError::NoAScaleInput => {
                out.append("hipblasLt matmul requires an A scale input pointer");
            },
            LtError::NoAScaleBuffer => {
                out.append("missing hipblasLt A scale input buffer");
            },
            LtError::NoBScaleInput => {
                out.append("hipblasLt matmul requires a B scale input pointer");
            },
            LtError::NoBScaleBuffer => {
                out.append("missing hipblasLt B scale input buffer");
            },
            LtError::ScaleDtypeUnsupported(dtype) => {
                out.append("hipblasLt scale dtype ");
                out.append(dtype.name());
                out.append(" is not supported for host alpha/beta scalars");
            },
            LtError::ZeroSized { m, n, k } => {
                out.append("hipblasLt matmul got zero-sized dimensions: m=");
                push_decimal(&mut out, *m);
                out.append(", n=");
                push_decimal(&mut out, *n);
                out.append(", k=");
                push_decimal(&mut out, *k);
            },
            LtError::NoAlgorithm => {
                out.append("No suitable hipblasLt algorithm found");
            },
            LtError::Unavailable(message) => {
                out.append("hipblasLt unavailable on this machine: ");
                out.append(message.as_str());
            },
            LtError::Call(message) => {
                out.append(message.as_str());
            },
        }
        assert(out@ =~= self.text(beta@));
        out
    }
}

/// The message about a missing buffer names the matrix or vector that has none.
pub proof fn messages_name_the_missing_buffer(error: &LtError, beta: &str, message: String)
    requires
        call_ensures(LtError::message, (error, beta), message),
    ensures
        *error is NoABuffer ==> message@ == "missing hipblasLt "@ + "A"@ + " input buffer"@,
        *error is NoBBuffer ==> message@ == "missing hipblasLt "@ + "B"@ + " input buffer"@,
        *error is NoCBuffer ==> message@ == "missing hipblasLt "@ + "C"@ + " input buffer"@,
        *error is NoBiasBuffer ==> message@ == "missing hipblasLt "@ + "bias"@ + " input buffer"@,
        *error is NoAScaleBuffer ==> message@ == "missing hipblasLt "@ + "A scale"@
            + " input buffer"@,
        *error is NoBScaleBuffer ==> message@ == "missing hipblasLt "@ + "B scale"@
            + " input buffer"@,
        *error is NoOutputBuffer ==> message@ == "missing hipblasLt "@ + "output buffer"@,
{
    reveal_strlit("missing hipblasLt ");
    reveal_strlit(" input buffer");
    reveal_strlit("A");
    reveal_strlit("B");
    reveal_strlit("C");
    reveal_strlit("bias");
    reveal_strlit("A scale");
    reveal_strlit("B scale");
    reveal_strlit("output buffer");
    reveal_strlit("missing hipblasLt A input buffer");
    reveal_strlit("missing hipblasLt B input buffer");
    reveal_strlit("missing hipblasLt C input buffer");
    reveal_strlit("missing hipblasLt bias input buffer");
    reveal_strlit("missing hipblasLt A scale input buffer");
    reveal_strlit("missing hipblasLt B scale input buffer");
    reveal_strlit("missing hipblasLt output buffer");
}

/// The message about a missing input names what asks for it: beta for C, the
/// epilogue for the bias; and that about too few inputs says how many there are.
pub proof fn messages_name_the_missing_input(error: &LtError, beta: &str, message: String)
    requires
        call_ensures(LtError::message, (error, beta), message),
    ensures
        *error matches LtError::TooFewInputs(count) ==> message@
            == "hipblasLt matmul expected at least 2 inputs (A, B[, C]), got "@
            + numeral::decimal_text(count as nat),
        *error is NoCInput ==> message@ == "hipblasLt matmul with beta="@ + beta@
            + " requires a third C input"@,
        *error matches LtError::NoBiasInput(epilogue) ==> message@ == "hipblasLt matmul with "@
            + names::epilogue_debug_text(epilogue) + " epilogue requires a bias input"@,
        *error is NoAScaleInput ==> message@ == "hipblasLt matmul requires an A scale input pointer"@,
        *error is NoBScaleInput ==> message@ == "hipblasLt matmul requires a B scale input pointer"@,
{
}

/// A failure that has a message of its own hands it on, and the refusals name the
/// scale type or the sizes that are refused.
pub proof fn messages_hand_on_the_reason(error: &LtError, beta: &str, message: String)
    requires
        call_ensures(LtError::message, (error, beta), message),
    ensures
        *error matches LtError::Call(own) ==> message@ == own@,
        *error matches LtError::Unavailable(own) ==> message@
            == "hipblasLt unavailable on this machine: "@ + own@,
        *error matches LtError::ScaleDtypeUnsupported(dtype) ==> message@
            == "hipblasLt scale dtype "@ + dtype.name_text()
            + " is not supported for host alpha/beta scalars"@,
        *error matches LtError::ZeroSized { m, n, k } ==> message@
            == "hipblasLt matmul got zero-sized dimensions: m="@ + numeral::decimal_text(m as nat)
            + ", n="@ + numeral::decimal_text(n as nat) + ", k="@ + numeral::decimal_text(k as nat),
        *error is NoAlgorithm ==> message@ == "No suitable hipblasLt algorithm found"@,
{
}

} // verus!
