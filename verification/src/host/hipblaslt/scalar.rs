//! The host scalars alpha and beta, by their bit patterns.
use vstd::prelude::*;

use crate::dtype::DType;
use crate::host::hipblaslt::error::LtError;

verus! {

/// One scalar, rounded to each encoding in which a matmul can take it: the
/// IEEE 754 bit patterns in 64, 32 and 16 bits, and the bfloat16 pattern.
#[derive(Clone, Copy, Debug, PartialEq, Eq, Structural)]
pub struct HostScalar {
    pub double: u64,
    pub single: u32,
    pub half: u16,
    pub brain: u16,
}

impl HostScalar {
    /// Whether the scalar compares equal to zero: either sign of zero.
    pub open spec fn zero_value(self) -> bool {
        self.double == 0 || self.double == 0x8000_0000_0000_0000
    }

    /// Whether the scalar compares equal to zero.
    pub fn is_zero(&self) -> (r: bool)
        ensures
            r == self.zero_value(),
    {
        self.double == 0 || self.double == 0x8000_0000_0000_0000
    }

    /// The scalar one, in each encoding.
    pub open spec fn unit() -> Self {
        HostScalar {
            double: 0x3ff0_0000_0000_0000,
            single: 0x3f80_0000,
            half: 0x3c00,
            brain: 0x3f80,
        }
    }

    /// The scalar zero, in each encoding.
    pub open spec fn nought() -> Self {
        HostScalar { double: 0, single: 0, half: 0, brain: 0 }
    }

    /// The scalar one.
    pub fn one() -> (r: Self)
        ensures
            r == Self::unit(),
    {
        HostScalar {
            double: 0x3ff0_0000_0000_0000,
            single: 0x3f80_0000,
            half: 0x3c00,
            brain: 0x3f80,
        }
    }

    /// The scalar zero.
    pub fn zero() -> (r: Self)
        ensures
            r == Self::nought(),
    {
        HostScalar { double: 0, single: 0, half: 0, brain: 0 }
    }
}

/// A host scalar in the encoding that a matmul reads, by its bit pattern.
#[derive(Clone, Copy, Debug, PartialEq, Eq, Structural)]
pub enum LtScalar {
    F64(u64),
    F32(u32),
    F16(u16),
    Bf16(u16),
}

/// The encoding of `value` for the scale type `dtype`, where host scalars of
/// that type exist.
pub open spec fn packed_scalar(dtype: DType, value: HostScalar) -> Result<LtScalar, LtError> {
    match dtype {
        DType::F64 => Ok(LtScalar::F64(value.double)),
        DType::F32 => Ok(LtScalar::F32(value.single)),
        DType::F16 => Ok(LtScalar::F16(value.half)),
        DType::Bf16 => Ok(LtScalar::Bf16(value.brain)),
        _ => Err(LtError::ScaleDtypeUnsupported(dtype)),
    }
}

impl LtScalar {
    /// `value` in the encoding that scale type `dtype` asks for.
    pub fn from_f64(dtype: DType, value: HostScalar) -> (r: Result<LtScalar, LtError>)
        ensures
            r == packed_scalar(dtype, value),
    {
        match dtype {
            DType::F64 => Ok(LtScalar::F64(value.double)),
            DType::F32 => Ok(LtScalar::F32(value.single)),
            DType::F16 => Ok(LtScalar::F16(value.half)),
            DType::Bf16 => Ok(LtScalar::Bf16(value.brain)),
            _ => Err(LtError::ScaleDtypeUnsupported(dtype)),
        }
    }

    /// One, in the encoding that scale type `dtype` asks for.
    pub fn one(dtype: DType) -> (r: Result<LtScalar, LtError>)
        ensures
            r == (match dtype {
                DType::F64 => Ok(LtScalar::F64(0x3ff0_0000_0000_0000)),
                DType::F32 => Ok(LtScalar::F32(0x3f80_0000)),
                DType::F16 => Ok(LtScalar::F16(0x3c00)),
                DType::Bf16 => Ok(LtScalar::Bf16(0x3f80)),
                _ => Err::<LtScalar, LtError>(LtError::ScaleDtypeUnsupported(dtype)),
            }),
    {
        LtScalar::from_f64(dtype, HostScalar::one())
    }

    /// Zero, in the encoding that scale type `dtype` asks for.
    pub fn zero(dtype: DType) -> (r: Result<LtScalar, LtError>)
        ensures
            r == (match dtype {
                DType::F64 => Ok(LtScalar::F64(0)),
                DType::F32 => Ok(LtScalar::F32(0)),
                DType::F16 => Ok(LtScalar::F16(0)),
                DType::Bf16 => Ok(LtScalar::Bf16(0)),
                _ => Err::<LtScalar, LtError>(LtError::ScaleDtypeUnsupported(dtype)),
            }),
    {
        LtScalar::from_f64(dtype, HostScalar::zero())
    }
}

} // verus!
