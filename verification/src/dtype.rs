//! Element types and the C type names that stand for them in HIP source.
use vstd::prelude::*;

verus! {

/// Element type of a tensor.
#[derive(Clone, Copy, Debug, PartialEq, Eq, Hash, Structural)]
pub enum DType {
    F64,
    F32,
    F16,
    Bf16,
    TF32,
    Int,
    I16,
    U16,
    I8,
    U8,
    Bool,
    F8E4M3,
    F8E5M2,
    F8UE8M0,
    F6E2M3,
    F6E3M2,
    F4E2M1,
    I4,
    U4,
}

impl DType {
    /// The name of the element type.
    pub open spec fn name_text(self) -> Seq<char> {
        match self {
            DType::F64 => "F64"@,
            DType::F32 => "F32"@,
            DType::F16 => "F16"@,
            DType::Bf16 => "Bf16"@,
            DType::TF32 => "TF32"@,
            DType::Int => "Int"@,
            DType::I16 => "I16"@,
            DType::U16 => "U16"@,
            DType::I8 => "I8"@,
            DType::U8 => "U8"@,
            DType::Bool => "Bool"@,
            DType::F8E4M3 => "F8E4M3"@,
            DType::F8E5M2 => "F8E5M2"@,
            DType::F8UE8M0 => "F8UE8M0"@,
            DType::F6E2M3 => "F6E2M3"@,
            DType::F6E3M2 => "F6E3M2"@,
            DType::F4E2M1 => "F4E2M1"@,
            DType::I4 => "I4"@,
            DType::U4 => "U4"@,
        }
    }

    /// The name of the element type, as messages show it.
    pub fn name(self) -> (r: &'static str)
        ensures
            r@ == self.name_text(),
    {
        match self {
            DType::F64 => "F64",
            DType::F32 => "F32",
            DType::F16 => "F16",
            DType::Bf16 => "Bf16",
            DType::TF32 => "TF32",
            DType::Int => "Int",
            DType::I16 => "I16",
            DType::U16 => "U16",
            DType::I8 => "I8",
            DType::U8 => "U8",
            DType::Bool => "Bool",
            DType::F8E4M3 => "F8E4M3",
            DType::F8E5M2 => "F8E5M2",
            DType::F8UE8M0 => "F8UE8M0",
            DType::F6E2M3 => "F6E2M3",
            DType::F6E3M2 => "F6E3M2",
            DType::F4E2M1 => "F4E2M1",
            DType::I4 => "I4",
            DType::U4 => "U4",
        }
    }
}

/// The C type that stores one element in generated HIP source. TF32 is a
/// compute mode over `float` storage, and the four-bit integers are packed
/// into bytes.
pub open spec fn rocm_dtype_text(dtype: DType) -> Seq<char> {
    match dtype {
        DType::F64 => "double"@,
        DType::F32 => "float"@,
        DType::F16 => "half"@,
        DType::Bf16 => "__nv_bfloat16"@,
        DType::TF32 => "float"@,
        DType::Int => "int"@,
        DType::I16 => "short"@,
        DType::U16 => "unsigned short"@,
        DType::I8 => "signed char"@,
        DType::U8 => "unsigned char"@,
        DType::Bool => "unsigned char"@,
        DType::F8E4M3 => "__nv_fp8_e4m3"@,
        DType::F8E5M2 => "__nv_fp8_e5m2"@,
        DType::F8UE8M0 => "__nv_fp8_e8m0"@,
        DType::F6E2M3 => "__nv_fp6_e2m3"@,
        DType::F6E3M2 => "__nv_fp6_e3m2"@,
        DType::F4E2M1 => "__nv_fp4_e2m1"@,
        DType::I4 => "unsigned char"@,
        DType::U4 => "unsigned char"@,
    }
}

/// The C type that stores one element in generated HIP source.
pub fn rocm_dtype(dtype: DType) -> (r: &'static str)
    ensures
        r@ == rocm_dtype_text(dtype),
{
    match dtype {
        DType::F64 => "double",
        DType::F32 => "float",
        DType::F16 => "half",
        DType::Bf16 => "__nv_bfloat16",
        DType::TF32 => "float",
        DType::Int => "int",
        DType::I16 => "short",
        DType::U16 => "unsigned short",
        DType::I8 => "signed char",
        DType::U8 => "unsigned char",
        DType::Bool => "unsigned char",
        DType::F8E4M3 => "__nv_fp8_e4m3",
        DType::F8E5M2 => "__nv_fp8_e5m2",
        DType::F8UE8M0 => "__nv_fp8_e8m0",
        DType::F6E2M3 => "__nv_fp6_e2m3",
        DType::F6E3M2 => "__nv_fp6_e3m2",
        DType::F4E2M1 => "__nv_fp4_e2m1",
        DType::I4 => "unsigned char",
        DType::U4 => "unsigned char",
    }
}

/// Floating-point elements are stored in the C type of their format: `double`,
/// `float` for single precision and for TF32, which is computed in and stored as
/// single precision, `half`, and the sixteen-bit brain format; and the narrow
/// ones in the type that is named by their width and by the bits of exponent and
/// mantissa.
pub proof fn floats_are_stored_in_their_format(dtype: DType, r: &'static str)
    requires
        call_ensures(rocm_dtype, (dtype,), r),
    ensures
        dtype is F64 ==> r@ == "double"@,
        dtype is F32 || dtype is TF32 ==> r@ == "float"@,
        dtype is F16 ==> r@ == "half"@,
        dtype is Bf16 ==> r@ == "__nv_bfloat16"@,
        dtype is F8E4M3 ==> r@ == narrow_format('8', '4', '3'),
        dtype is F8E5M2 ==> r@ == narrow_format('8', '5', '2'),
        dtype is F8UE8M0 ==> r@ == narrow_format('8', '8', '0'),
        dtype is F6E2M3 ==> r@ == narrow_format('6', '2', '3'),
        dtype is F6E3M2 ==> r@ == narrow_format('6', '3', '2'),
        dtype is F4E2M1 ==> r@ == narrow_format('4', '2', '1'),
{
    reveal_strlit("__nv_fp");
    reveal_strlit("__nv_fp8_e4m3");
    reveal_strlit("__nv_fp8_e5m2");
    reveal_strlit("__nv_fp8_e8m0");
    reveal_strlit("__nv_fp6_e2m3");
    reveal_strlit("__nv_fp6_e3m2");
    reveal_strlit("__nv_fp4_e2m1");
}

/// The C type of a narrow floating-point format of this width, with this many
/// bits of exponent and mantissa.
pub open spec fn narrow_format(width: char, exponent: char, mantissa: char) -> Seq<char> {
    "__nv_fp"@ + seq![width, '_', 'e', exponent, 'm', mantissa]
}

/// Integers are stored in the C integer of their width and sign; truth values and
/// packed four-bit integers in unsigned bytes.
pub proof fn integers_are_stored_in_their_width(dtype: DType, r: &'static str)
    requires
        call_ensures(rocm_dtype, (dtype,), r),
    ensures
        dtype is Int ==> r@ == "int"@,
        dtype is I16 ==> r@ == "short"@,
        dtype is U16 ==> r@ == "unsigned "@ + "short"@,
        dtype is I8 ==> r@ == "signed "@ + "char"@,
        dtype is U8 || dtype is Bool || dtype is I4 || dtype is U4 ==> r@ == "unsigned "@
            + "char"@,
{
    reveal_strlit("short");
    reveal_strlit("char");
    reveal_strlit("signed ");
    reveal_strlit("unsigned ");
    reveal_strlit("unsigned short");
    reveal_strlit("signed char");
    reveal_strlit("unsigned char");
}

/// The name of an element type is a letter or two for its kind, and then its
/// width in bits; for the narrow floating-point types, also the bits of exponent
/// and mantissa.
pub proof fn element_types_are_named_by_kind_and_width(dtype: DType, r: &'static str)
    requires
        call_ensures(DType::name, (dtype,), r),
    ensures
        dtype is F64 ==> r@ == seq!['F', '6', '4'],
        dtype is F32 ==> r@ == seq!['F', '3', '2'],
        dtype is F16 ==> r@ == seq!['F', '1', '6'],
        dtype is Bf16 ==> r@ == seq!['B', 'f', '1', '6'],
        dtype is TF32 ==> r@ == seq!['T', 'F', '3', '2'],
        dtype is Int ==> r@ == seq!['I', 'n', 't'],
        dtype is I16 ==> r@ == seq!['I', '1', '6'],
        dtype is U16 ==> r@ == seq!['U', '1', '6'],
        dtype is I8 ==> r@ == seq!['I', '8'],
        dtype is U8 ==> r@ == seq!['U', '8'],
        dtype is Bool ==> r@ == seq!['B', 'o', 'o', 'l'],
        dtype is F8E4M3 ==> r@ == seq!['F', '8', 'E', '4', 'M', '3'],
        dtype is F8E5M2 ==> r@ == seq!['F', '8', 'E', '5', 'M', '2'],
        dtype is F8UE8M0 ==> r@ == seq!['F', '8', 'U', 'E', '8', 'M', '0'],
        dtype is F6E2M3 ==> r@ == seq!['F', '6', 'E', '2', 'M', '3'],
        dtype is F6E3M2 ==> r@ == seq!['F', '6', 'E', '3', 'M', '2'],
        dtype is F4E2M1 ==> r@ == seq!['F', '4', 'E', '2', 'M', '1'],
        dtype is I4 ==> r@ == seq!['I', '4'],
        dtype is U4 ==> r@ == seq!['U', '4'],
{
    reveal_strlit("F64");
    reveal_strlit("F32");
    reveal_strlit("F16");
    reveal_strlit("Bf16");
    reveal_strlit("TF32");
    reveal_strlit("Int");
    reveal_strlit("I16");
    reveal_strlit("U16");
    reveal_strlit("I8");
    reveal_strlit("U8");
    reveal_strlit("Bool");
    reveal_strlit("F8E4M3");
    reveal_strlit("F8E5M2");
    reveal_strlit("F8UE8M0");
    reveal_strlit("F6E2M3");
    reveal_strlit("F6E3M2");
    reveal_strlit("F4E2M1");
    reveal_strlit("I4");
    reveal_strlit("U4");
}

} // verus!
