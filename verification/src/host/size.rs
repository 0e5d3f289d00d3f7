//! Sizes of buffers, as formulas over symbolic expressions.
use vstd::prelude::*;

verus! {

/// A formula over symbolic expressions of type `E`.
#[derive(Debug)]
pub enum SizeExpr<E> {
    /// The expression itself.
    Dim(E),
    /// The expression with the element-stride variable replaced by one.
    UnitStride(E),
    /// A number.
    Const(usize),
    /// A product.
    Mul(Box<SizeExpr<E>>, Box<SizeExpr<E>>),
    /// A quotient, rounded up.
    CeilDiv(Box<SizeExpr<E>>, Box<SizeExpr<E>>),
}

/// `a / b`, rounded up.
pub open spec fn ceil_div(a: nat, b: nat) -> nat
    recommends
        b > 0,
{
    ((a + b - 1) / b as int) as nat
}

impl<E> SizeExpr<E> {
    /// The value of the formula, where `dim` gives the value of an expression
    /// and `unit` its value with the element-stride variable at one.
    pub open spec fn value(self, dim: spec_fn(E) -> nat, unit: spec_fn(E) -> nat) -> nat
        decreases self,
    {
        match self {
            SizeExpr::Dim(e) => dim(e),
            SizeExpr::UnitStride(e) => unit(e),
            SizeExpr::Const(n) => n as nat,
            SizeExpr::Mul(a, b) => a.value(dim, unit) * b.value(dim, unit),
            SizeExpr::CeilDiv(a, b) => ceil_div(a.value(dim, unit), b.value(dim, unit)),
        }
    }

    /// The product of two formulas.
    pub fn times(self, other: SizeExpr<E>) -> (r: SizeExpr<E>)
        ensures
            r == SizeExpr::Mul(Box::new(self), Box::new(other)),
    {
        SizeExpr::Mul(Box::new(self), Box::new(other))
    }

    /// The quotient of two formulas, rounded up.
    pub fn ceil_div(self, other: SizeExpr<E>) -> (r: SizeExpr<E>)
        ensures
            r == SizeExpr::CeilDiv(Box::new(self), Box::new(other)),
    {
        SizeExpr::CeilDiv(Box::new(self), Box::new(other))
    }
}

/// A product has the product of the values, and a quotient by a positive number
/// is the least that the divisor takes to at least the value.
pub proof fn formulas_compute_their_values<E>(
    a: SizeExpr<E>,
    b: SizeExpr<E>,
    product: SizeExpr<E>,
    quotient: SizeExpr<E>,
    dim: spec_fn(E) -> nat,
    unit: spec_fn(E) -> nat,
)
    requires
        call_ensures(SizeExpr::<E>::times, (a, b), product),
        call_ensures(SizeExpr::<E>::ceil_div, (a, b), quotient),
    ensures
        product.value(dim, unit) == a.value(dim, unit) * b.value(dim, unit),
        b.value(dim, unit) > 0 ==> {
            let divisor = b.value(dim, unit);
            let result = quotient.value(dim, unit);
            &&& divisor * result >= a.value(dim, unit)
            &&& divisor * (result - 1) < a.value(dim, unit) || result == 0
        },
{
    let n = a.value(dim, unit);
    let divisor = b.value(dim, unit);
    if divisor > 0 {
        let result = quotient.value(dim, unit);
        let top = (n + divisor - 1) as int;
        assert(top / divisor as int >= 0) by (nonlinear_arith)
            requires
                top >= 0,
                divisor > 0,
        ;
        assert(result == top / divisor as int);
        vstd::arithmetic::div_mod::lemma_fundamental_div_mod(top, divisor as int);
        assert(divisor * (result - 1) == divisor * result - divisor) by (nonlinear_arith);
    }
}

} // verus!
