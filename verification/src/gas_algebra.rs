//! Gas quantities.
//!
//! Every quantity is a 64-bit unsigned integer tagged with its unit. Only the
//! unit-correct operations exist: a rate times a count is a cost, a cost plus a
//! cost is a cost, a byte count minus a byte count is a byte count. Nothing
//! here wraps around or panics: sums and products stop at the largest
//! representable quantity, and differences stop at zero.
use vstd::prelude::*;

verus! {

/// The value at which every quantity stops growing.
pub open spec fn max_quantity() -> int {
    u64::MAX as int
}

/// `v`, held to the range of a quantity.
pub open spec fn saturate(v: int) -> int {
    if v > max_quantity() {
        max_quantity()
    } else if v < 0 {
        0
    } else {
        v
    }
}

/// Saturation leaves a value alone exactly when it is in range.
pub proof fn lemma_saturate_in_range(v: int)
    ensures
        0 <= saturate(v) <= max_quantity(),
        0 <= v <= max_quantity() <==> saturate(v) == v,
{
}

fn saturating_product(x: u64, y: u64) -> (r: u64)
    ensures
        r as int == saturate(x as int * y as int),
{
    assert(0 <= x as int * y as int) by (nonlinear_arith)
        requires
            0 <= x as int,
            0 <= y as int,
    ;
    match x.checked_mul(y) {
        Some(v) => v,
        None => u64::MAX,
    }
}

/// A number of bytes.
#[derive(Clone, Copy, Debug, PartialEq, Eq)]
pub struct NumBytes(u64);

/// A number of items.
#[derive(Clone, Copy, Debug, PartialEq, Eq)]
pub struct NumArgs(u64);

/// An amount of gas, in the internal fixed-point unit.
#[derive(Clone, Copy, Debug, PartialEq, Eq)]
pub struct InternalGas(u64);

/// A price in internal gas units per byte.
#[derive(Clone, Copy, Debug, PartialEq, Eq)]
pub struct InternalGasPerByte(u64);

/// A price in internal gas units per item.
#[derive(Clone, Copy, Debug, PartialEq, Eq)]
pub struct InternalGasPerArg(u64);

impl View for NumBytes {
    type V = u64;

    closed spec fn view(&self) -> u64 {
        self.0
    }
}

impl View for NumArgs {
    type V = u64;

    closed spec fn view(&self) -> u64 {
        self.0
    }
}

impl View for InternalGas {
    type V = u64;

    closed spec fn view(&self) -> u64 {
        self.0
    }
}

impl View for InternalGasPerByte {
    type V = u64;

    closed spec fn view(&self) -> u64 {
        self.0
    }
}

impl View for InternalGasPerArg {
    type V = u64;

    closed spec fn view(&self) -> u64 {
        self.0
    }
}

impl NumBytes {
    pub fn new(val: u64) -> (r: Self)
        ensures
            r@ == val,
    {
        NumBytes(val)
    }

    pub fn zero() -> (r: Self)
        ensures
            r@ == 0,
    {
        NumBytes(0)
    }

    pub fn value(self) -> (v: u64)
        ensures
            v == self@,
    {
        self.0
    }

    /// The sum of two byte counts, saturating.
    pub fn plus(self, rhs: NumBytes) -> (r: NumBytes)
        ensures
            r@ as int == saturate(self@ + rhs@),
    {
        NumBytes(self.0.saturating_add(rhs.0))
    }

    /// `self - rhs` where that is not negative, nothing otherwise.
    pub fn checked_sub(self, rhs: NumBytes) -> (r: Option<NumBytes>)
        ensures
            self@ >= rhs@ ==> r.is_some() && r.unwrap()@ == self@ - rhs@,
            self@ < rhs@ ==> r.is_none(),
    {
        match self.0.checked_sub(rhs.0) {
            Some(v) => Some(NumBytes(v)),
            None => None,
        }
    }

    /// `self - rhs`, stopping at zero.
    pub fn saturating_sub(self, rhs: NumBytes) -> (r: NumBytes)
        ensures
            r@ as int == saturate(self@ - rhs@),
    {
        NumBytes(self.0.saturating_sub(rhs.0))
    }

    /// The cost of this many bytes at `rate`, saturating.
    pub fn times(self, rate: InternalGasPerByte) -> (r: InternalGas)
        ensures
            r@ as int == saturate(self@ * rate@),
    {
        InternalGas(saturating_product(self.0, rate.0))
    }
}

impl NumArgs {
    pub fn new(val: u64) -> (r: Self)
        ensures
            r@ == val,
    {
        NumArgs(val)
    }

    pub fn value(self) -> (v: u64)
        ensures
            v == self@,
    {
        self.0
    }
}

impl InternalGas {
    pub fn new(val: u64) -> (r: Self)
        ensures
            r@ == val,
    {
        InternalGas(val)
    }

    pub fn zero() -> (r: Self)
        ensures
            r@ == 0,
    {
        InternalGas(0)
    }

    pub fn value(self) -> (v: u64)
        ensures
            v == self@,
    {
        self.0
    }

    /// The sum of two costs, saturating.
    pub fn plus(self, rhs: InternalGas) -> (r: InternalGas)
        ensures
            r@ as int == saturate(self@ + rhs@),
    {
        InternalGas(self.0.saturating_add(rhs.0))
    }
}

impl InternalGasPerByte {
    pub fn new(val: u64) -> (r: Self)
        ensures
            r@ == val,
    {
        InternalGasPerByte(val)
    }

    pub fn zero() -> (r: Self)
        ensures
            r@ == 0,
    {
        InternalGasPerByte(0)
    }

    pub fn value(self) -> (v: u64)
        ensures
            v == self@,
    {
        self.0
    }

    /// The cost of `bytes` bytes at this price, saturating.
    pub fn times(self, bytes: NumBytes) -> (r: InternalGas)
        ensures
            r@ as int == saturate(self@ * bytes@),
    {
        InternalGas(saturating_product(self.0, bytes.0))
    }
}

impl InternalGasPerArg {
    pub fn new(val: u64) -> (r: Self)
        ensures
            r@ == val,
    {
        InternalGasPerArg(val)
    }

    pub fn zero() -> (r: Self)
        ensures
            r@ == 0,
    {
        InternalGasPerArg(0)
    }

    pub fn value(self) -> (v: u64)
        ensures
            v == self@,
    {
        self.0
    }

    /// The cost of `args` items at this price, saturating.
    pub fn times(self, args: NumArgs) -> (r: InternalGas)
        ensures
            r@ as int == saturate(self@ * args@),
    {
        InternalGas(saturating_product(self.0, args.0))
    }
}

} // verus!
