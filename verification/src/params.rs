//! Solver parameters and the values some of them take, each with the integer
//! code under which the backend knows it.
use vstd::prelude::*;

verus! {

/// Parameters that hold a floating-point value.
///
/// The backend knows this enumeration by the integers that `code()` returns.
/// The variants carry no explicit discriminants, so `as i32` gives their
/// position instead: hand the backend `code()`, never a cast.
#[derive(Debug, Clone, Copy, PartialEq, Eq, Structural)]
pub enum DoubleParam {
    RelativeMipGap,
    PrimalTolerance,
    DualTolerance,
}

/// Parameters that hold an integer value.
///
/// The backend knows this enumeration by the integers that `code()` returns.
/// The variants carry no explicit discriminants, so `as i32` gives their
/// position instead: hand the backend `code()`, never a cast.
#[derive(Debug, Clone, Copy, PartialEq, Eq, Structural)]
pub enum IntegerParam {
    Presolve,
    LpAlgorithm,
    Incrementality,
    Scaling,
}

/// Values of `IntegerParam::Presolve`.
///
/// The backend knows this enumeration by the integers that `code()` returns.
/// The variants carry no explicit discriminants, so `as i32` gives their
/// position instead: hand the backend `code()`, never a cast.
#[derive(Debug, Clone, Copy, PartialEq, Eq, Structural)]
pub enum PresolveValues {
    Off,
    On,
}

/// Values of `IntegerParam::LpAlgorithm`.
///
/// The backend knows this enumeration by the integers that `code()` returns.
/// The variants carry no explicit discriminants, so `as i32` gives their
/// position instead: hand the backend `code()`, never a cast.
#[derive(Debug, Clone, Copy, PartialEq, Eq, Structural)]
pub enum LpAlgorithmValues {
    Dual,
    Primal,
    Barrier,
}

/// Values of `IntegerParam::Incrementality`.
///
/// The backend knows this enumeration by the integers that `code()` returns.
/// The variants carry no explicit discriminants, so `as i32` gives their
/// position instead: hand the backend `code()`, never a cast.
#[derive(Debug, Clone, Copy, PartialEq, Eq, Structural)]
pub enum IncrementalityValues {
    Off,
    On,
}

/// Values of `IntegerParam::Scaling`.
///
/// The backend knows this enumeration by the integers that `code()` returns.
/// The variants carry no explicit discriminants, so `as i32` gives their
/// position instead: hand the backend `code()`, never a cast.
#[derive(Debug, Clone, Copy, PartialEq, Eq, Structural)]
pub enum ScalingValues {
    Off,
    On,
}

pub open spec fn double_param_code(p: DoubleParam) -> int {
    match p {
        DoubleParam::RelativeMipGap => 0,
        DoubleParam::PrimalTolerance => 1,
        DoubleParam::DualTolerance => 2,
    }
}

pub open spec fn integer_param_code(p: IntegerParam) -> int {
    match p {
        IntegerParam::Presolve => 1000,
        IntegerParam::LpAlgorithm => 1001,
        IntegerParam::Incrementality => 1002,
        IntegerParam::Scaling => 1003,
    }
}

pub open spec fn presolve_code(v: PresolveValues) -> int {
    match v {
        PresolveValues::Off => 0,
        PresolveValues::On => 1,
    }
}

pub open spec fn lp_algorithm_code(v: LpAlgorithmValues) -> int {
    match v {
        LpAlgorithmValues::Dual => 10,
        LpAlgorithmValues::Primal => 11,
        LpAlgorithmValues::Barrier => 12,
    }
}

pub open spec fn incrementality_code(v: IncrementalityValues) -> int {
    match v {
        IncrementalityValues::Off => 0,
        IncrementalityValues::On => 1,
    }
}

pub open spec fn scaling_code(v: ScalingValues) -> int {
    match v {
        ScalingValues::Off => 0,
        ScalingValues::On => 1,
    }
}

impl DoubleParam {
    /// The backend's code for this parameter.
    pub fn code(self) -> (c: i32)
        ensures
            c as int == double_param_code(self),
    {
        match self {
            DoubleParam::RelativeMipGap => 0,
            DoubleParam::PrimalTolerance => 1,
            DoubleParam::DualTolerance => 2,
        }
    }
}

impl IntegerParam {
    /// The backend's code for this parameter.
    pub fn code(self) -> (c: i32)
        ensures
            c as int == integer_param_code(self),
    {
        match self {
            IntegerParam::Presolve => 1000,
            IntegerParam::LpAlgorithm => 1001,
            IntegerParam::Incrementality => 1002,
            IntegerParam::Scaling => 1003,
        }
    }
}

impl PresolveValues {
    /// The integer value to store in `IntegerParam::Presolve`.
    pub fn code(self) -> (c: i32)
        ensures
            c as int == presolve_code(self),
    {
        match self {
            PresolveValues::Off => 0,
            PresolveValues::On => 1,
        }
    }
}

impl LpAlgorithmValues {
    /// The integer value to store in `IntegerParam::LpAlgorithm`.
    pub fn code(self) -> (c: i32)
        ensures
            c as int == lp_algorithm_code(self),
    {
        match self {
            LpAlgorithmValues::Dual => 10,
            LpAlgorithmValues::Primal => 11,
            LpAlgorithmValues::Barrier => 12,
        }
    }
}

impl IncrementalityValues {
    /// The integer value to store in `IntegerParam::Incrementality`.
    pub fn code(self) -> (c: i32)
        ensures
            c as int == incrementality_code(self),
    {
        match self {
            IncrementalityValues::Off => 0,
            IncrementalityValues::On => 1,
        }
    }
}

impl ScalingValues {
    /// The integer value to store in `IntegerParam::Scaling`.
    pub fn code(self) -> (c: i32)
        ensures
            c as int == scaling_code(self),
    {
        match self {
            ScalingValues::Off => 0,
            ScalingValues::On => 1,
        }
    }
}

/// No two parameters share a code: double parameters, integer parameters and
/// the two kinds among each other are told apart by their codes alone.
pub proof fn lemma_param_codes_distinct(a: DoubleParam, b: DoubleParam, i: IntegerParam, j: IntegerParam)
    ensures
        double_param_code(a) == double_param_code(b) ==> a == b,
        integer_param_code(i) == integer_param_code(j) ==> i == j,
        double_param_code(a) != integer_param_code(i),
{
}

/// Each value enumeration gives its values distinct codes.
pub proof fn lemma_value_codes_distinct(
    p: PresolveValues,
    q: PresolveValues,
    l: LpAlgorithmValues,
    m: LpAlgorithmValues,
    i: IncrementalityValues,
    j: IncrementalityValues,
    s: ScalingValues,
    t: ScalingValues,
)
    ensures
        presolve_code(p) == presolve_code(q) ==> p == q,
        lp_algorithm_code(l) == lp_algorithm_code(m) ==> l == m,
        incrementality_code(i) == incrementality_code(j) ==> i == j,
        scaling_code(s) == scaling_code(t) ==> s == t,
{
}

} // verus!
