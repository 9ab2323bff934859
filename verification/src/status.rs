//! The outcome of a solve, as reported by the SCIP backend.
use vstd::prelude::*;

verus! {

/// Result status of a call to `solve`.
///
/// The backend reports the status as a C integer; `Status::code` gives that
/// integer back and `Status::from_raw` turns one into a `Status`. The
/// variants carry no explicit discriminants, so `as i32` gives their position;
/// use `code()` for the backend's integer.
#[derive(Debug, Clone, Copy, PartialEq, Eq, Structural, Hash)]
pub enum Status {
    Optimal,
    Feasible,
    Infeasible,
    Unbounded,
    Abnormal,
    ModelInvalid,
    NotSolved,
}

/// The integer by which the backend reports each status.
pub open spec fn status_code(s: Status) -> int {
    match s {
        Status::Optimal => 0,
        Status::Feasible => 1,
        Status::Infeasible => 2,
        Status::Unbounded => 3,
        Status::Abnormal => 4,
        Status::ModelInvalid => 5,
        Status::NotSolved => 6,
    }
}

/// The status that a raw backend integer stands for: the codes 0 to 5 name
/// their status, every other integer means that no solve took place.
pub open spec fn status_of_raw(v: int) -> Status {
    if v == 0 {
        Status::Optimal
    } else if v == 1 {
        Status::Feasible
    } else if v == 2 {
        Status::Infeasible
    } else if v == 3 {
        Status::Unbounded
    } else if v == 4 {
        Status::Abnormal
    } else if v == 5 {
        Status::ModelInvalid
    } else {
        Status::NotSolved
    }
}

/// Whether a status carries a usable solution.
pub open spec fn status_has_solution(s: Status) -> bool {
    s == Status::Optimal || s == Status::Feasible
}

/// The upper-case name under which a status is displayed.
pub open spec fn status_label(s: Status) -> Seq<char> {
    match s {
        Status::Optimal => "OPTIMAL"@,
        Status::Feasible => "FEASIBLE"@,
        Status::Infeasible => "INFEASIBLE"@,
        Status::Unbounded => "UNBOUNDED"@,
        Status::Abnormal => "ABNORMAL"@,
        Status::ModelInvalid => "MODEL_INVALID"@,
        Status::NotSolved => "NOT_SOLVED"@,
    }
}

impl Status {
    /// Interprets the integer returned by the backend's solve call.
    pub fn from_raw(v: i32) -> (s: Status)
        ensures
            s == status_of_raw(v as int),
    {
        match v {
            0 => Status::Optimal,
            1 => Status::Feasible,
            2 => Status::Infeasible,
            3 => Status::Unbounded,
            4 => Status::Abnormal,
            5 => Status::ModelInvalid,
            _ => Status::NotSolved,
        }
    }

    /// The integer by which the backend reports this status.
    pub fn code(self) -> (c: i32)
        ensures
            c as int == status_code(self),
    {
        match self {
            Status::Optimal => 0,
            Status::Feasible => 1,
            Status::Infeasible => 2,
            Status::Unbounded => 3,
            Status::Abnormal => 4,
            Status::ModelInvalid => 5,
            Status::NotSolved => 6,
        }
    }

    /// True exactly for `Optimal`.
    pub fn is_optimal(self) -> (b: bool)
        ensures
            b == (self == Status::Optimal),
    {
        self == Status::Optimal
    }

    /// True for `Optimal` and `Feasible`: the statuses after which solution
    /// values can be read.
    pub fn has_solution(self) -> (b: bool)
        ensures
            b == status_has_solution(self),
    {
        match self {
            Status::Optimal | Status::Feasible => true,
            _ => false,
        }
    }

    /// The upper-case name of this status, as it is displayed.
    pub fn display_name(self) -> (r: String)
        ensures
            r@ == status_label(self),
    {
        match self {
            Status::Optimal => String::from_str("OPTIMAL"),
            Status::Feasible => String::from_str("FEASIBLE"),
            Status::Infeasible => String::from_str("INFEASIBLE"),
            Status::Unbounded => String::from_str("UNBOUNDED"),
            Status::Abnormal => String::from_str("ABNORMAL"),
            Status::ModelInvalid => String::from_str("MODEL_INVALID"),
            Status::NotSolved => String::from_str("NOT_SOLVED"),
        }
    }
}

/// Reading back the code of any status gives that status again.
pub proof fn lemma_from_raw_inverts_code(s: Status)
    ensures
        status_of_raw(status_code(s)) == s,
{
}

/// A raw integer survives the trip through `Status` exactly when it is one
/// of the seven codes 0 to 6.
pub proof fn lemma_code_inverts_from_raw(v: int)
    ensures
        (status_code(status_of_raw(v)) == v) <==> (0 <= v <= 6),
{
}

/// Every integer outside 0 to 5 is read as `NotSolved`.
pub proof fn lemma_unknown_raw_is_not_solved(v: int)
    requires
        v < 0 || v > 5,
    ensures
        status_of_raw(v) == Status::NotSolved,
{
}

/// An optimal status always has a solution.
pub proof fn lemma_optimal_has_solution(s: Status)
    requires
        s == Status::Optimal,
    ensures
        status_has_solution(s),
{
}

/// Distinct statuses are displayed under distinct names.
pub proof fn lemma_labels_distinct(s: Status, t: Status)
    requires
        s != t,
    ensures
        status_label(s) != status_label(t),
{
    reveal_strlit("OPTIMAL");
    reveal_strlit("FEASIBLE");
    reveal_strlit("INFEASIBLE");
    reveal_strlit("UNBOUNDED");
    reveal_strlit("ABNORMAL");
    reveal_strlit("MODEL_INVALID");
    reveal_strlit("NOT_SOLVED");
    let a = status_label(s);
    let b = status_label(t);
    if a == b {
        assert(a.len() == b.len());
        assert(a[0] == b[0]);
        assert(a[1] == b[1]);
    }
}

} // verus!
