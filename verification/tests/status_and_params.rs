use ortools_scip::{
    DoubleParam, IncrementalityValues, IntegerParam, LpAlgorithmValues, PresolveValues,
    ScalingValues, Status,
};

const ALL: [Status; 7] = [
    Status::Optimal,
    Status::Feasible,
    Status::Infeasible,
    Status::Unbounded,
    Status::Abnormal,
    Status::ModelInvalid,
    Status::NotSolved,
];

#[test]
fn from_raw_known_codes() {
    assert_eq!(Status::from_raw(0), Status::Optimal);
    assert_eq!(Status::from_raw(1), Status::Feasible);
    assert_eq!(Status::from_raw(2), Status::Infeasible);
    assert_eq!(Status::from_raw(3), Status::Unbounded);
    assert_eq!(Status::from_raw(4), Status::Abnormal);
    assert_eq!(Status::from_raw(5), Status::ModelInvalid);
    assert_eq!(Status::from_raw(6), Status::NotSolved);
}

#[test]
fn from_raw_unknown_codes_are_not_solved() {
    assert_eq!(Status::from_raw(-1), Status::NotSolved);
    assert_eq!(Status::from_raw(7), Status::NotSolved);
    assert_eq!(Status::from_raw(i32::MAX), Status::NotSolved);
    assert_eq!(Status::from_raw(i32::MIN), Status::NotSolved);
}

#[test]
fn code_round_trips_through_from_raw() {
    for s in ALL {
        assert_eq!(Status::from_raw(s.code()), s);
    }
    assert_eq!(Status::Optimal.code(), 0);
    assert_eq!(Status::NotSolved.code(), 6);
}

#[test]
fn is_optimal_only_for_optimal() {
    for s in ALL {
        assert_eq!(s.is_optimal(), s == Status::Optimal);
    }
}

#[test]
fn has_solution_for_optimal_and_feasible() {
    assert!(Status::Optimal.has_solution());
    assert!(Status::Feasible.has_solution());
    assert!(!Status::Infeasible.has_solution());
    assert!(!Status::Unbounded.has_solution());
    assert!(!Status::Abnormal.has_solution());
    assert!(!Status::ModelInvalid.has_solution());
    assert!(!Status::NotSolved.has_solution());
    for s in ALL {
        if s.is_optimal() {
            assert!(s.has_solution());
        }
    }
}

#[test]
fn display_names() {
    assert_eq!(Status::Optimal.display_name(), "OPTIMAL");
    assert_eq!(Status::Feasible.display_name(), "FEASIBLE");
    assert_eq!(Status::Infeasible.display_name(), "INFEASIBLE");
    assert_eq!(Status::Unbounded.display_name(), "UNBOUNDED");
    assert_eq!(Status::Abnormal.display_name(), "ABNORMAL");
    assert_eq!(Status::ModelInvalid.display_name(), "MODEL_INVALID");
    assert_eq!(Status::NotSolved.display_name(), "NOT_SOLVED");
}

#[test]
fn display_names_distinct() {
    for a in ALL {
        for b in ALL {
            assert_eq!(a == b, a.display_name() == b.display_name());
        }
    }
}

#[test]
fn parameter_codes() {
    assert_eq!(DoubleParam::RelativeMipGap.code(), 0);
    assert_eq!(DoubleParam::PrimalTolerance.code(), 1);
    assert_eq!(DoubleParam::DualTolerance.code(), 2);
    assert_eq!(IntegerParam::Presolve.code(), 1000);
    assert_eq!(IntegerParam::LpAlgorithm.code(), 1001);
    assert_eq!(IntegerParam::Incrementality.code(), 1002);
    assert_eq!(IntegerParam::Scaling.code(), 1003);
}

#[test]
fn parameter_codes_distinct() {
    let doubles = [
        DoubleParam::RelativeMipGap.code(),
        DoubleParam::PrimalTolerance.code(),
        DoubleParam::DualTolerance.code(),
    ];
    let integers = [
        IntegerParam::Presolve.code(),
        IntegerParam::LpAlgorithm.code(),
        IntegerParam::Incrementality.code(),
        IntegerParam::Scaling.code(),
    ];
    let mut all: Vec<i32> = doubles.iter().chain(integers.iter()).copied().collect();
    all.sort();
    all.dedup();
    assert_eq!(all.len(), 7);
}

#[test]
fn value_codes() {
    assert_eq!(PresolveValues::Off.code(), 0);
    assert_eq!(PresolveValues::On.code(), 1);
    assert_eq!(LpAlgorithmValues::Dual.code(), 10);
    assert_eq!(LpAlgorithmValues::Primal.code(), 11);
    assert_eq!(LpAlgorithmValues::Barrier.code(), 12);
    assert_eq!(IncrementalityValues::Off.code(), 0);
    assert_eq!(IncrementalityValues::On.code(), 1);
    assert_eq!(ScalingValues::Off.code(), 0);
    assert_eq!(ScalingValues::On.code(), 1);
}
