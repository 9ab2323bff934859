//! Verified core of the OR-Tools SCIP bindings: solve statuses, parameter
//! codes and the conversions at the C boundary.
pub mod cabi;
pub mod params;
pub mod status;

pub use cabi::{
    c_bool, c_count, c_str_prefix, c_string_bytes, decode_c_buffer, from_c_bool, split_pairs,
    string_buffer_len, thread_setting_result,
};
pub use params::{
    DoubleParam, IncrementalityValues, IntegerParam, LpAlgorithmValues, PresolveValues,
    ScalingValues,
};
pub use status::Status;
