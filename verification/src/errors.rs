use vstd::prelude::*;

verus! {

/// The error kinds the engine reports. Malformed input (amounts, periods,
/// dates, transaction shape) and violations of the liability invariant are
/// `InvalidInput`; a reference to an absent account, transaction or schedule
/// is `NotFound`.
#[derive(Debug, Clone, Copy, PartialEq, Eq, Structural)]
pub enum AppError {
    InvalidInput,
    NotFound,
}

impl AppError {
    /// A short stable tag for display at the boundary.
    pub fn as_str(&self) -> (r: &'static str)
        ensures
            *self == AppError::InvalidInput ==> r@ == "InvalidInput"@,
            *self == AppError::NotFound ==> r@ == "NotFound"@,
    {
        match self {
            AppError::InvalidInput => "InvalidInput",
            AppError::NotFound => "NotFound",
        }
    }
}

} // verus!
