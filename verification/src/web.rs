//! What can go wrong when the metrics are served.

use vstd::prelude::*;

verus! {

/// An error of the endpoint that serves the metrics.
#[derive(Debug, Clone, PartialEq, Eq)]
pub enum MetricsError {
    /// The metrics could not be gathered, for the given reason.
    Generic(String),
}

/// The reason of an error.
pub open spec fn reason_of(e: MetricsError) -> Seq<char> {
    match e {
        MetricsError::Generic(reason) => reason@,
    }
}

impl MetricsError {
    /// The error in words: its reason.
    pub fn to_string(&self) -> (message: String)
        ensures
            message@ == reason_of(*self),
    {
        match self {
            MetricsError::Generic(reason) => reason.clone(),
        }
    }
}

} // verus!
