use vstd::prelude::*;

verus! {

/// The ways a solve can fail.
#[derive(Debug)]
pub enum Error {
    /// A dense operator whose row and column counts differ.
    NonSquare,
    /// A parameter that the solver (or the problem descriptor) refuses, with a reason.
    IllegalParameters(String),
    /// Any other negative status of the solver, passed through unchanged.
    Other(i32),
}

/// A successful end of the forward iteration, kept apart so that a caller can
/// ask for strict convergence.
#[derive(Debug, Clone, Copy, PartialEq, Eq, Structural)]
pub enum Status {
    /// Status `0`: every requested value converged.
    Converged,
    /// Status `1`: the iteration limit was reached first.
    IterationLimit,
    /// Status `2`: a code the solver documents as deprecated, accepted as success.
    Deprecated,
}

pub open spec fn reason_n() -> Seq<char> {
    "N must be positive."@
}

pub open spec fn reason_nev() -> Seq<char> {
    "NEV must be positive."@
}

pub open spec fn reason_ncv() -> Seq<char> {
    "NCV-NEV >= 2 and less than or equal to N."@
}

pub open spec fn reason_maxiter() -> Seq<char> {
    "Maximum iterations must be greater than 0."@
}

/// The reason attached to each status code that names an illegal parameter.
pub open spec fn illegal_reason(code: i32) -> Option<Seq<char>> {
    if code == -1 {
        Some(reason_n())
    } else if code == -2 {
        Some(reason_nev())
    } else if code == -3 {
        Some(reason_ncv())
    } else if code == -4 || code == -5 {
        Some(reason_maxiter())
    } else {
        None
    }
}

/// `e` is an illegal-parameter error carrying exactly `reason`.
pub open spec fn is_illegal(e: Error, reason: Seq<char>) -> bool {
    match e {
        Error::IllegalParameters(s) => s@ == reason,
        _ => false,
    }
}

/// What a solver status code means once the forward iteration has stopped.
pub open spec fn status_outcome(info: i32, r: Result<Status, Error>) -> bool {
    if info == 0 {
        r == Ok::<Status, Error>(Status::Converged)
    } else if info == 1 {
        r == Ok::<Status, Error>(Status::IterationLimit)
    } else if info == 2 {
        r == Ok::<Status, Error>(Status::Deprecated)
    } else if illegal_reason(info) is Some {
        r is Err && is_illegal(r->Err_0, illegal_reason(info)->Some_0)
    } else {
        r is Err && r->Err_0 == Error::Other(info)
    }
}

/// Builds the illegal-parameter error for a code that has a reason.
pub(crate) fn illegal(code: i32) -> (e: Error)
    requires
        illegal_reason(code) is Some,
    ensures
        is_illegal(e, illegal_reason(code)->Some_0),
{
    let s: &str = if code == -1 {
        "N must be positive."
    } else if code == -2 {
        "NEV must be positive."
    } else if code == -3 {
        "NCV-NEV >= 2 and less than or equal to N."
    } else {
        "Maximum iterations must be greater than 0."
    };
    Error::IllegalParameters(s.to_owned())
}

/// Classifies the status code left by the forward iteration when it stops.
pub fn classify_status(info: i32) -> (r: Result<Status, Error>)
    ensures
        status_outcome(info, r),
{
    if info == 0 {
        Ok(Status::Converged)
    } else if info == 1 {
        Ok(Status::IterationLimit)
    } else if info == 2 {
        Ok(Status::Deprecated)
    } else if -5 <= info && info <= -1 {
        Err(illegal(info))
    } else {
        Err(Error::Other(info))
    }
}

/// Classifies the status code of the extraction call: any negative code is
/// an error, classified as for the forward iteration.
pub fn classify_extraction(info: i32) -> (r: Result<(), Error>)
    ensures
        info >= 0 <==> r is Ok,
        info < 0 ==> (illegal_reason(info) is Some ==> r is Err && is_illegal(
            r->Err_0,
            illegal_reason(info)->Some_0,
        )),
        info < 0 ==> (illegal_reason(info) is None ==> r is Err && r->Err_0 == Error::Other(info)),
{
    if info >= 0 {
        Ok(())
    } else if info >= -5 {
        Err(illegal(info))
    } else {
        Err(Error::Other(info))
    }
}

} // verus!
