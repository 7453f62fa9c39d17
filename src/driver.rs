use vstd::prelude::*;

use crate::error::{classify_extraction, classify_status, status_outcome, Error, Status};
use crate::problem::Problem;
use crate::protocol::{decode, decoded, Request};

verus! {

/// Where a solve stands.
#[derive(Debug, Clone, Copy, PartialEq, Eq, Structural)]
pub enum Phase {
    /// Inside the forward iteration.
    Iterating,
    /// The iteration stopped with this status; the extraction call is next.
    Extracting(Status),
    /// The results were extracted.
    Finished(Status),
    /// The solve was abandoned with an error.
    Failed,
}

/// What the caller of the solver must do next.
#[derive(Debug)]
pub enum Action {
    /// Call the forward step again.
    CallSolver,
    /// Apply the operator to `workd[input .. input + n]` and store the result
    /// in `workd[output .. output + n]`, then call the forward step again.
    ApplyOperator { input: usize, output: usize },
    /// Make the extraction call.
    Extract,
    /// Stop and report the error.
    Fail(Error),
}

/// The decisions of one solve: which solver call comes next, when the
/// operator is applied, and how the solve ends.
pub struct Driver {
    pub problem: Problem,
    pub phase: Phase,
}

impl Driver {
    pub open spec fn wf(&self) -> bool {
        self.problem.wf()
    }

    /// Length of the exchange buffer that the solver's offsets point into.
    pub open spec fn exchange_len(&self) -> int {
        3 * self.problem.n
    }

    /// A driver at the start of the forward iteration.
    pub fn new(problem: Problem) -> (d: Driver)
        requires
            problem.wf(),
        ensures
            d.wf(),
            d.problem == problem,
            d.phase == Phase::Iterating,
    {
        Driver { problem, phase: Phase::Iterating }
    }

    /// Decides what follows a forward step that left the token `ido`, the
    /// status `info` and the pointer array `ipntr`.
    pub fn after_step(&mut self, ido: i32, info: i32, ipntr: &Vec<i32>) -> (a: Action)
        requires
            old(self).wf(),
            old(self).phase == Phase::Iterating,
            ipntr@.len() >= 2,
        ensures
            final(self).wf(),
            final(self).problem == old(self).problem,
            ({
                let req = decoded(
                    ido,
                    ipntr@[0],
                    ipntr@[1],
                    old(self).problem.n as int,
                    old(self).exchange_len(),
                );
                match req {
                    Request::Again => a is CallSolver && final(self).phase == Phase::Iterating,
                    Request::MatVec { input, output } => a == (Action::ApplyOperator {
                        input,
                        output,
                    }) && final(self).phase == Phase::Iterating,
                    Request::BadWindow => a == Action::Fail(Error::Other(ido))
                        && final(self).phase == Phase::Failed,
                    Request::Done => match a {
                        Action::Extract => exists|s: Status|
                            status_outcome(info, Ok(s)) && final(self).phase
                                == Phase::Extracting(s),
                        Action::Fail(e) => status_outcome(info, Err(e)) && final(self).phase
                            == Phase::Failed,
                        _ => false,
                    },
                }
            }),
            a matches Action::ApplyOperator { input, output } ==> input + old(self).problem.n
                <= old(self).exchange_len() && output + old(self).problem.n
                <= old(self).exchange_len(),
    {
        let n: usize = self.problem.n;
        match decode(ido, ipntr, n, 3 * n) {
            Request::Again => Action::CallSolver,
            Request::MatVec { input, output } => Action::ApplyOperator { input, output },
            Request::BadWindow => {
                self.phase = Phase::Failed;
                Action::Fail(Error::Other(ido))
            },
            Request::Done => match classify_status(info) {
                Ok(s) => {
                    self.phase = Phase::Extracting(s);
                    Action::Extract
                },
                Err(e) => {
                    self.phase = Phase::Failed;
                    Action::Fail(e)
                },
            },
        }
    }

    /// Ends the solve after the extraction call left the status `info`.
    pub fn after_extraction(&mut self, info: i32) -> (r: Result<Status, Error>)
        requires
            old(self).wf(),
            old(self).phase is Extracting,
        ensures
            final(self).wf(),
            final(self).problem == old(self).problem,
            info >= 0 ==> r == Ok::<Status, Error>(old(self).phase->Extracting_0)
                && final(self).phase == Phase::Finished(old(self).phase->Extracting_0),
            info < 0 ==> r is Err && final(self).phase == Phase::Failed,
            info < 0 ==> status_outcome(info, r),
    {
        let s = match self.phase {
            Phase::Extracting(s) => s,
            _ => Status::Converged,
        };
        match classify_extraction(info) {
            Ok(()) => {
                self.phase = Phase::Finished(s);
                Ok(s)
            },
            Err(e) => {
                self.phase = Phase::Failed;
                Err(e)
            },
        }
    }
}

} // verus!
