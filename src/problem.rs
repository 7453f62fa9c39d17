use vstd::prelude::*;

use crate::error::{is_illegal, reason_maxiter, reason_n, reason_ncv, reason_nev, Error};

verus! {

/// The largest value of the solver's index type.
pub const SOLVER_INDEX_MAX: usize = 2147483647;

pub open spec fn reason_size() -> Seq<char> {
    "Problem size exceeds the solver's index range."@
}

/// Length of the solver-scratch buffer for a subspace of dimension `ncv`.
pub open spec fn workl_len(ncv: int) -> int {
    3 * ncv * ncv + 6 * ncv
}

/// What the problem descriptor demands of its parameters.
pub open spec fn valid_parameters(n: int, nev: int, ncv: int, maxiter: int) -> bool {
    &&& n > 0
    &&& nev > 0
    &&& ncv >= nev + 2
    &&& ncv <= n
    &&& maxiter > 0
}

/// Every count handed to the solver fits its index type, and every buffer
/// length fits in memory.
pub open spec fn fits_solver(n: int, nev: int, ncv: int, maxiter: int) -> bool {
    &&& n <= SOLVER_INDEX_MAX
    &&& nev <= SOLVER_INDEX_MAX
    &&& ncv <= SOLVER_INDEX_MAX
    &&& maxiter <= SOLVER_INDEX_MAX
    &&& workl_len(ncv) <= SOLVER_INDEX_MAX
    &&& 3 * n <= usize::MAX
    &&& n * ncv <= usize::MAX
}

/// The outcome of validating a problem: the first parameter that the solver
/// would refuse gives its reason, then the machine limits are checked.
pub open spec fn new_outcome(n: usize, nev: usize, ncv: usize, maxiter: usize, r: Result<Problem, Error>) -> bool {
    if n == 0 {
        r is Err && is_illegal(r->Err_0, reason_n())
    } else if nev == 0 {
        r is Err && is_illegal(r->Err_0, reason_nev())
    } else if ncv < nev + 2 || ncv > n {
        r is Err && is_illegal(r->Err_0, reason_ncv())
    } else if maxiter == 0 {
        r is Err && is_illegal(r->Err_0, reason_maxiter())
    } else if !fits_solver(n as int, nev as int, ncv as int, maxiter as int) {
        r is Err && is_illegal(r->Err_0, reason_size())
    } else {
        r == Ok::<Problem, Error>(Problem { n, nev, ncv, maxiter })
    }
}

/// A validated problem descriptor: dimension, number of wanted eigenpairs,
/// subspace dimension and iteration limit.
#[derive(Debug, Clone, Copy, PartialEq, Eq, Structural)]
pub struct Problem {
    pub n: usize,
    pub nev: usize,
    pub ncv: usize,
    pub maxiter: usize,
}

impl Problem {
    pub open spec fn wf(self) -> bool {
        &&& valid_parameters(self.n as int, self.nev as int, self.ncv as int, self.maxiter as int)
        &&& fits_solver(self.n as int, self.nev as int, self.ncv as int, self.maxiter as int)
    }

    /// Checks the parameters in the order the solver does, then the machine
    /// limits, and builds the descriptor.
    pub fn new(n: usize, nev: usize, ncv: usize, maxiter: usize) -> (r: Result<Problem, Error>)
        ensures
            new_outcome(n, nev, ncv, maxiter, r),
            r is Ok ==> r->Ok_0.wf(),
            ncv <= nev || ncv > n ==> r is Err && r->Err_0 is IllegalParameters,
    {
        if n == 0 {
            return Err(crate::error::illegal(-1));
        }
        if nev == 0 {
            return Err(crate::error::illegal(-2));
        }
        if ncv < 2 || ncv - 2 < nev || ncv > n {
            return Err(crate::error::illegal(-3));
        }
        if maxiter == 0 {
            return Err(crate::error::illegal(-4));
        }
        if n > SOLVER_INDEX_MAX || nev > SOLVER_INDEX_MAX || ncv > SOLVER_INDEX_MAX
            || maxiter > SOLVER_INDEX_MAX {
            return Err(too_large());
        }
        let c: u64 = ncv as u64;
        assert(3 * c * c + 6 * c <= u64::MAX) by (nonlinear_arith)
            requires
                c <= SOLVER_INDEX_MAX,
        ;
        let workl: u64 = 3 * c * c + 6 * c;
        if workl > SOLVER_INDEX_MAX as u64 {
            return Err(too_large());
        }
        if n > usize::MAX / 3 {
            return Err(too_large());
        }
        if n > usize::MAX / ncv {
            assert(n * ncv > usize::MAX) by (nonlinear_arith)
                requires
                    n > usize::MAX / ncv,
                    ncv > 0,
            ;
            return Err(too_large());
        }
        assert(n * ncv <= usize::MAX) by (nonlinear_arith)
            requires
                n <= usize::MAX / ncv,
                ncv > 0,
        ;
        Ok(Problem { n, nev, ncv, maxiter })
    }

    /// The dimension as the solver's index type.
    pub fn n_arg(&self) -> (r: i32)
        requires
            self.wf(),
        ensures
            r as int == self.n,
    {
        self.n as i32
    }

    /// The number of wanted eigenpairs as the solver's index type.
    pub fn nev_arg(&self) -> (r: i32)
        requires
            self.wf(),
        ensures
            r as int == self.nev,
    {
        self.nev as i32
    }

    /// The subspace dimension as the solver's index type.
    pub fn ncv_arg(&self) -> (r: i32)
        requires
            self.wf(),
        ensures
            r as int == self.ncv,
    {
        self.ncv as i32
    }

    /// Length of the solver-scratch buffer.
    pub fn workl_len(&self) -> (r: usize)
        requires
            self.wf(),
        ensures
            r as int == workl_len(self.ncv as int),
    {
        let c: usize = self.ncv;
        assert(3 * c * c + 6 * c <= SOLVER_INDEX_MAX);
        assert(c * c <= 3 * c * c + 6 * c) by (nonlinear_arith);
        3 * c * c + 6 * c
    }

    /// Length of the solver-scratch buffer as the solver's index type.
    pub fn workl_arg(&self) -> (r: i32)
        requires
            self.wf(),
        ensures
            r as int == workl_len(self.ncv as int),
    {
        self.workl_len() as i32
    }
}

/// Sets up the problem for a dense `rows × cols` operator: a matrix that is
/// not square is refused before anything else, otherwise the problem is the
/// one of an operator of dimension `rows`.
pub fn dense_problem(rows: usize, cols: usize, nev: usize, ncv: usize, maxiter: usize) -> (r: Result<Problem, Error>)
    ensures
        rows != cols ==> r matches Err(Error::NonSquare),
        rows == cols ==> new_outcome(rows, nev, ncv, maxiter, r),
        r is Ok ==> r->Ok_0.wf(),
{
    if rows != cols {
        return Err(Error::NonSquare);
    }
    Problem::new(rows, nev, ncv, maxiter)
}

/// A square dense matrix of order `n` and the same operator given by its
/// dimension `n` set up the same solve: both succeed with one descriptor, or
/// both fail with one error.
pub proof fn lemma_dense_matches_operator(
    n: usize,
    nev: usize,
    ncv: usize,
    maxiter: usize,
    dense: Result<Problem, Error>,
    operator: Result<Problem, Error>,
)
    requires
        new_outcome(n, nev, ncv, maxiter, dense),
        new_outcome(n, nev, ncv, maxiter, operator),
    ensures
        dense is Ok <==> operator is Ok,
        dense is Ok ==> dense->Ok_0 == operator->Ok_0,
        dense is Err ==> dense->Err_0 is IllegalParameters && operator->Err_0 is IllegalParameters
            && dense->Err_0->IllegalParameters_0@ == operator->Err_0->IllegalParameters_0@,
{
}

fn too_large() -> (e: Error)
    ensures
        is_illegal(e, reason_size()),
{
    Error::IllegalParameters("Problem size exceeds the solver's index range.".to_owned())
}

} // verus!
