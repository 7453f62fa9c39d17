use vstd::prelude::*;

use crate::problem::{workl_len, Problem};

verus! {

/// The scalar domain of a solve, which decides the extra real buffers.
#[derive(Debug, Clone, Copy, PartialEq, Eq, Structural)]
pub enum Domain {
    RealSymmetric,
    ComplexGeneral,
}

/// Every element of `s` is `x`.
pub open spec fn all_equal<T>(s: Seq<T>, x: T) -> bool {
    forall|i: int| 0 <= i < s.len() ==> s[i] == x
}

/// The control array handed to the solver: exact shifts, the iteration
/// limit, and the standard (identity-mapped) mode.
pub open spec fn control_array(maxiter: int) -> Seq<i32> {
    Seq::new(11, |i: int| if i == 0 || i == 6 { 1i32 } else if i == 2 { maxiter as i32 } else { 0i32 })
}

/// A vector of `len` copies of `x`.
pub fn filled<T: Copy>(x: T, len: usize) -> (r: Vec<T>)
    ensures
        r@.len() == len,
        all_equal(r@, x),
{
    let mut r: Vec<T> = Vec::new();
    let mut i: usize = 0;
    while i < len
        invariant
            i <= len,
            r@.len() == i,
            all_equal(r@, x),
        decreases len - i,
    {
        r.push(x);
        i = i + 1;
    }
    r
}

/// The buffers of the forward iteration, owned by one solve.
pub struct Workspace<T, R> {
    /// Residual vector, length `n`.
    pub resid: Vec<T>,
    /// Basis matrix, `n × ncv`, column-major.
    pub v: Vec<T>,
    /// Control/status array, 11 slots.
    pub iparam: Vec<i32>,
    /// Pointer array, 14 slots of 1-based offsets into `workd`.
    pub ipntr: Vec<i32>,
    /// Exchange buffer for operator applications, length `3n`.
    pub workd: Vec<T>,
    /// Solver scratch, length `3·ncv² + 6·ncv`.
    pub workl: Vec<T>,
    /// Real scratch, length `ncv` in the complex domain and empty otherwise.
    pub rwork: Vec<R>,
}

impl<T: Copy, R: Copy> Workspace<T, R> {
    /// The buffer lengths that the solver's calling convention expects.
    pub open spec fn sized(&self, p: Problem, domain: Domain) -> bool {
        &&& self.resid@.len() == p.n
        &&& self.v@.len() == p.n * p.ncv
        &&& self.iparam@.len() == 11
        &&& self.ipntr@.len() == 14
        &&& self.workd@.len() == 3 * p.n
        &&& self.workl@.len() == workl_len(p.ncv as int)
        &&& self.rwork@.len() == (if domain == Domain::ComplexGeneral { p.ncv as int } else { 0 })
    }

    /// Allocates the zeroed buffers of a cold-started solve.
    pub fn new(p: &Problem, domain: Domain, zero: T, rzero: R) -> (w: Self)
        requires
            p.wf(),
        ensures
            w.sized(*p, domain),
            all_equal(w.resid@, zero),
            all_equal(w.v@, zero),
            all_equal(w.workd@, zero),
            all_equal(w.workl@, zero),
            all_equal(w.rwork@, rzero),
            all_equal(w.ipntr@, 0i32),
            w.iparam@ == control_array(p.maxiter as int),
    {
        let n: usize = p.n;
        let resid = filled(zero, n);
        let v = filled(zero, n * p.ncv);
        let mut iparam = filled(0i32, 11);
        iparam.set(0, 1);
        iparam.set(2, p.maxiter as i32);
        iparam.set(6, 1);
        assert(iparam@ =~= control_array(p.maxiter as int));
        let ipntr = filled(0i32, 14);
        let workd = filled(zero, 3 * n);
        let workl = filled(zero, p.workl_len());
        let rlen: usize = match domain {
            Domain::ComplexGeneral => p.ncv,
            Domain::RealSymmetric => 0,
        };
        let rwork = filled(rzero, rlen);
        Workspace { resid, v, iparam, ipntr, workd, workl, rwork }
    }

    /// Copies the operator's input window `workd[start .. start + n]`.
    pub fn operator_input(&self, start: usize, n: usize) -> (r: Vec<T>)
        requires
            start + n <= self.workd@.len(),
        ensures
            r@ == self.workd@.subrange(start as int, start + n),
    {
        let len: usize = self.workd.len();
        let mut r: Vec<T> = Vec::new();
        let mut i: usize = 0;
        while i < n
            invariant
                i <= n,
                start + n <= len,
                len == self.workd@.len(),
                r@ == self.workd@.subrange(start as int, start + i),
            decreases n - i,
        {
            r.push(self.workd[start + i]);
            i = i + 1;
            assert(r@ =~= self.workd@.subrange(start as int, start + i));
        }
        r
    }

    /// Writes the operator's result into the window of `workd` at `start`,
    /// leaving every other buffer and every other slot as it was.
    pub fn store_operator_output(&mut self, start: usize, out: &Vec<T>)
        requires
            start + out@.len() <= old(self).workd@.len(),
        ensures
            final(self).workd@ == old(self).workd@.subrange(0, start as int) + out@
                + old(self).workd@.subrange(start + out@.len(), old(self).workd@.len() as int),
            final(self).resid == old(self).resid,
            final(self).v == old(self).v,
            final(self).iparam == old(self).iparam,
            final(self).ipntr == old(self).ipntr,
            final(self).workl == old(self).workl,
            final(self).rwork == old(self).rwork,
    {
        let ghost before = self.workd@;
        let len: usize = self.workd.len();
        let mut i: usize = 0;
        while i < out.len()
            invariant
                i <= out@.len(),
                len == before.len(),
                start + out@.len() <= before.len(),
                self.workd@.len() == before.len(),
                forall|j: int| 0 <= j < start ==> self.workd@[j] == before[j],
                forall|j: int| 0 <= j < i ==> self.workd@[start + j] == out@[j],
                forall|j: int| start + i <= j < before.len() ==> self.workd@[j] == before[j],
                self.resid == old(self).resid,
                self.v == old(self).v,
                self.iparam == old(self).iparam,
                self.ipntr == old(self).ipntr,
                self.workl == old(self).workl,
                self.rwork == old(self).rwork,
            decreases out@.len() - i,
        {
            self.workd.set(start + i, out[i]);
            i = i + 1;
        }
        assert(self.workd@ =~= before.subrange(0, start as int) + out@ + before.subrange(
            start + out@.len(),
            before.len() as int,
        ));
    }
}

/// The buffers of the extraction call.
pub struct Extraction<T> {
    /// The "select all" mask, `ncv` zeros.
    pub select: Vec<i32>,
    /// Eigenvalues, `nev + 1` slots; the last one is unused.
    pub d: Vec<T>,
    /// Eigenvectors, `n × nev`, column-major.
    pub z: Vec<T>,
    /// Extra scratch, `2·ncv` in the complex domain and empty otherwise.
    pub workev: Vec<T>,
}

impl<T: Copy> Extraction<T> {
    pub open spec fn sized(&self, p: Problem, domain: Domain) -> bool {
        &&& self.select@.len() == p.ncv
        &&& self.d@.len() == p.nev + 1
        &&& self.z@.len() == p.n * p.nev
        &&& self.workev@.len() == (if domain == Domain::ComplexGeneral { 2 * p.ncv } else { 0 })
    }

    /// Allocates the zeroed extraction buffers.
    pub fn new(p: &Problem, domain: Domain, zero: T) -> (e: Self)
        requires
            p.wf(),
        ensures
            e.sized(*p, domain),
            all_equal(e.select@, 0i32),
            all_equal(e.d@, zero),
            all_equal(e.z@, zero),
            all_equal(e.workev@, zero),
    {
        assert(p.n * p.nev <= p.n * p.ncv) by (nonlinear_arith)
            requires
                p.nev <= p.ncv,
        ;
        let select = filled(0i32, p.ncv);
        let d = filled(zero, p.nev + 1);
        let z = filled(zero, p.n * p.nev);
        let wlen: usize = match domain {
            Domain::ComplexGeneral => 2 * p.ncv,
            Domain::RealSymmetric => 0,
        };
        let workev = filled(zero, wlen);
        Extraction { select, d, z, workev }
    }

    /// Hands out the eigenvalues, trimmed to exactly `nev`, and the
    /// `n × nev` eigenvector matrix.
    pub fn into_results(self, p: &Problem, domain: Domain) -> (r: (Vec<T>, Vec<T>))
        requires
            p.wf(),
            self.sized(*p, domain),
        ensures
            r.0@ == self.d@.subrange(0, p.nev as int),
            r.0@.len() == p.nev,
            r.1@ == self.z@,
            r.1@.len() == p.n * p.nev,
    {
        let mut d = self.d;
        d.truncate(p.nev);
        (d, self.z)
    }
}

} // verus!
