use vstd::prelude::*;

verus! {

/// The token with which the solver announces that the iteration has stopped.
pub const TOKEN_DONE: i32 = 99;

/// A solver token decoded at the boundary, with its offsets already made
/// 0-based and checked against the exchange buffer.
#[derive(Debug, Clone, Copy, PartialEq, Eq, Structural)]
pub enum Request {
    /// Nothing to do here: call the forward step again.
    Again,
    /// Apply the operator to the `n` values at `input` and store the result
    /// in the `n` slots at `output`.
    MatVec { input: usize, output: usize },
    /// The iteration has stopped; the status code tells how.
    Done,
    /// An operator application was requested at a window outside the
    /// exchange buffer.
    BadWindow,
}

/// A 1-based offset whose window of `n` slots lies inside a buffer of `len`.
pub open spec fn window_ok(ptr: i32, n: int, len: int) -> bool {
    1 <= ptr && ptr - 1 + n <= len
}

/// The meaning of a token, given the two offsets of the pointer array.
pub open spec fn decoded(ido: i32, ptr_in: i32, ptr_out: i32, n: int, len: int) -> Request {
    if ido == TOKEN_DONE {
        Request::Done
    } else if ido == 1 || ido == -1 {
        if window_ok(ptr_in, n, len) && window_ok(ptr_out, n, len) {
            Request::MatVec { input: (ptr_in - 1) as usize, output: (ptr_out - 1) as usize }
        } else {
            Request::BadWindow
        }
    } else {
        Request::Again
    }
}

/// Decodes the token `ido` and the first two slots of the pointer array for a
/// problem of dimension `n` whose exchange buffer holds `len` values.
pub fn decode(ido: i32, ipntr: &Vec<i32>, n: usize, len: usize) -> (r: Request)
    requires
        ipntr@.len() >= 2,
    ensures
        r == decoded(ido, ipntr@[0], ipntr@[1], n as int, len as int),
        r matches Request::MatVec { input, output } ==> input + n <= len && output + n <= len,
{
    if ido == TOKEN_DONE {
        Request::Done
    } else if ido == 1 || ido == -1 {
        let a: i32 = ipntr[0];
        let b: i32 = ipntr[1];
        if a >= 1 && b >= 1 {
            let input: usize = (a - 1) as usize;
            let output: usize = (b - 1) as usize;
            if input <= len && n <= len - input && output <= len && n <= len - output {
                Request::MatVec { input, output }
            } else {
                Request::BadWindow
            }
        } else {
            Request::BadWindow
        }
    } else {
        Request::Again
    }
}

} // verus!
