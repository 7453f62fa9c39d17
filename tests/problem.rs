use arpack_ng::{dense_problem, Error, Problem};

fn reason(r: Result<Problem, Error>) -> String {
    match r {
        Err(Error::IllegalParameters(s)) => s,
        other => panic!("expected an illegal-parameter error, got {:?}", other),
    }
}

#[test]
fn accepts_a_valid_problem() {
    let p = Problem::new(100, 2, 10, 100).unwrap();
    assert_eq!(p, Problem { n: 100, nev: 2, ncv: 10, maxiter: 100 });
    assert_eq!(p.n_arg(), 100);
    assert_eq!(p.nev_arg(), 2);
    assert_eq!(p.ncv_arg(), 10);
    assert_eq!(p.workl_len(), 360);
    assert_eq!(p.workl_arg(), 360);
}

#[test]
fn refuses_each_bad_parameter() {
    assert_eq!(reason(Problem::new(0, 2, 10, 100)), "N must be positive.");
    assert_eq!(reason(Problem::new(100, 0, 10, 100)), "NEV must be positive.");
    assert_eq!(
        reason(Problem::new(100, 2, 10, 0)),
        "Maximum iterations must be greater than 0."
    );
}

#[test]
fn refuses_a_subspace_that_is_too_small_or_too_large() {
    let msg = "NCV-NEV >= 2 and less than or equal to N.";
    assert_eq!(reason(Problem::new(100, 10, 10, 100)), msg);
    assert_eq!(reason(Problem::new(100, 10, 5, 100)), msg);
    assert_eq!(reason(Problem::new(100, 10, 11, 100)), msg);
    assert_eq!(reason(Problem::new(8, 2, 9, 100)), msg);
    assert_eq!(reason(Problem::new(8, 2, 0, 100)), msg);
    assert!(Problem::new(8, 2, 8, 100).is_ok());
    assert!(Problem::new(8, 2, 4, 100).is_ok());
}

#[test]
fn refuses_sizes_beyond_the_index_range() {
    let msg = "Problem size exceeds the solver's index range.";
    assert_eq!(reason(Problem::new(1usize << 32, 2, 10, 100)), msg);
    assert_eq!(reason(Problem::new(100, 2, 10, 1usize << 31)), msg);
    assert_eq!(reason(Problem::new(100000, 2, 30000, 100)), msg);
    assert!(Problem::new(100000, 2, 26000, 100).is_ok());
}

#[test]
fn non_square_matrix_is_refused() {
    assert!(matches!(dense_problem(3, 4, 1, 3, 10), Err(Error::NonSquare)));
    assert!(matches!(dense_problem(200, 199, 2, 50, 100), Err(Error::NonSquare)));
}

#[test]
fn square_matrix_gives_the_operator_problem() {
    let p = dense_problem(200, 200, 2, 50, 100).unwrap();
    assert_eq!(p, Problem::new(200, 2, 50, 100).unwrap());
    assert_eq!(reason(dense_problem(4, 4, 2, 3, 10)), "NCV-NEV >= 2 and less than or equal to N.");
}
