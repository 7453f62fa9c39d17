use arpack_ng::{Domain, Extraction, Problem, Workspace};

#[test]
fn workspace_is_sized_and_zeroed() {
    let p = Problem::new(100, 2, 10, 100).unwrap();
    let w: Workspace<f64, f64> = Workspace::new(&p, Domain::ComplexGeneral, 0.0, 0.0);
    assert_eq!(w.resid.len(), 100);
    assert_eq!(w.v.len(), 1000);
    assert_eq!(w.workd.len(), 300);
    assert_eq!(w.workl.len(), 360);
    assert_eq!(w.rwork.len(), 10);
    assert_eq!(w.ipntr, vec![0; 14]);
    assert_eq!(w.iparam, vec![1, 0, 100, 0, 0, 0, 1, 0, 0, 0, 0]);
    assert!(w.workd.iter().all(|x| *x == 0.0));
    assert!(w.v.iter().all(|x| *x == 0.0));
}

#[test]
fn real_domain_has_no_real_scratch() {
    let p = Problem::new(12, 3, 6, 7).unwrap();
    let w: Workspace<i64, u8> = Workspace::new(&p, Domain::RealSymmetric, 5, 9);
    assert!(w.rwork.is_empty());
    assert_eq!(w.workl.len(), 3 * 36 + 36);
    assert_eq!(w.iparam[2], 7);
    assert!(w.resid.iter().all(|x| *x == 5));
}

#[test]
fn operator_windows_read_and_write_in_place() {
    let p = Problem::new(4, 1, 3, 10).unwrap();
    let mut w: Workspace<i32, i32> = Workspace::new(&p, Domain::RealSymmetric, 0, 0);
    for (i, x) in w.workd.iter_mut().enumerate() {
        *x = i as i32;
    }
    assert_eq!(w.operator_input(4, 4), vec![4, 5, 6, 7]);
    w.store_operator_output(8, &vec![40, 50, 60, 70]);
    assert_eq!(w.workd, vec![0, 1, 2, 3, 4, 5, 6, 7, 40, 50, 60, 70]);
    w.store_operator_output(0, &vec![-1, -2, -3, -4]);
    assert_eq!(w.operator_input(0, 4), vec![-1, -2, -3, -4]);
    assert_eq!(w.operator_input(8, 4), vec![40, 50, 60, 70]);
}

#[test]
fn results_have_the_requested_shape() {
    let p = Problem::new(200, 2, 50, 100).unwrap();
    let mut e: Extraction<f64> = Extraction::new(&p, Domain::ComplexGeneral, 0.0);
    assert_eq!(e.select, vec![0; 50]);
    assert_eq!(e.d.len(), 3);
    assert_eq!(e.workev.len(), 100);
    e.d[0] = 200.0;
    e.d[1] = 0.5;
    e.d[2] = 7.0;
    let (values, vectors) = e.into_results(&p, Domain::ComplexGeneral);
    assert_eq!(values, vec![200.0, 0.5]);
    assert_eq!(vectors.len(), 200 * 2);
}

#[test]
fn real_extraction_has_no_extra_scratch() {
    let p = Problem::new(10, 3, 5, 1).unwrap();
    let e: Extraction<f64> = Extraction::new(&p, Domain::RealSymmetric, 0.0);
    assert!(e.workev.is_empty());
    let (values, vectors) = e.into_results(&p, Domain::RealSymmetric);
    assert_eq!(values.len(), 3);
    assert_eq!(vectors.len(), 30);
}
