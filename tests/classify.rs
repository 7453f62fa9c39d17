use arpack_ng::{classify_extraction, classify_status, Error, Status, Which};

fn illegal_reason(r: Result<Status, Error>) -> String {
    match r {
        Err(Error::IllegalParameters(s)) => s,
        other => panic!("expected an illegal-parameter error, got {:?}", other),
    }
}

#[test]
fn success_codes_are_told_apart() {
    assert_eq!(classify_status(0).unwrap(), Status::Converged);
    assert_eq!(classify_status(1).unwrap(), Status::IterationLimit);
    assert_eq!(classify_status(2).unwrap(), Status::Deprecated);
}

#[test]
fn illegal_parameter_codes_carry_reasons() {
    assert_eq!(illegal_reason(classify_status(-1)), "N must be positive.");
    assert_eq!(illegal_reason(classify_status(-2)), "NEV must be positive.");
    assert_eq!(
        illegal_reason(classify_status(-3)),
        "NCV-NEV >= 2 and less than or equal to N."
    );
    assert_eq!(
        illegal_reason(classify_status(-4)),
        "Maximum iterations must be greater than 0."
    );
    assert_eq!(
        illegal_reason(classify_status(-5)),
        "Maximum iterations must be greater than 0."
    );
}

#[test]
fn other_codes_pass_through() {
    assert!(matches!(classify_status(-7), Err(Error::Other(-7))));
    assert!(matches!(classify_status(-9999), Err(Error::Other(-9999))));
    assert!(matches!(classify_status(3), Err(Error::Other(3))));
}

#[test]
fn extraction_fails_only_on_negative_codes() {
    assert!(classify_extraction(0).is_ok());
    assert!(classify_extraction(1).is_ok());
    assert!(matches!(classify_extraction(-14), Err(Error::Other(-14))));
    match classify_extraction(-2) {
        Err(Error::IllegalParameters(s)) => assert_eq!(s, "NEV must be positive."),
        other => panic!("unexpected {:?}", other),
    }
}

#[test]
fn selection_codes() {
    assert_eq!(Which::LargestAlgebraic.as_str(), "LA");
    assert_eq!(Which::SmallestAlgebraic.as_str(), "SA");
    assert_eq!(Which::LargestMagnitude.as_str(), "LM");
    assert_eq!(Which::SmallestMagnitude.as_str(), "SM");
    assert_eq!(Which::LargestRealPart.as_str(), "LR");
    assert_eq!(Which::SmallestRealPart.as_str(), "SR");
    assert_eq!(Which::LargestImaginaryPart.as_str(), "LI");
    assert_eq!(Which::SmallestImaginaryPart.as_str(), "SI");
}
