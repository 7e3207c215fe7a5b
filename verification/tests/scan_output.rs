use mulder::utils::convert::ScanOutput;
use mulder::utils::error::ErrorKind;

#[test]
fn names_round_trip() {
    for output in [ScanOutput::Grammage, ScanOutput::Intersections, ScanOutput::Thickness] {
        assert_eq!(ScanOutput::from_str(output.to_str()), Ok(output));
        assert_eq!(ScanOutput::from_name(output.to_str()).unwrap(), output);
    }
    assert_eq!(ScanOutput::default(), ScanOutput::Thickness);
    assert_eq!(ScanOutput::what(), "output");
    assert_eq!(ScanOutput::variants(), &["grammage", "intersections", "thickness"]);
}

#[test]
fn invalid_name() {
    assert_eq!(
        ScanOutput::from_str("Grammage"),
        Err(&["grammage", "intersections", "thickness"][..]),
    );
    match ScanOutput::from_name("depth") {
        Err((kind, msg)) => {
            assert!(matches!(kind, ErrorKind::ValueError));
            assert_eq!(
                msg,
                "bad output (expected one of 'grammage', 'intersections' or 'thickness', found 'depth')",
            );
        },
        Ok(_) => panic!("'depth' is no output"),
    }
}
