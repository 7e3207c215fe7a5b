use mulder::utils::error::{c_error, c_error_location, c_error_why, variant_explain, Error, ErrorKind};

#[test]
fn messages() {
    assert_eq!(Error::default().to_string(), "something bad happened");
    assert_eq!(Error::new(ErrorKind::ValueError).to_string(), "something bad happened");
    assert_eq!(Error::new(ErrorKind::ValueError).why("oops").to_string(), "oops");
    assert_eq!(Error::new(ErrorKind::ValueError).what("density").to_string(), "bad density");
    assert_eq!(
        Error::new(ErrorKind::KeyError).what("element").why("undefined 'Xx'").to_string(),
        "bad element (undefined 'Xx')",
    );
}

#[test]
fn builders() {
    let err = Error::new(ErrorKind::TypeError)
        .maybe_what(Some("a"))
        .maybe_why(Some("b"))
        .maybe_what(None);
    assert!(matches!(err.kind, Some(ErrorKind::TypeError)));
    assert_eq!(err.what, None);
    assert_eq!(err.why, Some("b"));
    let err = Error::default().what("x").why("y");
    assert!(err.kind.is_none());
    assert_eq!(err.what, Some("x"));
    assert_eq!(err.why, Some("y"));
}

#[test]
fn variant_explanations() {
    assert_eq!(variant_explain("x", &["a"]), "expected one of 'a', found 'x'");
    assert_eq!(variant_explain("x", &["a", "b"]), "expected one of 'a' or 'b', found 'x'");
    assert_eq!(
        variant_explain("x", &["a", "b", "c"]),
        "expected one of 'a', 'b' or 'c', found 'x'",
    );
    assert_eq!(
        variant_explain("", &["one", "two", "three", "four"]),
        "expected one of 'one', 'two', 'three' or 'four', found ''",
    );
}

#[test]
fn c_library_errors() {
    assert_eq!(c_error_location("pumas.c", 0), "pumas.c");
    assert_eq!(c_error_location("pumas.c", 1234), "pumas.c:1234");
    assert_eq!(c_error_location("gull.c", -7), "gull.c:-7");
    assert_eq!(c_error_why("pumas_physics_create", 3, Some("could not open file")),
        "pumas_physics_create/3: could not open file");
    assert_eq!(c_error_why("turtle_map_load", 10, None), "turtle_map_load/10");
    assert_eq!(c_error_why("f", 4294967295, None), "f/4294967295");
    let (kind, msg) = c_error("f", 2, Some("boom"), Some("physics"));
    assert!(matches!(kind, ErrorKind::CLibraryException));
    assert_eq!(msg, "bad physics (f/2: boom)");
    let (_, msg) = c_error("f", 0, None, None);
    assert_eq!(msg, "f/0");
}
