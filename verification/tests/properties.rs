use mulder::materials::properties::{
    composite_schema, definition_what, element_schema, mixture_schema, read_properties, Entry,
};
use mulder::materials::registry::{registration, undefined};
use mulder::utils::error::ErrorKind;

fn entry(key: &str, value_ok: bool) -> Entry {
    Entry { key: Some(key.to_string()), value_ok }
}

#[test]
fn element_definitions() {
    let what = definition_what("H", "element");
    assert_eq!(what, "'H' element");
    let schema = element_schema();

    let entries = vec![entry("A", true), entry("I", true), entry("Z", true)];
    assert_eq!(read_properties(&what, &schema, &entries).unwrap(), vec![Some(2), Some(0), Some(1)]);

    let entries = vec![entry("Z", true), entry("A", false), entry("Q", true)];
    assert_eq!(
        read_properties(&what, &schema, &entries),
        Err((ErrorKind::ValueError, "bad 'H' element ('A' is not a float)".to_string())),
    );

    let entries = vec![entry("Z", true), entry("Q", true)];
    assert_eq!(
        read_properties(&what, &schema, &entries),
        Err((ErrorKind::KeyError, "bad 'H' element (invalid property 'Q')".to_string())),
    );

    let entries = vec![Entry { key: None, value_ok: true }, entry("Q", true)];
    assert_eq!(
        read_properties(&what, &schema, &entries),
        Err((ErrorKind::TypeError, "bad 'H' element (key is not a string)".to_string())),
    );

    let entries = vec![entry("I", true), entry("Z", true)];
    assert_eq!(
        read_properties(&what, &schema, &entries),
        Err((ErrorKind::KeyError, "bad 'H' element (missing 'A')".to_string())),
    );
}

#[test]
fn material_definitions() {
    let what = definition_what("Rock", "material");
    let schema = mixture_schema();
    let entries = vec![entry("composition", true), entry("density", true)];
    assert_eq!(read_properties(&what, &schema, &entries).unwrap(), vec![Some(1), Some(0), None]);
    let entries = vec![entry("I", true)];
    assert_eq!(
        read_properties(&what, &schema, &entries),
        Err((ErrorKind::KeyError, "bad 'Rock' material (missing 'density')".to_string())),
    );
    let entries = vec![entry("density", false)];
    assert_eq!(
        read_properties(&what, &schema, &entries),
        Err((ErrorKind::ValueError, "bad 'Rock' material ('density' is not a float)".to_string())),
    );

    let what = definition_what("Mix", "composite");
    let schema = composite_schema();
    assert_eq!(read_properties(&what, &schema, &vec![entry("composition", true)]).unwrap(), vec![Some(0)]);
    assert_eq!(
        read_properties(&what, &schema, &vec![]),
        Err((ErrorKind::KeyError, "bad 'Mix' composite (missing 'composition')".to_string())),
    );
    assert_eq!(
        read_properties(&what, &schema, &vec![entry("density", true)]),
        Err((ErrorKind::KeyError, "bad 'Mix' composite (invalid property 'density')".to_string())),
    );
}

#[test]
fn registrations() {
    assert_eq!(registration("element", "H", None, false), Ok(true));
    assert_eq!(registration("element", "H", Some(true), false), Ok(false));
    assert_eq!(registration("material", "Mix", Some(true), true), Ok(true));
    assert_eq!(
        registration("element", "H", Some(false), false),
        Err((ErrorKind::ValueError, "bad element ('H' already exists with a different definition)".to_string())),
    );
}

#[test]
fn undefined_names() {
    assert_eq!(
        undefined(ErrorKind::ValueError, "composite", "Mix"),
        (ErrorKind::ValueError, "undefined composite 'Mix'".to_string()),
    );
    assert_eq!(
        undefined(ErrorKind::KeyError, "element", "Xx"),
        (ErrorKind::KeyError, "undefined element 'Xx'".to_string()),
    );
}
