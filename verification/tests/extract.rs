use mulder::utils::error::ErrorKind;
use mulder::utils::extract::{
    argument_source, checked_positions, common_size_of, coordinate_system, ArgumentSource,
    CoordinateSystem, Field, FieldKind, Size,
};

fn fields() -> Vec<Field<'static>> {
    vec![Field::float("latitude"), Field::maybe_float("altitude"), Field::maybe_int("pid"), Field::integer("n")]
}

#[test]
fn field_kinds() {
    let f = fields();
    assert_eq!(f[0].kind, FieldKind::Float);
    assert_eq!(f[1].kind, FieldKind::MaybeFloat);
    assert_eq!(f[2].kind, FieldKind::MaybeInt);
    assert_eq!(f[3].kind, FieldKind::Int);
    assert_eq!(f[2].name, "pid");
}

#[test]
fn argument_sources() {
    let f = fields();
    assert_eq!(argument_source(&f, true, None), Ok(ArgumentSource::Positional));
    let keys = vec!["pid".to_string(), "latitude".to_string()];
    assert_eq!(argument_source(&f, false, Some(&keys)), Ok(ArgumentSource::Keywords));
    assert_eq!(argument_source(&f, false, Some(&vec![])), Ok(ArgumentSource::Keywords));

    match argument_source(&f, true, Some(&keys)) {
        Err((kind, msg)) => {
            assert!(matches!(kind, ErrorKind::TypeError));
            assert_eq!(msg, "bad arguments (cannot mix positional and keyword only arguments)");
        },
        Ok(_) => panic!(),
    }
    let keys = vec!["pid".to_string(), "energy".to_string(), "foo".to_string()];
    match argument_source(&f, false, Some(&keys)) {
        Err((kind, msg)) => {
            assert!(matches!(kind, ErrorKind::TypeError));
            assert_eq!(msg, "bad kwargs (invalid keyword argument 'energy')");
        },
        Ok(_) => panic!(),
    }
    match argument_source(&f, false, None) {
        Err((kind, msg)) => {
            assert!(matches!(kind, ErrorKind::TypeError));
            assert_eq!(msg, "missing 'latitude'");
        },
        Ok(_) => panic!(),
    }
}

fn view(size: &Size) -> Option<(usize, Vec<usize>)> {
    match size {
        Size::Scalar => None,
        Size::Array { size, shape } => Some((*size, shape.clone())),
    }
}

#[test]
fn sizes() {
    let scalar = Size::of_array(0, 1, vec![]);
    let a = Size::of_array(2, 6, vec![2, 3]);
    let b = Size::of_array(1, 6, vec![6]);
    let c = Size::of_array(1, 5, vec![5]);
    assert_eq!(scalar.size(), 1);
    assert_eq!(scalar.shape(), Vec::<usize>::new());
    assert_eq!(a.size(), 6);
    assert_eq!(a.shape(), vec![2, 3]);
    assert_eq!(view(scalar.common(&a).unwrap()), Some((6, vec![2, 3])));
    assert_eq!(view(a.common(&scalar).unwrap()), Some((6, vec![2, 3])));
    assert_eq!(view(a.common(&b).unwrap()), Some((6, vec![2, 3])));
    assert!(a.common(&c).is_none());
    assert_eq!(view(&a.duplicate()), view(&a));
}

#[test]
fn common_sizes() {
    let sizes = vec![Size::Scalar, Size::of_array(1, 3, vec![3]), Size::Scalar, Size::of_array(2, 3, vec![1, 3])];
    assert_eq!(view(&common_size_of(&sizes).unwrap()), Some((3, vec![3])));
    let sizes = vec![Size::Scalar, Size::Scalar];
    assert_eq!(view(&common_size_of(&sizes).unwrap()), None);
    let sizes = vec![Size::of_array(1, 3, vec![3]), Size::of_array(1, 4, vec![4]), Size::Scalar];
    match common_size_of(&sizes) {
        Err((kind, msg)) => {
            assert!(matches!(kind, ErrorKind::TypeError));
            assert_eq!(msg, "inconsistent arrays sizes");
        },
        Ok(_) => panic!(),
    }
}

#[test]
fn coordinate_systems() {
    assert_eq!(coordinate_system(true, true, true), CoordinateSystem::StatesFrame);
    assert_eq!(coordinate_system(true, false, true), CoordinateSystem::Geographic);
    assert_eq!(coordinate_system(false, false, true), CoordinateSystem::GivenFrame);
    assert_eq!(coordinate_system(false, false, false), CoordinateSystem::Geographic);
}

#[test]
fn checked_position_sizes() {
    assert_eq!(checked_positions(None, 3), Ok(()));
    assert_eq!(checked_positions(Some(3), 3), Ok(()));
    assert_eq!(
        checked_positions(Some(3), 4),
        Err((ErrorKind::TypeError, "bad position (expected size=3, found size=4)".to_string())),
    );
}
