use mulder::materials::MaterialsData;
use mulder::simulation::physics::{compiled, physics_outdated, undefined_material, Compiled};
use mulder::utils::error::ErrorKind;

#[test]
fn outdated_physics() {
    assert!(physics_outdated(None, 0));
    assert!(physics_outdated(Some(1), 2));
    assert!(!physics_outdated(Some(2), 2));
}

#[test]
fn physics_follow_names() {
    // Physics computed for version 0 of a selection.
    let mut data = MaterialsData::new(0);
    data.add("Rock", 1);
    let computed = data.version();
    data.add("Rock", 2);
    assert!(!physics_outdated(Some(computed), data.version()));
    data.add("Water", 3);
    assert!(physics_outdated(Some(computed), data.version()));
    let computed = data.version();
    data.remove("Rock", 4);
    assert!(!physics_outdated(Some(computed), data.version()));
    data.replace("Rock", "Water", 5);
    assert!(physics_outdated(Some(computed), data.version()));
}

#[test]
fn undefined_materials() {
    assert_eq!(
        undefined_material("Lava"),
        (ErrorKind::ValueError, "bad material (undefined material 'Lava')".to_string()),
    );
}

#[test]
fn compiled_shapes() {
    assert_eq!(compiled(0), Compiled::Nothing);
    assert_eq!(compiled(1), Compiled::One);
    assert_eq!(compiled(5), Compiled::Several);
}
