use mulder::simulation::materials::{
    cache_key, is_table_file, materials_source, missing_defaults, unknown_material,
    MaterialsSource,
};
use mulder::utils::error::ErrorKind;

#[test]
fn default_materials_source() {
    let source = materials_source(None, None, None).unwrap();
    assert_eq!(source, MaterialsSource::Default);
    assert_eq!(cache_key(&source), "default");
}

#[test]
fn toml_materials_source() {
    let source = materials_source(Some("data/rocks.toml"), Some("toml"), Some("rocks")).unwrap();
    assert_eq!(source, MaterialsSource::File { cache_key: "rocks".to_string() });
    assert_eq!(cache_key(&source), "rocks");
}

#[test]
fn refused_materials_sources() {
    assert_eq!(
        materials_source(Some("data/rocks.xml"), Some("xml"), Some("rocks")),
        Err((
            ErrorKind::ValueError,
            "bad materials (invalid file format 'data/rocks.xml')".to_string(),
        )),
    );
    assert_eq!(
        materials_source(Some("data/rocks"), None, Some("rocks")),
        Err((
            ErrorKind::ValueError,
            "bad materials (invalid file format 'data/rocks')".to_string(),
        )),
    );
    assert_eq!(
        materials_source(Some(".toml"), Some("toml"), None),
        Err((ErrorKind::ValueError, "bad materials (invalid file name '.toml')".to_string())),
    );
}

#[test]
fn unknown_materials() {
    assert_eq!(
        unknown_material("Lava"),
        (ErrorKind::KeyError, "bad material (unknown material 'Lava')".to_string()),
    );
}

#[test]
fn default_materials_completion() {
    let names = |v: &[&str]| v.iter().map(|s| s.to_string()).collect::<Vec<_>>();
    assert_eq!(missing_defaults(&names(&[])), names(&["Air", "Rock", "Water"]));
    assert_eq!(missing_defaults(&names(&["Rock", "Granite"])), names(&["Air", "Water"]));
    assert_eq!(missing_defaults(&names(&["Water", "Air", "Rock"])), Vec::<String>::new());
}

#[test]
fn table_files() {
    assert!(is_table_file("rocks-csda.pumas", "rocks"));
    assert!(is_table_file("rocks.pumas", "rocks"));
    assert!(!is_table_file("rocks.toml", "rocks"));
    assert!(!is_table_file("granite.pumas", "rocks"));
    assert!(!is_table_file("rock.pumas", "rocks"));
    assert!(is_table_file(".pumas", ""));
}
