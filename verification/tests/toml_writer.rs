use mulder::materials::toml::{
    element_toml, material_toml, materials_toml, TomlComponent, TomlSection,
};

fn section(name: &str, body: &str) -> TomlSection {
    TomlSection { name: name.to_string(), body: body.to_string() }
}

#[test]
fn element_entries() {
    assert_eq!(
        element_toml("H", 1, "1.008", "1.92e-8"),
        "\"H\" = { Z = 1, A = 1.008, I = 1.92e-8 }",
    );
}

#[test]
fn material_descriptions() {
    let components = vec![
        TomlComponent { name: "H".to_string(), weight: "0.11".to_string() },
        TomlComponent { name: "O".to_string(), weight: "0.89".to_string() },
    ];
    assert_eq!(
        material_toml("1000", Some("7.5e-8"), &components),
        "density = 1000\nI = 7.5e-8\ncomposition = { H = 0.11, O = 0.89 }",
    );
    assert_eq!(material_toml("2650", None, &Vec::new()), "density = 2650\ncomposition = {  }");
}

#[test]
fn materials_documents() {
    let elements = vec!["\"A\" = 1".to_string(), "\"B\" = 2".to_string()];
    let sections = vec![section("Water", "density = 1000"), section("Air", "density = 1.2")];
    assert_eq!(
        materials_toml(Some(&elements), &sections),
        "[elements]\n\"A\" = 1\n\"B\" = 2\n\n[Air]\ndensity = 1.2\n\n[Water]\ndensity = 1000",
    );
    assert_eq!(
        materials_toml(None, &sections),
        "[Air]\ndensity = 1.2\n\n[Water]\ndensity = 1000",
    );
    assert_eq!(materials_toml(None, &Vec::new()), "");
    assert_eq!(materials_toml(Some(&Vec::new()), &Vec::new()), "[elements]\n");
}

#[test]
fn documents_do_not_depend_on_order() {
    let a = vec![section("Water", "w"), section("Air", "a"), section("Rock", "r")];
    let b = vec![section("Rock", "r"), section("Water", "w"), section("Air", "a")];
    assert_eq!(materials_toml(None, &a), materials_toml(None, &b));
    assert_eq!(materials_toml(None, &a), "[Air]\na\n\n[Rock]\nr\n\n[Water]\nw");
}
