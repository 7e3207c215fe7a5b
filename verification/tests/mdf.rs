use mulder::materials::mdf::{
    composite_xml, composition_xml, element_xml, material_xml, mdf, XmlComponent,
};
use mulder::utils::strings::join_with;

fn join(lines: &Vec<String>) -> String {
    join_with(lines, "\n")
}

fn components(v: &[(&str, &str)]) -> Vec<XmlComponent> {
    v.iter()
        .map(|(name, fraction)| XmlComponent {
            name: name.to_string(),
            fraction: fraction.to_string(),
        })
        .collect()
}

fn lines(v: &[&str]) -> Vec<String> {
    v.iter().map(|s| s.to_string()).collect()
}

#[test]
fn joined_lines() {
    assert_eq!(join(&lines(&[])), "");
    assert_eq!(join(&lines(&["a"])), "a");
    assert_eq!(join(&lines(&["a", "", "b"])), "a\n\nb");
}

#[test]
fn compositions_sorted_by_name() {
    let water = components(&[("O", "0.888"), ("H", "0.112")]);
    assert_eq!(
        composition_xml(&water),
        "    <component name=\"H\" fraction=\"0.112\" />\n    <component name=\"O\" fraction=\"0.888\" />",
    );
    assert_eq!(composition_xml(&Vec::new()), "");
}

#[test]
fn element_lines() {
    assert_eq!(
        element_xml("H", 1, "1.008", "19.2"),
        "<element name=\"H\" Z=\"1\" A=\"1.008\" I=\"19.2\" />",
    );
}

#[test]
fn material_texts() {
    let water = components(&[("O", "0.888"), ("H", "0.112")]);
    assert_eq!(
        material_xml("Water", "1", Some("75"), &water),
        "<material name=\"Water\" density=\"1\" I=\"75\">\n\
         \x20   <component name=\"H\" fraction=\"0.112\" />\n\
         \x20   <component name=\"O\" fraction=\"0.888\" />\n\
         </material>",
    );
    assert_eq!(
        material_xml("Rock", "2.65", None, &components(&[("Rk", "1")])),
        "<material name=\"Rock\" density=\"2.65\">\n\
         \x20   <component name=\"Rk\" fraction=\"1\" />\n\
         </material>",
    );
}

#[test]
fn composite_texts() {
    let mix = components(&[("Water", "0.3"), ("Rock", "0.7")]);
    assert_eq!(
        composite_xml("Wet", &mix),
        "<composite name=\"Wet\">\n\
         \x20   <component name=\"Rock\" fraction=\"0.7\" />\n\
         \x20   <component name=\"Water\" fraction=\"0.3\" />\n\
         </composite>",
    );
}

#[test]
fn mdf_documents() {
    assert_eq!(
        mdf(&lines(&["<e/>"]), &lines(&["<m1/>", "<m2/>"]), &lines(&[])),
        "<pumas>\n<e/>\n<m1/>\n<m2/>\n</pumas>",
    );
    assert_eq!(mdf(&lines(&[]), &lines(&[]), &lines(&["<c/>"])), "<pumas>\n<c/>\n</pumas>");
}
