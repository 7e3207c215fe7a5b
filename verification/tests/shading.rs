use mulder::camera::shading::{
    camera_in_atmosphere, default_lights, find_name, layer_colour, material_slots,
    palette_slots, pixel_shading, renders_atmosphere, DefaultLights, Shading,
};
use mulder::utils::error::ErrorKind;

fn names(v: &[&str]) -> Vec<String> {
    v.iter().map(|s| s.to_string()).collect()
}

#[test]
fn find_name_first_match() {
    let keys = names(&["Rock", "Water", "Rock"]);
    assert_eq!(find_name(&keys, "Rock"), Some(0));
    assert_eq!(find_name(&keys, "Water"), Some(1));
    assert_eq!(find_name(&keys, "Air"), None);
    assert_eq!(find_name(&Vec::new(), "Air"), None);
}

#[test]
fn material_slots_default_where_unknown() {
    let materials = names(&["Rock", "Granite", "Water"]);
    let known = names(&["Water", "Rock"]);
    assert_eq!(material_slots(&materials, &known), vec![Some(1), None, Some(0)]);
    assert_eq!(material_slots(&Vec::new(), &known), Vec::<Option<usize>>::new());
}

#[test]
fn palette_slots_resolve() {
    let materials = names(&["Rock", "Water"]);
    let palette = names(&["Water", "Air", "Rock"]);
    assert_eq!(palette_slots(&materials, &palette), Ok(vec![2, 0]));
}

#[test]
fn palette_slots_missing_colour() {
    let materials = names(&["Rock", "Granite", "Ice"]);
    let palette = names(&["Rock"]);
    assert_eq!(
        palette_slots(&materials, &palette),
        Err((
            ErrorKind::ValueError,
            "bad palette (undefined colour for material 'Granite')".to_string(),
        )),
    );
}

#[test]
fn pixel_shadings() {
    assert_eq!(pixel_shading(-1, 2), Shading::Dark);
    assert_eq!(pixel_shading(0, 2), Shading::Material(0));
    assert_eq!(pixel_shading(1, 2), Shading::Material(1));
    assert_eq!(pixel_shading(2, 2), Shading::Sky);
    assert_eq!(pixel_shading(7, 2), Shading::Sky);
    assert_eq!(pixel_shading(0, 0), Shading::Sky);
}

#[test]
fn layer_colours() {
    assert_eq!(layer_colour(-1, 3), None);
    assert_eq!(layer_colour(0, 3), Some(0));
    assert_eq!(layer_colour(2, 3), Some(2));
    assert_eq!(layer_colour(3, 3), None);
    assert_eq!(layer_colour(i32::MIN, 3), None);
}

#[test]
fn camera_media() {
    assert!(camera_in_atmosphere(2, 2));
    assert!(!camera_in_atmosphere(1, 2));
    assert!(!camera_in_atmosphere(-1, 2));
    assert!(!camera_in_atmosphere(3, 2));
    assert_eq!(default_lights(2, 2), DefaultLights::Sun);
    assert_eq!(default_lights(0, 2), DefaultLights::Directional);
}

#[test]
fn atmosphere_rendering() {
    assert!(renders_atmosphere(true, 2, 2, 1));
    assert!(!renders_atmosphere(false, 2, 2, 1));
    assert!(!renders_atmosphere(true, 1, 2, 1));
    assert!(!renders_atmosphere(true, 2, 2, 0));
}
