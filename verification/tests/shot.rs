use mulder::camera::shot::{camera_optics, camera_resolution, normal_source, pixel_hit, PixelHit};
use mulder::utils::error::ErrorKind;

#[test]
fn camera_resolutions() {
    assert_eq!(camera_resolution(None), Ok((90, 120)));
    assert_eq!(camera_resolution(Some([10, 20])), Ok((10, 20)));
    assert_eq!(
        camera_resolution(Some([0, 20])),
        Err((
            ErrorKind::ValueError,
            "bad resolution (expected strictly positive values, found [0, 20])".to_string(),
        )),
    );
}

#[test]
fn camera_optics_choice() {
    assert_eq!(camera_optics(true, false), Ok(()));
    assert_eq!(camera_optics(false, true), Ok(()));
    assert_eq!(camera_optics(false, false), Ok(()));
    assert_eq!(
        camera_optics(true, true),
        Err((ErrorKind::TypeError, "bad arguments (cannot set 'focal' and 'fov')".to_string())),
    );
}

#[test]
fn pixel_hits() {
    // A camera in the atmosphere (layer 2 of 2) looking at the ground.
    assert_eq!(pixel_hit(2, 2, 2, 1), PixelHit { backface: false, layer: 1 });
    // A ray that never leaves the camera's layer.
    assert_eq!(pixel_hit(2, 2, 2, 2), PixelHit { backface: false, layer: -1 });
    // A camera under ground looking up into the atmosphere.
    assert_eq!(pixel_hit(0, 2, 1, 2), PixelHit { backface: true, layer: 1 });
    // A camera under ground looking down into a deeper layer.
    assert_eq!(pixel_hit(1, 2, 1, 0), PixelHit { backface: false, layer: 0 });
}

#[test]
fn normal_sources() {
    let counts = vec![1, 3];
    assert_eq!(normal_source(1, 2, 2, &counts), Some((1, 2)));
    assert_eq!(normal_source(0, 0, 2, &counts), Some((0, 0)));
    assert_eq!(normal_source(0, 1, 2, &counts), None);
    assert_eq!(normal_source(2, 0, 2, &counts), None);
    assert_eq!(normal_source(-1, 0, 2, &counts), None);
    assert_eq!(normal_source(1, -1, 2, &counts), None);
    assert_eq!(normal_source(1, 0, 3, &vec![1]), None);
}
