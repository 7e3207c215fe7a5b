use mulder::camera::pixels::{checked_resolution, height, width, PixelIndices};
use mulder::utils::error::ErrorKind;

#[test]
fn resolutions() {
    assert_eq!(checked_resolution([3, 4]).unwrap(), (3, 4));
    assert_eq!(height([3, 4]), 3);
    assert_eq!(width([3, 4]), 4);
    match checked_resolution([0, 4]) {
        Err((kind, msg)) => {
            assert!(matches!(kind, ErrorKind::ValueError));
            assert_eq!(msg, "bad resolution (expected strictly positive values, found [0, 4])");
        },
        Ok(_) => panic!(),
    }
    assert!(checked_resolution([5, 0]).is_err());
}

#[test]
fn row_major() {
    let (nu, nv) = (3, 2);
    let mut pixels = PixelIndices::new(nu, nv);
    let mut visited = Vec::new();
    while let Some(pixel) = pixels.next_pixel() {
        visited.push(pixel);
    }
    assert_eq!(visited, vec![(0, 0), (0, 1), (0, 2), (1, 0), (1, 1), (1, 2)]);
    assert_eq!(pixels.next_pixel(), None);
}

#[test]
fn each_pixel_once() {
    let (nu, nv) = (5, 4);
    let mut pixels = PixelIndices::new(nu, nv);
    for i in 0..nv {
        for j in 0..nu {
            assert_eq!(pixels.next_pixel(), Some((i, j)));
        }
    }
    assert_eq!(pixels.next_pixel(), None);
}
