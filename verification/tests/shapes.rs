use mulder::geometry::shapes::{
    atmosphere_rows, coordinates_shape, data_index, grid_shape, grid_source, parse_xy,
    scalar_coordinates, stack_shape, states_len, GridSource,
};
use mulder::utils::error::ErrorKind;

fn err(kind: ErrorKind, msg: &str) -> (ErrorKind, String) {
    (kind, msg.to_string())
}

#[test]
fn grids() {
    assert_eq!(grid_shape(&vec![3, 4]), Ok((3, 4)));
    assert_eq!(
        grid_shape(&vec![3, 4, 5]),
        Err(err(ErrorKind::TypeError, "bad grid (expected a 2d array, found 3d)")),
    );
    assert_eq!(grid_source("dem.asc", true, false, Some("asc")), Ok(GridSource::MapFile));
    assert_eq!(grid_source("dem.hgt", true, false, Some("hgt")), Ok(GridSource::MapFile));
    assert_eq!(grid_source("dem.grd", true, false, Some("grd")), Ok(GridSource::MapFile));
    assert_eq!(grid_source("tiles", false, true, None), Ok(GridSource::Stack));
    assert_eq!(
        grid_source("dem.tif", true, false, Some("tif")),
        Err(err(ErrorKind::NotImplementedError, "bad grid (.tif)")),
    );
    assert_eq!(
        grid_source("dem.png", true, false, Some("png")),
        Err(err(ErrorKind::TypeError, "bad grid (dem.png: unsupported data format (.png))")),
    );
    assert_eq!(
        grid_source("dem", true, false, None),
        Err(err(ErrorKind::TypeError, "bad grid (dem: missing data format extension)")),
    );
    assert_eq!(
        grid_source("nowhere", false, false, None),
        Err(err(ErrorKind::TypeError, "bad grid (nowhere: not a file or directory)")),
    );
    assert_eq!(stack_shape("tiles", [2, 3]), Ok(()));
    assert_eq!(
        stack_shape("tiles", [0, 3]),
        Err(err(ErrorKind::TypeError, "bad grid (tiles: could not find any data tile)")),
    );
}

#[test]
fn xy() {
    assert_eq!(parse_xy(vec![2]), Ok(vec![2]));
    assert_eq!(parse_xy(vec![5, 2]), Ok(vec![5, 2]));
    assert_eq!(parse_xy(vec![3]), Err(err(ErrorKind::TypeError, "bad xy (expected a size 2 array, found size 3)")));
    assert_eq!(parse_xy(vec![5, 3]), Err(err(ErrorKind::TypeError, "bad xy (expected an Nx2 array, found Nx3)")));
    assert_eq!(parse_xy(vec![]), Err(err(ErrorKind::TypeError, "bad xy (expected a 1d or 2d array, found 0d)")));
}

#[test]
fn atmospheres() {
    assert_eq!(atmosphere_rows(2, &vec![10, 2]), Ok(10));
    assert_eq!(atmosphere_rows(1, &vec![10]), Err(err(ErrorKind::TypeError, "bad model (expected a 2d array, found 1d)")));
    assert_eq!(atmosphere_rows(2, &vec![10, 3]), Err(err(ErrorKind::TypeError, "bad model (expected an Nx2 array, found Nx3)")));
    assert_eq!(
        atmosphere_rows(2, &vec![1, 2]),
        Err(err(ErrorKind::TypeError, "bad model (expected a 2 or more length array, found 1)")),
    );
}

#[test]
fn coordinates() {
    assert_eq!(coordinates_shape(0, 1, vec![], 1, 3, vec![3]), Ok(vec![3]));
    assert_eq!(coordinates_shape(2, 6, vec![2, 3], 0, 1, vec![]), Ok(vec![2, 3]));
    assert_eq!(coordinates_shape(2, 6, vec![2, 3], 1, 6, vec![6]), Ok(vec![2, 3]));
    assert_eq!(
        coordinates_shape(1, 4, vec![4], 1, 5, vec![5]),
        Err(err(ErrorKind::TypeError, "bad coordinates (inconsistent latitude (4) and longitude (5) array sizes)")),
    );
    assert_eq!(scalar_coordinates(1), Ok(()));
    assert_eq!(
        scalar_coordinates(7),
        Err(err(ErrorKind::TypeError, "bad camera coordinates (expected a scalar, found size = 7)")),
    );
}

#[test]
fn indices() {
    assert_eq!(data_index(3, 2), Ok(2));
    assert_eq!(
        data_index(3, 3),
        Err(err(ErrorKind::IndexError, "bad data index (expected a value in [0, 2], found '3')")),
    );
}

#[test]
fn states_lengths() {
    assert_eq!(states_len(&vec![4, 2]), Ok(4));
    assert_eq!(states_len(&vec![0]), Ok(0));
    assert_eq!(states_len(&vec![]), Err(err(ErrorKind::TypeError, "len() of unsized object")));
}
