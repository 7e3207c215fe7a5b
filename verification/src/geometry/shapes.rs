use crate::utils::error::{Error, ErrorKind, is_refusal, refusal, refuse};
use crate::utils::strings::{decimal, push_decimal, str_eq};
use vstd::prelude::*;
use vstd::string::*;

verus! {

// ===============================================================================================
//
// Checks on the shapes of the arrays that geometries are built from, and on
// the indices that address them.
//
// ===============================================================================================

/// "expected a 2d array, found {n}d".
pub open spec fn not_2d_text(n: nat) -> Seq<char> {
    "expected a 2d array, found "@ + decimal(n) + "d"@
}

fn not_2d(n: usize) -> (res: String)
    ensures
        res@ == not_2d_text(n as nat),
{
    proof {
        reveal_strlit("expected a 2d array, found ");
        reveal_strlit("d");
    }
    let mut why = String::from_str("expected a 2d array, found ");
    push_decimal(&mut why, n as u64);
    why.append("d");
    why
}

/// Checks that the elevation data of a grid is a 2d array; returns its
/// numbers of rows and columns (ny, nx).
pub fn grid_shape(shape: &Vec<usize>) -> (res: Result<(usize, usize), (ErrorKind, String)>)
    ensures
        shape@.len() == 2 ==> res == Ok::<(usize, usize), (ErrorKind, String)>((shape@[0], shape@[1])),
        shape@.len() != 2 ==> is_refusal(res, refusal(ErrorKind::TypeError, "grid"@, not_2d_text(shape@.len()))),
{
    if shape.len() != 2 {
        let why = not_2d(shape.len());
        Err(refuse(ErrorKind::TypeError, "grid", why.as_str()))
    } else {
        Ok((shape[0], shape[1]))
    }
}

/// "expected an Nx2 array, found Nx{n}".
pub open spec fn not_nx2_text(n: nat) -> Seq<char> {
    "expected an Nx2 array, found Nx"@ + decimal(n)
}

fn not_nx2(n: usize) -> (res: String)
    ensures
        res@ == not_nx2_text(n as nat),
{
    proof {
        reveal_strlit("expected an Nx2 array, found Nx");
    }
    let mut why = String::from_str("expected an Nx2 array, found Nx");
    push_decimal(&mut why, n as u64);
    why
}

/// Why the shape of (x, y) coordinates is refused, if it is.
pub open spec fn xy_why(shape: Seq<usize>) -> Option<Seq<char>> {
    if shape.len() == 1 {
        if shape[0] != 2 {
            Some("expected a size 2 array, found size "@ + decimal(shape[0] as nat))
        } else {
            None
        }
    } else if shape.len() == 2 {
        if shape[1] != 2 {
            Some(not_nx2_text(shape[1] as nat))
        } else {
            None
        }
    } else {
        Some("expected a 1d or 2d array, found "@ + decimal(shape.len()) + "d"@)
    }
}

/// Checks the shape of (x, y) coordinates: a pair, or N pairs. Returns the
/// shape.
pub fn parse_xy(shape: Vec<usize>) -> (res: Result<Vec<usize>, (ErrorKind, String)>)
    ensures
        match xy_why(shape@) {
            None => res matches Ok(s) && s@ == shape@,
            Some(why) => is_refusal(res, refusal(ErrorKind::TypeError, "xy"@, why)),
        },
{
    proof {
        reveal_strlit("expected a size 2 array, found size ");
        reveal_strlit("expected a 1d or 2d array, found ");
        reveal_strlit("d");
    }
    if shape.len() == 1 {
        if shape[0] != 2 {
            let mut why = String::from_str("expected a size 2 array, found size ");
            push_decimal(&mut why, shape[0] as u64);
            return Err(refuse(ErrorKind::TypeError, "xy", why.as_str()));
        }
    } else if shape.len() == 2 {
        if shape[1] != 2 {
            let why = not_nx2(shape[1]);
            return Err(refuse(ErrorKind::TypeError, "xy", why.as_str()));
        }
    } else {
        let mut why = String::from_str("expected a 1d or 2d array, found ");
        push_decimal(&mut why, shape.len() as u64);
        why.append("d");
        return Err(refuse(ErrorKind::TypeError, "xy", why.as_str()));
    }
    Ok(shape)
}

/// Why tabulated atmosphere data of `ndim` dimensions and the given shape
/// is refused, if it is: it must be an Nx2 array with N >= 2.
pub open spec fn atmosphere_why(ndim: nat, shape: Seq<usize>) -> Option<Seq<char>> {
    if ndim != 2 {
        Some(not_2d_text(ndim))
    } else if shape[1] != 2 {
        Some(not_nx2_text(shape[1] as nat))
    } else if shape[0] < 2 {
        Some("expected a 2 or more length array, found "@ + decimal(shape[0] as nat))
    } else {
        None
    }
}

/// Checks the shape of tabulated atmosphere data (heights and densities);
/// returns the number of rows.
pub fn atmosphere_rows(ndim: usize, shape: &Vec<usize>) -> (res: Result<usize, (ErrorKind, String)>)
    requires
        shape@.len() == ndim,
    ensures
        match atmosphere_why(ndim as nat, shape@) {
            None => res == Ok::<usize, (ErrorKind, String)>(shape@[0]),
            Some(why) => is_refusal(res, refusal(ErrorKind::TypeError, "model"@, why)),
        },
{
    if ndim != 2 {
        let why = not_2d(ndim);
        return Err(refuse(ErrorKind::TypeError, "model", why.as_str()));
    }
    if shape[1] != 2 {
        let why = not_nx2(shape[1]);
        return Err(refuse(ErrorKind::TypeError, "model", why.as_str()));
    }
    let n = shape[0];
    if n < 2 {
        proof {
            reveal_strlit("expected a 2 or more length array, found ");
        }
        let mut why = String::from_str("expected a 2 or more length array, found ");
        push_decimal(&mut why, n as u64);
        return Err(refuse(ErrorKind::TypeError, "model", why.as_str()));
    }
    Ok(n)
}

/// "inconsistent latitude ({n}) and longitude ({m}) array sizes".
pub open spec fn inconsistent_coordinates_text(n: nat, m: nat) -> Seq<char> {
    "inconsistent latitude ("@ + decimal(n) + ") and longitude ("@ + decimal(m) + ") array sizes"@
}

/// Which shape the altitudes of a layer are computed on, given the
/// latitudes and longitudes: a scalar takes the shape of the other array;
/// two arrays must hold as many items, and the latitudes' shape is kept.
pub fn coordinates_shape(
    latitude_ndim: usize,
    latitude_size: usize,
    latitude_shape: Vec<usize>,
    longitude_ndim: usize,
    longitude_size: usize,
    longitude_shape: Vec<usize>,
) -> (res: Result<Vec<usize>, (ErrorKind, String)>)
    ensures
        latitude_ndim == 0 ==> (res matches Ok(s) && s@ == longitude_shape@),
        latitude_ndim != 0 && longitude_ndim == 0 ==> (res matches Ok(s) && s@ == latitude_shape@),
        latitude_ndim != 0 && longitude_ndim != 0 && latitude_size == longitude_size ==> (res matches Ok(
            s,
        ) && s@ == latitude_shape@),
        latitude_ndim != 0 && longitude_ndim != 0 && latitude_size != longitude_size ==> is_refusal(
            res,
            refusal(
                ErrorKind::TypeError,
                "coordinates"@,
                inconsistent_coordinates_text(latitude_size as nat, longitude_size as nat),
            ),
        ),
{
    if latitude_ndim == 0 {
        Ok(longitude_shape)
    } else if longitude_ndim == 0 {
        Ok(latitude_shape)
    } else if latitude_size != longitude_size {
        proof {
            reveal_strlit("inconsistent latitude (");
            reveal_strlit(") and longitude (");
            reveal_strlit(") array sizes");
        }
        let mut why = String::from_str("inconsistent latitude (");
        push_decimal(&mut why, latitude_size as u64);
        why.append(") and longitude (");
        push_decimal(&mut why, longitude_size as u64);
        why.append(") array sizes");
        Err(refuse(ErrorKind::TypeError, "coordinates", why.as_str()))
    } else {
        Ok(latitude_shape)
    }
}

/// "expected a value in [0, {last}], found '{index}'".
pub open spec fn index_range_text(last: nat, index: nat) -> Seq<char> {
    "expected a value in [0, "@ + decimal(last) + "], found '"@ + decimal(index) + "'"@
}

/// Checks an index into the `len` elevation data of a layer (a layer holds
/// at least one).
pub fn data_index(len: usize, index: usize) -> (res: Result<usize, (ErrorKind, String)>)
    requires
        len > 0,
    ensures
        index < len ==> res == Ok::<usize, (ErrorKind, String)>(index),
        index >= len ==> is_refusal(
            res,
            refusal(ErrorKind::IndexError, "data index"@, index_range_text((len - 1) as nat, index as nat)),
        ),
{
    if index < len {
        Ok(index)
    } else {
        proof {
            reveal_strlit("expected a value in [0, ");
            reveal_strlit("], found '");
            reveal_strlit("'");
        }
        let mut why = String::from_str("expected a value in [0, ");
        push_decimal(&mut why, (len - 1) as u64);
        why.append("], found '");
        push_decimal(&mut why, index as u64);
        why.append("'");
        Err(refuse(ErrorKind::IndexError, "data index", why.as_str()))
    }
}

/// Checks that the coordinates of a camera are a single point.
pub fn scalar_coordinates(size: usize) -> (res: Result<(), (ErrorKind, String)>)
    ensures
        size == 1 ==> res is Ok,
        size != 1 ==> is_refusal(
            res,
            refusal(
                ErrorKind::TypeError,
                "camera coordinates"@,
                "expected a scalar, found size = "@ + decimal(size as nat),
            ),
        ),
{
    if size != 1 {
        proof {
            reveal_strlit("expected a scalar, found size = ");
        }
        let mut why = String::from_str("expected a scalar, found size = ");
        push_decimal(&mut why, size as u64);
        Err(refuse(ErrorKind::TypeError, "camera coordinates", why.as_str()))
    } else {
        Ok(())
    }
}


// ===============================================================================================
//
// Sources of grid data.
//
// ===============================================================================================

/// Where the elevation data of a grid is loaded from.
#[derive(Clone, Copy, Debug, PartialEq, Eq, Structural)]
pub enum GridSource {
    /// A single map file (ASCII grid, GRD or HGT).
    MapFile,
    /// A directory of map tiles.
    Stack,
}

/// The outcome of loading grid data from `path`: a file is loaded according
/// to its extension, a directory as a stack of tiles.
pub open spec fn grid_source_spec(
    path: Seq<char>,
    is_file: bool,
    is_dir: bool,
    extension: Option<Seq<char>>,
) -> Result<GridSource, (ErrorKind, Seq<char>)> {
    if is_file {
        match extension {
            Some(ext) => if ext == "asc"@ || ext == "grd"@ || ext == "hgt"@ {
                Ok(GridSource::MapFile)
            } else if ext == "tif"@ {
                Err(refusal(ErrorKind::NotImplementedError, "grid"@, ".tif"@))
            } else {
                Err(
                    refusal(
                        ErrorKind::TypeError,
                        "grid"@,
                        path + ": unsupported data format (."@ + ext + ")"@,
                    ),
                )
            },
            None => Err(
                refusal(ErrorKind::TypeError, "grid"@, path + ": missing data format extension"@),
            ),
        }
    } else if is_dir {
        Ok(GridSource::Stack)
    } else {
        Err(refusal(ErrorKind::TypeError, "grid"@, path + ": not a file or directory"@))
    }
}

/// Decides how grid data is loaded from `path` (see `grid_source_spec`),
/// given whether it is a file or a directory, and its extension.
pub fn grid_source(path: &str, is_file: bool, is_dir: bool, extension: Option<&str>) -> (res: Result<
    GridSource,
    (ErrorKind, String),
>)
    ensures
        match grid_source_spec(
            path@,
            is_file,
            is_dir,
            match extension {
                Some(e) => Some(e@),
                None => None,
            },
        ) {
            Ok(source) => res == Ok::<GridSource, (ErrorKind, String)>(source),
            Err(expected) => is_refusal(res, expected),
        },
{
    proof {
        reveal_strlit(": unsupported data format (.");
        reveal_strlit(")");
        reveal_strlit(": missing data format extension");
        reveal_strlit(": not a file or directory");
    }
    if is_file {
        match extension {
            Some(ext) => {
                if str_eq(ext, "asc") || str_eq(ext, "grd") || str_eq(ext, "hgt") {
                    Ok(GridSource::MapFile)
                } else if str_eq(ext, "tif") {
                    Err(refuse(ErrorKind::NotImplementedError, "grid", ".tif"))
                } else {
                    let mut why = path.to_owned();
                    why.append(": unsupported data format (.");
                    why.append(ext);
                    why.append(")");
                    Err(refuse(ErrorKind::TypeError, "grid", why.as_str()))
                }
            },
            None => {
                let mut why = path.to_owned();
                why.append(": missing data format extension");
                Err(refuse(ErrorKind::TypeError, "grid", why.as_str()))
            },
        }
    } else if is_dir {
        Ok(GridSource::Stack)
    } else {
        let mut why = path.to_owned();
        why.append(": not a file or directory");
        Err(refuse(ErrorKind::TypeError, "grid", why.as_str()))
    }
}

/// Checks that a stack of tiles loaded from `path` holds data: its shape (in
/// tiles) must not be empty.
pub fn stack_shape(path: &str, shape: [i32; 2]) -> (res: Result<(), (ErrorKind, String)>)
    ensures
        shape[0] != 0 && shape[1] != 0 ==> res is Ok,
        !(shape[0] != 0 && shape[1] != 0) ==> is_refusal(
            res,
            refusal(ErrorKind::TypeError, "grid"@, path@ + ": could not find any data tile"@),
        ),
{
    if shape[0] == 0 || shape[1] == 0 {
        proof {
            reveal_strlit(": could not find any data tile");
        }
        let mut why = path.to_owned();
        why.append(": could not find any data tile");
        Err(refuse(ErrorKind::TypeError, "grid", why.as_str()))
    } else {
        Ok(())
    }
}

/// The length of an array of states of shape `shape`: its size along its
/// first axis. A scalar (of empty shape) has none.
pub fn states_len(shape: &Vec<usize>) -> (res: Result<usize, (ErrorKind, String)>)
    ensures
        shape@.len() > 0 ==> res == Ok::<usize, (ErrorKind, String)>(shape@[0]),
        shape@.len() == 0 ==> (res matches Err((kind, msg)) && kind == ErrorKind::TypeError
            && msg@ == "len() of unsized object"@),
{
    if shape.len() > 0 {
        Ok(shape[0])
    } else {
        proof {
            reveal_strlit("len() of unsized object");
        }
        let err = Error::new(ErrorKind::TypeError).why("len() of unsized object");
        Err((ErrorKind::TypeError, err.to_string()))
    }
}

} // verus!
