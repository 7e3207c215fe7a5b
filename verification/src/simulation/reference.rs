use crate::utils::error::{Error, ErrorKind, error_message, is_refusal, refusal, refuse};
use crate::utils::strings::{decimal, push_decimal, str_eq};
use vstd::prelude::*;
use vstd::string::*;

verus! {

// ===============================================================================================
//
// Reference fluxes.
//
// A reference flux is tabulated over altitude, cos(theta) and kinetic energy,
// with two values (flux and asymmetry) per node. The table comes from an
// array, with keyword arguments that give its ranges, or from a ".table"
// file: a header of three 64-bit integers (the numbers of energy, cos(theta)
// and altitude nodes) and six 64-bit floats (their ranges), then the values
// as 32-bit floats, all little-endian.
//
// ===============================================================================================

/// A keyword argument of a reference flux given as an array.
#[derive(Clone, Copy, Debug, PartialEq, Eq, Structural)]
pub enum ReferenceKeyword {
    Altitude,
    CosTheta,
    Energy,
}

/// The keyword that `key` names, if any.
pub open spec fn keyword_of(key: Seq<char>) -> Option<ReferenceKeyword> {
    if key == "altitude"@ {
        Some(ReferenceKeyword::Altitude)
    } else if key == "cos_theta"@ {
        Some(ReferenceKeyword::CosTheta)
    } else if key == "energy"@ {
        Some(ReferenceKeyword::Energy)
    } else {
        None
    }
}

/// Reads the keyword argument `key` of a reference flux given as an array.
pub fn reference_keyword(key: &str) -> (res: Result<ReferenceKeyword, (ErrorKind, String)>)
    ensures
        match keyword_of(key@) {
            Some(keyword) => res == Ok::<ReferenceKeyword, (ErrorKind, String)>(keyword),
            None => is_refusal(
                res,
                refusal(ErrorKind::TypeError, "kwargs"@, "invalid keyword argument '"@ + key@ + "'"@),
            ),
        },
{
    proof {
        reveal_strlit("altitude");
        reveal_strlit("cos_theta");
        reveal_strlit("energy");
    }
    if str_eq(key, "altitude") {
        Ok(ReferenceKeyword::Altitude)
    } else if str_eq(key, "cos_theta") {
        Ok(ReferenceKeyword::CosTheta)
    } else if str_eq(key, "energy") {
        Ok(ReferenceKeyword::Energy)
    } else {
        proof {
            reveal_strlit("invalid keyword argument '");
            reveal_strlit("'");
        }
        let mut why = String::from_str("invalid keyword argument '");
        why.append(key);
        why.append("'");
        Err(refuse(ErrorKind::TypeError, "kwargs", why.as_str()))
    }
}

/// The error of a reference flux given as an array without its energy
/// range.
pub fn missing_energy() -> (res: (ErrorKind, String))
    ensures
        res.0 == ErrorKind::TypeError,
        res.1@ == error_message(Some("reference"@), Some("missing energy range"@)),
{
    refuse(ErrorKind::TypeError, "reference", "missing energy range")
}

/// Checks the format of a reference flux read from the file `path`, from the
/// extension of its name: only ".table" files are read.
pub fn table_file(path: &str, extension: Option<&str>) -> (res: Result<(), (ErrorKind, String)>)
    ensures
        match extension {
            Some(ext) => if ext@ == "table"@ {
                res is Ok
            } else {
                is_refusal(
                    res,
                    refusal(
                        ErrorKind::TypeError,
                        "model"@,
                        path@ + ": unsupported format (."@ + ext@ + ")"@,
                    ),
                )
            },
            None => is_refusal(
                res,
                refusal(ErrorKind::TypeError, "model"@, path@ + ": missing format"@),
            ),
        },
{
    proof {
        reveal_strlit("table");
        reveal_strlit(": unsupported format (.");
        reveal_strlit(")");
        reveal_strlit(": missing format");
    }
    match extension {
        Some(ext) => if str_eq(ext, "table") {
            Ok(())
        } else {
            let mut why = path.to_owned();
            why.append(": unsupported format (.");
            why.append(ext);
            why.append(")");
            Err(refuse(ErrorKind::TypeError, "model", why.as_str()))
        },
        None => {
            let mut why = path.to_owned();
            why.append(": missing format");
            Err(refuse(ErrorKind::TypeError, "model", why.as_str()))
        },
    }
}

/// The shape of a reference table, as numbers of altitude, cos(theta) and
/// energy nodes, and its number of values (two per node).
#[derive(Clone, Copy, Debug, PartialEq, Eq, Structural)]
pub struct TableShape {
    pub n_h: usize,
    pub n_c: usize,
    pub n_k: usize,
    pub values: usize,
}

/// "expected a {ndim}d array, found {found}d".
pub open spec fn ndim_why(ndim: nat, found: nat) -> Seq<char> {
    "expected a "@ + decimal(ndim) + "d array, found "@ + decimal(found) + "d"@
}

/// The number of values of a table of the given shape: two per node.
pub open spec fn values_of(n_h: int, n_c: int, n_k: int) -> int {
    2 * n_k * n_c * n_h
}

/// The number of values of a table of the given shape, if it fits in a
/// `usize`.
fn values_count(n_h: usize, n_c: usize, n_k: usize) -> (res: Option<usize>)
    ensures
        values_of(n_h as int, n_c as int, n_k as int) <= usize::MAX ==> res == Some(
            values_of(n_h as int, n_c as int, n_k as int) as usize,
        ),
        values_of(n_h as int, n_c as int, n_k as int) > usize::MAX ==> res is None,
{
    let ghost values = values_of(n_h as int, n_c as int, n_k as int);
    if n_h == 0 || n_c == 0 || n_k == 0 {
        assert(values == 0) by (nonlinear_arith)
            requires
                values == 2 * n_k * n_c * n_h,
                n_h == 0 || n_c == 0 || n_k == 0,
        ;
        return Some(0);
    }
    match 2usize.checked_mul(n_k) {
        None => {
            assert(values > usize::MAX) by (nonlinear_arith)
                requires
                    values == 2 * n_k * n_c * n_h,
                    2 * n_k > usize::MAX,
                    n_c >= 1,
                    n_h >= 1,
            ;
            None
        },
        Some(a) => match a.checked_mul(n_c) {
            None => {
                assert(values > usize::MAX) by (nonlinear_arith)
                    requires
                        values == 2 * n_k * n_c * n_h,
                        a == 2 * n_k,
                        a * n_c > usize::MAX,
                        n_h >= 1,
                ;
                None
            },
            Some(b) => match b.checked_mul(n_h) {
                None => {
                    assert(values == b * n_h) by (nonlinear_arith)
                        requires
                            values == 2 * n_k * n_c * n_h,
                            a == 2 * n_k,
                            b == a * n_c,
                    ;
                    None
                },
                Some(n) => {
                    assert(values == b * n_h) by (nonlinear_arith)
                        requires
                            values == 2 * n_k * n_c * n_h,
                            a == 2 * n_k,
                            b == a * n_c,
                    ;
                    Some(n)
                },
            },
        },
    }
}

/// The shape of a reference table given as an array of shape `shape`: a 2d
/// array of (cos(theta), energy) nodes at a single altitude, or, when an
/// altitude range is given, a 3d array of (altitude, cos(theta), energy)
/// nodes.
pub open spec fn array_shape(ranged: bool, shape: Seq<usize>) -> Result<(int, int, int), (ErrorKind, Seq<char>)> {
    let ndim: nat = if ranged { 3 } else { 2 };
    if shape.len() != ndim {
        Err(refusal(ErrorKind::TypeError, "grid"@, ndim_why(ndim, shape.len())))
    } else if ranged {
        Ok((shape[0] as int, shape[1] as int, shape[2] as int))
    } else {
        Ok((1, shape[0] as int, shape[1] as int))
    }
}

/// Reads the shape of a reference table given as an array (see
/// `array_shape`); `ranged` tells whether an altitude range is given.
pub fn table_shape(ranged: bool, shape: &Vec<usize>) -> (res: Result<TableShape, (ErrorKind, String)>)
    requires
        array_shape(ranged, shape@) matches Ok((n_h, n_c, n_k)) ==> values_of(n_h, n_c, n_k)
            <= usize::MAX,
    ensures
        match array_shape(ranged, shape@) {
            Ok((n_h, n_c, n_k)) => res matches Ok(t) && t.n_h == n_h && t.n_c == n_c && t.n_k == n_k
                && t.values == values_of(n_h, n_c, n_k),
            Err(expected) => is_refusal(res, expected),
        },
{
    let ndim: usize = if ranged { 3 } else { 2 };
    if shape.len() != ndim {
        proof {
            reveal_strlit("expected a ");
            reveal_strlit("d array, found ");
            reveal_strlit("d");
        }
        let mut why = String::from_str("expected a ");
        push_decimal(&mut why, ndim as u64);
        why.append("d array, found ");
        push_decimal(&mut why, shape.len() as u64);
        why.append("d");
        return Err(refuse(ErrorKind::TypeError, "grid", why.as_str()));
    }
    let (n_h, n_c, n_k) = if ranged {
        (shape[0], shape[1], shape[2])
    } else {
        (1, shape[0], shape[1])
    };
    let values = values_count(n_h, n_c, n_k).unwrap();
    Ok(TableShape { n_h, n_c, n_k, values })
}

/// The size of the header of a table file, in bytes.
pub const HEADER_SIZE: usize = 72;

/// The unsigned value of the eight bytes of `b` from `offset`, little-endian.
pub open spec fn le_u64(b: Seq<u8>, offset: int) -> int {
    b[offset] + 0x100 * b[offset + 1] + 0x1_0000 * b[offset + 2] + 0x100_0000 * b[offset + 3]
        + 0x1_0000_0000 * b[offset + 4] + 0x100_0000_0000 * b[offset + 5] + 0x1_0000_0000_0000
        * b[offset + 6] + 0x100_0000_0000_0000 * b[offset + 7]
}

/// The size held by the 64-bit signed integer at `offset` in `b`, if it is
/// one: a negative integer, or one too large for a `usize`, is not.
pub open spec fn size_at(b: Seq<u8>, offset: int) -> Option<int> {
    let v = le_u64(b, offset);
    if v < 0x8000_0000_0000_0000 && v <= usize::MAX {
        Some(v)
    } else {
        None
    }
}

/// The shape of the table in the file of content `b`, if its header is
/// whole, its sizes are sizes and its values are all there.
pub open spec fn file_shape(b: Seq<u8>) -> Option<(int, int, int)> {
    if b.len() < HEADER_SIZE {
        None
    } else {
        match (size_at(b, 0), size_at(b, 8), size_at(b, 16)) {
            (Some(n_k), Some(n_c), Some(n_h)) => if HEADER_SIZE + 4 * values_of(n_h, n_c, n_k)
                <= b.len() {
                Some((n_h, n_c, n_k))
            } else {
                None
            },
            _ => None,
        }
    }
}

/// Bytes past the values of a table file are not read: they do not change
/// its shape.
pub proof fn law_trailing_bytes_ignored(b: Seq<u8>, extra: Seq<u8>)
    requires
        file_shape(b) is Some,
    ensures
        file_shape(b + extra) == file_shape(b),
{
    let c = b + extra;
    assert forall|j: int| 0 <= j < HEADER_SIZE implies c[j] == b[j] by {}
    assert(le_u64(c, 0) == le_u64(b, 0));
    assert(le_u64(c, 8) == le_u64(b, 8));
    assert(le_u64(c, 16) == le_u64(b, 16));
}

/// The unsigned value of the eight bytes of `b` from `offset`,
/// little-endian.
fn read_u64(b: &[u8], offset: usize) -> (res: u64)
    requires
        offset + 8 <= b@.len(),
    ensures
        res == le_u64(b@, offset as int),
{
    let b0 = b[offset] as u64;
    let b1 = b[offset + 1] as u64;
    let b2 = b[offset + 2] as u64;
    let b3 = b[offset + 3] as u64;
    let b4 = b[offset + 4] as u64;
    let b5 = b[offset + 5] as u64;
    let b6 = b[offset + 6] as u64;
    let b7 = b[offset + 7] as u64;
    b0 + 0x100 * b1 + 0x1_0000 * b2 + 0x100_0000 * b3 + 0x1_0000_0000 * b4 + 0x100_0000_0000 * b5
        + 0x1_0000_0000_0000 * b6 + 0x100_0000_0000_0000 * b7
}

/// The size held at `offset` in `b` (see `size_at`).
fn read_size(b: &[u8], offset: usize) -> (res: Option<usize>)
    requires
        offset + 8 <= b@.len(),
    ensures
        match size_at(b@, offset as int) {
            Some(v) => res == Some(v as usize),
            None => res is None,
        },
{
    let v = read_u64(b, offset);
    if v < 0x8000_0000_0000_0000 && v <= usize::MAX as u64 {
        Some(v as usize)
    } else {
        None
    }
}

/// The message of a table file that is not well formed.
pub open spec fn bad_format_text(path: Seq<char>) -> Seq<char> {
    path + ": bad table format)"@
}

/// Reads the shape of the table in the file `path`, of content `bytes`
/// (see `file_shape`); the error of a file that is not well formed.
pub fn table_file_shape(path: &str, bytes: &[u8]) -> (res: Result<TableShape, (ErrorKind, String)>)
    ensures
        match file_shape(bytes@) {
            Some((n_h, n_c, n_k)) => res matches Ok(t) && t.n_h == n_h && t.n_c == n_c && t.n_k
                == n_k && t.values == values_of(n_h, n_c, n_k),
            None => res matches Err((kind, msg)) && kind == ErrorKind::ValueError && msg@
                == bad_format_text(path@),
        },
{
    proof {
        reveal_strlit(": bad table format)");
    }
    let mut why = path.to_owned();
    why.append(": bad table format)");
    let err = Error::new(ErrorKind::ValueError).why(why.as_str());
    let bad_format = (ErrorKind::ValueError, err.to_string());
    if bytes.len() < HEADER_SIZE {
        return Err(bad_format);
    }
    let (n_k, n_c, n_h) = match (read_size(bytes, 0), read_size(bytes, 8), read_size(bytes, 16)) {
        (Some(n_k), Some(n_c), Some(n_h)) => (n_k, n_c, n_h),
        _ => {
            return Err(bad_format);
        },
    };
    match values_count(n_h, n_c, n_k) {
        Some(n) => if n <= (bytes.len() - HEADER_SIZE) / 4 {
            Ok(TableShape { n_h, n_c, n_k, values: n })
        } else {
            Err(bad_format)
        },
        None => Err(bad_format),
    }
}

} // verus!
