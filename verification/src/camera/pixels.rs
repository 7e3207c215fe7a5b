use crate::utils::error::{Error, ErrorKind, error_message};
use crate::utils::strings::{decimal, push_decimal};
use vstd::arithmetic::div_mod::lemma_fundamental_div_mod_converse;
use vstd::prelude::*;
use vstd::string::*;

verus! {

// ===============================================================================================
//
// Pixels of a camera picture.
//
// A resolution is given as [height, width]. Pixels are visited row by row:
// the k-th pixel is in row k / width and column k % width.
//
// ===============================================================================================

/// The explanation of an invalid resolution.
pub open spec fn resolution_why(resolution: [usize; 2]) -> Seq<char> {
    "expected strictly positive values, found ["@ + decimal(resolution[0] as nat) + ", "@
        + decimal(resolution[1] as nat) + "]"@
}

/// Checks that a resolution ([height, width]) is strictly positive.
pub fn checked_resolution(resolution: [usize; 2]) -> (res: Result<(usize, usize), (ErrorKind, String)>)
    ensures
        resolution[0] > 0 && resolution[1] > 0 ==> res == Ok::<(usize, usize), (ErrorKind, String)>(
            (resolution[0], resolution[1]),
        ),
        !(resolution[0] > 0 && resolution[1] > 0) ==> (res matches Err((kind, msg))
            && kind == ErrorKind::ValueError
            && msg@ == error_message(Some("resolution"@), Some(resolution_why(resolution)))),
{
    if resolution[0] == 0 || resolution[1] == 0 {
        proof {
            reveal_strlit("expected strictly positive values, found [");
            reveal_strlit(", ");
            reveal_strlit("]");
        }
        let mut why = String::from_str("expected strictly positive values, found [");
        push_decimal(&mut why, resolution[0] as u64);
        why.append(", ");
        push_decimal(&mut why, resolution[1] as u64);
        why.append("]");
        let err = Error::new(ErrorKind::ValueError).what("resolution").why(why.as_str());
        Err((ErrorKind::ValueError, err.to_string()))
    } else {
        Ok((resolution[0], resolution[1]))
    }
}

/// The height of a resolution.
pub fn height(resolution: [usize; 2]) -> (res: usize)
    ensures
        res == resolution[0],
{
    resolution[0]
}

/// The width of a resolution.
pub fn width(resolution: [usize; 2]) -> (res: usize)
    ensures
        res == resolution[1],
{
    resolution[1]
}

/// The pixel visited at step `k` of a picture `nu` pixels wide and `nv`
/// pixels high, as (row, column), or `None` past the last pixel.
pub open spec fn pixel_at(nu: nat, nv: nat, k: nat) -> Option<(nat, nat)> {
    if k / nu < nv {
        Some((k / nu, k % nu))
    } else {
        None
    }
}

/// A walk through the pixels of a picture, row by row.
pub struct PixelIndices {
    nu: usize,
    nv: usize,
    index: usize,
}

impl PixelIndices {
    pub closed spec fn width_spec(&self) -> nat {
        self.nu as nat
    }

    pub closed spec fn height_spec(&self) -> nat {
        self.nv as nat
    }

    pub closed spec fn step(&self) -> nat {
        self.index as nat
    }

    /// A walk through a picture `nu` pixels wide and `nv` pixels high.
    pub fn new(nu: usize, nv: usize) -> (res: Self)
        ensures
            res.width_spec() == nu,
            res.height_spec() == nv,
            res.step() == 0,
    {
        PixelIndices { nu, nv, index: 0 }
    }

    /// The next pixel, as (row, column), or `None` once all were visited.
    pub fn next_pixel(&mut self) -> (res: Option<(usize, usize)>)
        requires
            old(self).width_spec() > 0,
            old(self).step() < usize::MAX,
        ensures
            final(self).width_spec() == old(self).width_spec(),
            final(self).height_spec() == old(self).height_spec(),
            final(self).step() == old(self).step() + 1,
            match pixel_at(old(self).width_spec(), old(self).height_spec(), old(self).step()) {
                Some((i, j)) => res == Some((i as usize, j as usize)),
                None => res is None,
            },
    {
        let i = self.index / self.nu;
        let j = self.index % self.nu;
        self.index = self.index + 1;
        if i < self.nv && j < self.nu {
            Some((i, j))
        } else {
            None
        }
    }
}

/// Each pixel of a picture is visited once, at the step given by its row
/// and column, and the walk ends after the last one.
pub proof fn law_pixels_row_major(nu: nat, nv: nat, i: nat, j: nat)
    requires
        nu > 0,
        i < nv,
        j < nu,
    ensures
        i * nu + j < nu * nv,
        pixel_at(nu, nv, i * nu + j) == Some((i, j)),
        pixel_at(nu, nv, nu * nv) is None,
{
    lemma_fundamental_div_mod_converse((i * nu + j) as int, nu as int, i as int, j as int);
    lemma_fundamental_div_mod_converse((nu * nv) as int, nu as int, nv as int, 0);
    assert(i * nu + j < nu * nv) by (nonlinear_arith)
        requires
            i < nv,
            j < nu,
    {
        assert(i * nu + nu <= nv * nu);
    }
}

} // verus!
