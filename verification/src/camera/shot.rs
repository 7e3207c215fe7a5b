use crate::camera::pixels::{checked_resolution, resolution_why};
use crate::utils::error::{ErrorKind, error_message, is_refusal, refusal, refuse};
use vstd::prelude::*;
use vstd::string::*;

verus! {

// ===============================================================================================
//
// Shooting a geometry with a camera.
//
// The layers of an Earth geometry are indexed from 0; the index just past
// them stands for the atmosphere. For each pixel, the camera traces a ray
// from its own layer, and records the layer that the ray enters (the one
// after the first interface that it crosses). A ray that never leaves the
// camera's layer records -1. A camera under ground that looks up into the
// atmosphere sees the back of the layer that it leaves, whose surface
// normal is then reversed.
//
// ===============================================================================================

/// The resolution of a camera: the given one, or 90 x 120 pixels.
pub open spec fn resolution_or_default(resolution: Option<[usize; 2]>) -> [usize; 2] {
    match resolution {
        Some(r) => r,
        None => [90, 120],
    }
}

/// The resolution ([height, width]) of a new camera: the given one, or
/// 90 x 120 pixels, which must be strictly positive.
pub fn camera_resolution(resolution: Option<[usize; 2]>) -> (res: Result<(usize, usize), (ErrorKind, String)>)
    ensures
        ({
            let r = resolution_or_default(resolution);
            &&& r[0] > 0 && r[1] > 0 ==> res == Ok::<(usize, usize), (ErrorKind, String)>((r[0], r[1]))
            &&& !(r[0] > 0 && r[1] > 0) ==> (res matches Err((kind, msg)) && kind == ErrorKind::ValueError
                && msg@ == error_message(Some("resolution"@), Some(resolution_why(r))))
        }),
{
    let r = match resolution {
        Some(r) => r,
        None => [90, 120],
    };
    checked_resolution(r)
}

/// Checks the optics given to a new camera: a focal length or a field of
/// view, not both.
pub fn camera_optics(focal: bool, fov: bool) -> (res: Result<(), (ErrorKind, String)>)
    ensures
        !(focal && fov) ==> res is Ok,
        focal && fov ==> is_refusal(
            res,
            refusal(ErrorKind::TypeError, "arguments"@, "cannot set 'focal' and 'fov'"@),
        ),
{
    if focal && fov {
        Err(refuse(ErrorKind::TypeError, "arguments", "cannot set 'focal' and 'fov'"))
    } else {
        Ok(())
    }
}

/// What a pixel sees: the layer that it records, and whether its surface is
/// seen from behind.
#[derive(Clone, Copy, Debug, PartialEq, Eq, Structural)]
pub struct PixelHit {
    pub backface: bool,
    pub layer: i32,
}

/// What a pixel sees, for a camera in layer `camera` among layers below the
/// atmosphere `air`, when its ray crosses from layer `before` into layer
/// `after`.
pub open spec fn pixel_hit_spec(camera: i32, air: i32, before: i32, after: i32) -> PixelHit {
    if after == camera {
        PixelHit { backface: false, layer: -1i32 }
    } else if camera < air && after == air {
        PixelHit { backface: true, layer: before }
    } else {
        PixelHit { backface: false, layer: after }
    }
}

/// A pixel sees a surface from behind only when its ray, from a camera
/// under the atmosphere, enters the atmosphere: it then records the layer
/// that the ray leaves. A ray that enters any other layer records that
/// layer, seen from the front; a ray that never leaves the camera's layer
/// records -1.
pub proof fn law_backface_only_into_atmosphere(camera: i32, air: i32, before: i32, after: i32)
    ensures
        pixel_hit_spec(camera, air, before, after).backface <==> (after != camera && camera < air
            && after == air),
        pixel_hit_spec(camera, air, before, after).backface ==> pixel_hit_spec(
            camera,
            air,
            before,
            after,
        ).layer == before,
        after == camera ==> pixel_hit_spec(camera, air, before, after).layer == -1,
        after != camera && after != air ==> pixel_hit_spec(camera, air, before, after) == (PixelHit {
            backface: false,
            layer: after,
        }),
{
}

/// What a pixel sees (see `pixel_hit_spec`).
pub fn pixel_hit(camera: i32, air: i32, before: i32, after: i32) -> (res: PixelHit)
    ensures
        res == pixel_hit_spec(camera, air, before, after),
        res.backface <==> (after != camera && camera < air && after == air),
        res.backface ==> res.layer == before,
        after == camera ==> res.layer == -1,
        after != camera && after != air ==> !res.backface && res.layer == after,
        camera >= air ==> !res.backface,
{
    if after == camera {
        PixelHit { backface: false, layer: -1 }
    } else if camera < air && after == air {
        PixelHit { backface: true, layer: before }
    } else {
        PixelHit { backface: false, layer: after }
    }
}

/// Where the surface normal seen by a pixel is read from: the layer that it
/// records, if one under the atmosphere, and the index of the layer's
/// elevation data at the intersection, if any (`counts` gives the number of
/// elevation data of each layer).
pub open spec fn normal_source_spec(layer: i32, index: i32, air: i32, counts: Seq<usize>) -> Option<(int, int)> {
    if 0 <= layer < air && layer < counts.len() && 0 <= index < counts[layer as int] {
        Some((layer as int, index as int))
    } else {
        None
    }
}

/// Where the surface normal seen by a pixel is read from (see
/// `normal_source_spec`); none, for a flat normal.
pub fn normal_source(layer: i32, index: i32, air: i32, counts: &Vec<usize>) -> (res: Option<(usize, usize)>)
    ensures
        match normal_source_spec(layer, index, air, counts@) {
            Some((l, k)) => res == Some((l as usize, k as usize)),
            None => res is None,
        },
        res matches Some((l, k)) ==> l == layer && k == index && layer < air && l < counts@.len()
            && k < counts@[l as int],
        0 <= layer < air && layer < counts@.len() && 0 <= index < counts@[layer as int] ==> res
            is Some,
{
    if layer < 0 || layer >= air || index < 0 {
        return None;
    }
    let l: usize = layer as u32 as usize;
    if l >= counts.len() {
        return None;
    }
    let k: usize = index as u32 as usize;
    if k < counts[l] {
        Some((l, k))
    } else {
        None
    }
}

} // verus!
