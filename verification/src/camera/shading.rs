use crate::utils::error::{Error, ErrorKind, error_message};
use crate::utils::strings::str_eq;
use vstd::prelude::*;
use vstd::string::*;

verus! {

// ===============================================================================================
//
// Shading of a camera picture.
//
// Each pixel of a picture records the index of the medium that it sees: an
// index into the picture's materials, a negative value where nothing was
// hit, or the index just past the materials for the atmosphere. The optical
// properties (or colours) of the materials are given by name; a picture
// resolves its materials against them once, then shades each pixel from its
// medium index.
//
// ===============================================================================================

/// The names of a list of strings.
pub open spec fn names_of(v: Seq<String>) -> Seq<Seq<char>> {
    v.map_values(|s: String| s@)
}

/// The first position of `name` among `keys`, if any.
pub open spec fn first_match(keys: Seq<Seq<char>>, name: Seq<char>) -> Option<int> {
    if exists|j: int| 0 <= j < keys.len() && keys[j] == name {
        Some(
            choose|j: int|
                0 <= j < keys.len() && keys[j] == name && forall|k: int| 0 <= k < j ==> keys[k] != name,
        )
    } else {
        None
    }
}

/// The view of an optional position.
pub open spec fn opt_position(o: Option<usize>) -> Option<int> {
    match o {
        Some(j) => Some(j as int),
        None => None,
    }
}

/// The first position of `name` among `keys`, if any.
pub fn find_name(keys: &Vec<String>, name: &str) -> (res: Option<usize>)
    ensures
        opt_position(res) == first_match(names_of(keys@), name@),
        res matches Some(j) ==> j < keys@.len(),
{
    let ghost kv = names_of(keys@);
    let mut i: usize = 0;
    while i < keys.len()
        invariant
            kv == names_of(keys@),
            i <= keys@.len(),
            forall|k: int| 0 <= k < i ==> kv[k] != name@,
        decreases keys@.len() - i,
    {
        if str_eq(keys[i].as_str(), name) {
            proof {
                assert(kv[i as int] == name@);
                let c = choose|j: int|
                    0 <= j < kv.len() && kv[j] == name@ && forall|k: int| 0 <= k < j ==> kv[k] != name@;
                assert(0 <= c < kv.len() && kv[c] == name@ && forall|k: int| 0 <= k < c ==> kv[k] != name@);
                if c > i {
                    assert(kv[i as int] != name@);
                }
            }
            return Some(i);
        }
        i = i + 1;
    }
    None
}

/// The position of each of `materials` among the names of known properties,
/// if there.
pub open spec fn slots(materials: Seq<Seq<char>>, known: Seq<Seq<char>>) -> Seq<Option<int>> {
    Seq::new(materials.len(), |i: int| first_match(known, materials[i]))
}

/// The view of optional positions.
pub open spec fn opt_positions(v: Seq<Option<usize>>) -> Seq<Option<int>> {
    v.map_values(|o: Option<usize>| opt_position(o))
}

/// The view of positions, all given.
pub open spec fn positions(v: Seq<usize>) -> Seq<Option<int>> {
    v.map_values(|j: usize| Some(j as int))
}

/// Resolves the materials of a picture against the names of the optical
/// properties that are given: the position of the properties of each
/// material, or `None` where the default properties apply.
pub fn material_slots(materials: &Vec<String>, known: &Vec<String>) -> (res: Vec<Option<usize>>)
    ensures
        opt_positions(res@) == slots(names_of(materials@), names_of(known@)),
{
    let ghost mv = names_of(materials@);
    let ghost kv = names_of(known@);
    let mut res: Vec<Option<usize>> = Vec::new();
    let mut i: usize = 0;
    while i < materials.len()
        invariant
            mv == names_of(materials@),
            kv == names_of(known@),
            i <= materials@.len(),
            opt_positions(res@) == slots(mv, kv).take(i as int),
        decreases materials@.len() - i,
    {
        let name = materials[i].as_str();
        let slot = find_name(known, name);
        assert(slots(mv, kv)[i as int] == first_match(kv, name@));
        assert(opt_position(slot) == first_match(kv, name@));
        let ghost before = res@;
        res.push(slot);
        assert(opt_positions(res@) =~= opt_positions(before).push(opt_position(slot)));
        assert(slots(mv, kv).take(i as int).push(slots(mv, kv)[i as int]) =~= slots(mv, kv).take(
            i + 1,
        ));
        i = i + 1;
    }
    assert(slots(mv, kv).take(materials@.len() as int) =~= slots(mv, kv));
    res
}

/// Why a palette does not do: it has no colour for `material`.
pub open spec fn missing_colour_why(material: Seq<char>) -> Seq<char> {
    "undefined colour for material '"@ + material + "'"@
}

/// The first material that has no colour in the palette, if any.
pub open spec fn first_uncoloured(materials: Seq<Seq<char>>, palette: Seq<Seq<char>>) -> Option<int> {
    if exists|i: int| 0 <= i < materials.len() && first_match(palette, materials[i]) is None {
        Some(
            choose|i: int|
                0 <= i < materials.len() && first_match(palette, materials[i]) is None && forall|k: int|
                    0 <= k < i ==> first_match(palette, materials[k]) is Some,
        )
    } else {
        None
    }
}

/// Resolves the materials of a picture against the names of the colours of
/// a palette: the position of the colour of each material. A material with
/// no colour is an error.
pub fn palette_slots(materials: &Vec<String>, palette: &Vec<String>) -> (res: Result<
    Vec<usize>,
    (ErrorKind, String),
>)
    ensures
        match first_uncoloured(names_of(materials@), names_of(palette@)) {
            None => res is Ok && positions(res->Ok_0@) == slots(
                names_of(materials@),
                names_of(palette@),
            ),
            Some(i) => res matches Err((kind, msg)) && kind == ErrorKind::ValueError && msg@
                == error_message(Some("palette"@), Some(missing_colour_why(names_of(materials@)[i]))),
        },
{
    let ghost mv = names_of(materials@);
    let ghost pv = names_of(palette@);
    let mut res: Vec<usize> = Vec::new();
    let mut i: usize = 0;
    while i < materials.len()
        invariant
            mv == names_of(materials@),
            pv == names_of(palette@),
            i <= materials@.len(),
            forall|k: int| 0 <= k < i ==> first_match(pv, mv[k]) is Some,
            positions(res@) == slots(mv, pv).take(i as int),
        decreases materials@.len() - i,
    {
        let name = materials[i].as_str();
        assert(slots(mv, pv)[i as int] == first_match(pv, name@));
        match find_name(palette, name) {
            Some(j) => {
                assert(Some(j as int) == first_match(pv, name@));
                let ghost before = res@;
                res.push(j);
                assert(positions(res@) =~= positions(before).push(Some(j as int)));
                assert(slots(mv, pv).take(i as int).push(slots(mv, pv)[i as int]) =~= slots(
                    mv,
                    pv,
                ).take(i + 1));
            },
            None => {
                proof {
                    reveal_strlit("undefined colour for material '");
                    reveal_strlit("'");
                    assert(first_match(pv, mv[i as int]) is None);
                    let c = choose|q: int|
                        0 <= q < mv.len() && first_match(pv, mv[q]) is None && forall|k: int|
                            0 <= k < q ==> first_match(pv, mv[k]) is Some;
                    assert(0 <= c < mv.len() && first_match(pv, mv[c]) is None && forall|k: int|
                        0 <= k < c ==> first_match(pv, mv[k]) is Some);
                    if c > i {
                        assert(first_match(pv, mv[i as int]) is Some);
                    }
                }
                let mut why = String::from_str("undefined colour for material '");
                why.append(name);
                why.append("'");
                let err = Error::new(ErrorKind::ValueError).what("palette").why(why.as_str());
                return Err((ErrorKind::ValueError, err.to_string()));
            },
        }
        i = i + 1;
    }
    assert(slots(mv, pv).take(materials@.len() as int) =~= slots(mv, pv));
    Ok(res)
}

/// How a pixel of a rendered picture is shaded.
#[derive(Clone, Copy, Debug, PartialEq, Eq, Structural)]
pub enum Shading {
    /// Nothing was hit: the pixel is black.
    Dark,
    /// The pixel shows the material of the given index.
    Material(usize),
    /// The pixel shows the sky.
    Sky,
}

/// The shading of a pixel that sees medium `medium`, among `n_materials`
/// materials (past which lies the atmosphere).
pub open spec fn shading_of(medium: int, n_materials: int) -> Shading {
    if medium < 0 {
        Shading::Dark
    } else if medium < n_materials {
        Shading::Material(medium as usize)
    } else {
        Shading::Sky
    }
}

/// A pixel is dark exactly where nothing was hit, shows the material that
/// it sees when one of the materials, and the sky past them.
pub proof fn law_pixel_shading(medium: int, n_materials: int)
    ensures
        shading_of(medium, n_materials) == Shading::Dark <==> medium < 0,
        shading_of(medium, n_materials) == Shading::Sky <==> 0 <= medium && n_materials <= medium,
        0 <= medium < n_materials ==> shading_of(medium, n_materials) == Shading::Material(
            medium as usize,
        ),
{
}

/// Shades a pixel of a rendered picture from the medium that it sees.
pub fn pixel_shading(medium: i32, n_materials: usize) -> (res: Shading)
    ensures
        res == shading_of(medium as int, n_materials as int),
        res == Shading::Dark <==> medium < 0,
        res matches Shading::Material(m) ==> m == medium && medium < n_materials,
        res == Shading::Sky <==> 0 <= medium && n_materials <= medium,
        0 <= medium < n_materials ==> res == Shading::Material(medium as usize),
{
    if medium < 0 {
        Shading::Dark
    } else {
        let m: u32 = medium as u32;
        if (m as u64) < (n_materials as u64) {
            Shading::Material(m as usize)
        } else {
            Shading::Sky
        }
    }
}

/// The colour of a pixel of a developed picture, that sees layer `layer`,
/// among `n_colours` coloured layers: the index of its colour, or `None`
/// for a black pixel.
pub fn layer_colour(layer: i32, n_colours: usize) -> (res: Option<usize>)
    ensures
        0 <= layer < n_colours ==> res == Some(layer as usize),
        !(0 <= layer < n_colours) ==> res is None,
{
    if layer < 0 {
        None
    } else {
        let l: u32 = layer as u32;
        if (l as u64) < (n_colours as u64) {
            Some(l as usize)
        } else {
            None
        }
    }
}

/// Whether a camera that stands in medium `medium` stands in the
/// atmosphere, which lies past the `n_materials` materials.
pub open spec fn in_atmosphere(medium: int, n_materials: int) -> bool {
    medium == n_materials
}

/// Whether a camera stands in the atmosphere.
pub fn camera_in_atmosphere(medium: i32, n_materials: usize) -> (res: bool)
    ensures
        res == in_atmosphere(medium as int, n_materials as int),
{
    if medium < 0 {
        false
    } else {
        let m: u32 = medium as u32;
        (m as u64) == (n_materials as u64)
    }
}

/// The lights of a rendering when none are given.
#[derive(Clone, Copy, Debug, PartialEq, Eq, Structural)]
pub enum DefaultLights {
    /// The sun, for a camera in the atmosphere.
    Sun,
    /// A directional light, for a camera under ground.
    Directional,
}

/// The lights of a rendering by a camera in medium `medium` when none are
/// given.
pub fn default_lights(medium: i32, n_materials: usize) -> (res: DefaultLights)
    ensures
        in_atmosphere(medium as int, n_materials as int) ==> res == DefaultLights::Sun,
        !in_atmosphere(medium as int, n_materials as int) ==> res == DefaultLights::Directional,
{
    if camera_in_atmosphere(medium, n_materials) {
        DefaultLights::Sun
    } else {
        DefaultLights::Directional
    }
}

/// Whether a rendering shows the atmosphere: it was asked for, the camera
/// stands in it, and some directional light shines.
pub fn renders_atmosphere(requested: bool, medium: i32, n_materials: usize, n_directionals: usize) -> (res: bool)
    ensures
        res == (requested && in_atmosphere(medium as int, n_materials as int) && n_directionals > 0),
{
    requested && camera_in_atmosphere(medium, n_materials) && n_directionals > 0
}

} // verus!
