use crate::utils::error::{Error, ErrorKind, error_message};
use crate::utils::strings::str_eq;
use vstd::prelude::*;
use vstd::string::*;

verus! {

// ===============================================================================================
//
// Keyword arguments of a fluxmeter.
//
// A fluxmeter is built from layers (positional arguments) and keyword
// arguments. The keywords "atmosphere", "magnet" and "materials" configure
// the geometry built from the layers, unless a "geometry" is given, which
// then excludes layers and those keywords. The keywords "bremsstrahlung",
// "pair_production" and "photonuclear" configure the physics, unless a
// "physics" object is given, which then excludes them. "random" gives the
// random stream. Any other keyword sets an attribute of the fluxmeter.
//
// ===============================================================================================

/// The keywords of a fluxmeter, sorted by what they configure (as indices
/// into the keywords).
pub struct FluxmeterArguments {
    pub geometry: Option<usize>,
    pub geometry_kwargs: Vec<usize>,
    pub physics: Option<usize>,
    pub physics_kwargs: Vec<usize>,
    pub random: Option<usize>,
    pub attributes: Vec<usize>,
}

/// The index of `name` among `keys`, if given.
pub open spec fn key_index(keys: Seq<Seq<char>>, name: Seq<char>) -> Option<int> {
    if exists|i: int| 0 <= i < keys.len() && keys[i] == name {
        Some(choose|i: int| 0 <= i < keys.len() && keys[i] == name)
    } else {
        None
    }
}

/// The indices of the given `names` among `keys`, in the order of `names`,
/// for those that are given.
pub open spec fn keys_indices(keys: Seq<Seq<char>>, names: Seq<Seq<char>>) -> Seq<int>
    decreases names.len(),
{
    if names.len() == 0 {
        Seq::empty()
    } else {
        let head = match key_index(keys, names[0]) {
            Some(i) => seq![i],
            None => Seq::empty(),
        };
        head + keys_indices(keys, names.drop_first())
    }
}

pub open spec fn geometry_keywords() -> Seq<Seq<char>> {
    seq!["atmosphere"@, "magnet"@, "materials"@]
}

pub open spec fn physics_keywords() -> Seq<Seq<char>> {
    seq!["bremsstrahlung"@, "pair_production"@, "photonuclear"@]
}

/// The keywords that configure the fluxmeter itself.
pub open spec fn special_keywords() -> Seq<Seq<char>> {
    geometry_keywords() + seq!["geometry"@] + physics_keywords() + seq!["physics"@, "random"@]
}

/// The indices of the keys that are not special, in order.
pub open spec fn attribute_indices(keys: Seq<Seq<char>>, n: int) -> Seq<int>
    decreases n,
{
    if n <= 0 {
        Seq::empty()
    } else if special_keywords().contains(keys[n - 1]) {
        attribute_indices(keys, n - 1)
    } else {
        attribute_indices(keys, n - 1).push(n - 1)
    }
}

/// The views of indices.
pub open spec fn indices_view(v: Seq<usize>) -> Seq<int> {
    v.map_values(|i: usize| i as int)
}

pub open spec fn opt_index(o: Option<usize>) -> Option<int> {
    match o {
        Some(i) => Some(i as int),
        None => None,
    }
}

/// The index of `name` among `keys`, if given.
fn find_key(keys: &Vec<String>, name: &str) -> (res: Option<usize>)
    requires
        forall|i: int, j: int| 0 <= i < j < keys@.len() ==> keys@[i]@ != keys@[j]@,
    ensures
        opt_index(res) == key_index(keys@.map_values(|k: String| k@), name@),
        res is Some ==> res.unwrap() < keys@.len(),
{
    let ghost kv = keys@.map_values(|k: String| k@);
    let mut i: usize = 0;
    while i < keys.len()
        invariant
            kv == keys@.map_values(|k: String| k@),
            forall|a: int, b: int| 0 <= a < b < keys@.len() ==> keys@[a]@ != keys@[b]@,
            i <= keys@.len(),
            forall|j: int| 0 <= j < i ==> kv[j] != name@,
        decreases keys@.len() - i,
    {
        if str_eq(keys[i].as_str(), name) {
            proof {
                assert(kv[i as int] == name@);
                let c = choose|j: int| 0 <= j < kv.len() && kv[j] == name@;
                assert(kv[c] == keys@[c]@);
                if c < i {
                    assert(keys@[c]@ != keys@[i as int]@);
                } else if c > i {
                    assert(keys@[i as int]@ != keys@[c]@);
                }
            }
            return Some(i);
        }
        i = i + 1;
    }
    None
}

/// The indices of those of `names` that are given among `keys`.
fn find_keys(keys: &Vec<String>, names: &[&str]) -> (res: Vec<usize>)
    requires
        forall|i: int, j: int| 0 <= i < j < keys@.len() ==> keys@[i]@ != keys@[j]@,
    ensures
        indices_view(res@) == keys_indices(
            keys@.map_values(|k: String| k@),
            names@.map_values(|n: &str| n@),
        ),
{
    let ghost kv = keys@.map_values(|k: String| k@);
    let ghost nv = names@.map_values(|n: &str| n@);
    let mut res: Vec<usize> = Vec::new();
    let mut found: Vec<Option<usize>> = Vec::new();
    let mut k: usize = 0;
    while k < names.len()
        invariant
            kv == keys@.map_values(|k: String| k@),
            nv == names@.map_values(|n: &str| n@),
            forall|i: int, j: int| 0 <= i < j < keys@.len() ==> keys@[i]@ != keys@[j]@,
            k <= names@.len(),
            found@.len() == k,
            forall|j: int| 0 <= j < k ==> opt_index(#[trigger] found@[j]) == key_index(kv, nv[j]),
        decreases names@.len() - k,
    {
        found.push(find_key(keys, names[k]));
        k = k + 1;
    }
    let mut j: usize = 0;
    assert(nv.skip(0) =~= nv);
    while j < names.len()
        invariant
            kv == keys@.map_values(|k: String| k@),
            nv == names@.map_values(|n: &str| n@),
            j <= names@.len(),
            found@.len() == names@.len(),
            forall|q: int| 0 <= q < names@.len() ==> opt_index(#[trigger] found@[q]) == key_index(kv, nv[q]),
            indices_view(res@) + keys_indices(kv, nv.skip(j as int)) == keys_indices(kv, nv),
        decreases names@.len() - j,
    {
        proof {
            assert(nv.skip(j as int).drop_first() =~= nv.skip(j + 1));
            assert(nv.skip(j as int)[0] == nv[j as int]);
        }
        match found[j] {
            Some(i) => {
                let ghost before = indices_view(res@);
                res.push(i);
                assert(indices_view(res@) =~= before + seq![i as int]);
            },
            None => {},
        }
        j = j + 1;
    }
    assert(nv.skip(names@.len() as int) =~= Seq::<Seq<char>>::empty());
    assert(indices_view(res@) =~= keys_indices(kv, nv));
    res
}


/// Whether `name` is one of `names`.
fn is_one_of(name: &str, names: &[&str]) -> (res: bool)
    ensures
        res == names@.map_values(|n: &str| n@).contains(name@),
{
    let ghost nv = names@.map_values(|n: &str| n@);
    let mut i: usize = 0;
    while i < names.len()
        invariant
            nv == names@.map_values(|n: &str| n@),
            i <= names@.len(),
            forall|j: int| 0 <= j < i ==> nv[j] != name@,
        decreases names@.len() - i,
    {
        if str_eq(names[i], name) {
            assert(nv[i as int] == name@);
            return true;
        }
        i = i + 1;
    }
    false
}

/// Sorts the keywords of a fluxmeter (`keys`, all distinct, as in a
/// mapping) given with `n_layers` layers; refuses a geometry given together
/// with layers or geometry keywords, and a physics given together with
/// physics keywords.
pub fn fluxmeter_arguments(n_layers: usize, keys: &Vec<String>) -> (res: Result<
    FluxmeterArguments,
    (ErrorKind, String),
>)
    requires
        forall|i: int, j: int| 0 <= i < j < keys@.len() ==> keys@[i]@ != keys@[j]@,
    ensures
        ({
            let kv = keys@.map_values(|k: String| k@);
            let gk = keys_indices(kv, geometry_keywords());
            let g = key_index(kv, "geometry"@);
            let pk = keys_indices(kv, physics_keywords());
            let p = key_index(kv, "physics"@);
            if g is Some && (n_layers > 0 || gk.len() > 0) {
                res matches Err((kind, msg)) && kind == ErrorKind::TypeError && msg@ == error_message(
                    Some("geometry argument(s)"@),
                    Some("geometry already provided as *layers and/or **kwargs"@),
                )
            } else if p is Some && pk.len() > 0 {
                res matches Err((kind, msg)) && kind == ErrorKind::TypeError && msg@ == error_message(
                    Some("physics argument(s)"@),
                    Some("physics already provided as **kwargs"@),
                )
            } else {
                res matches Ok(args) && {
                    &&& opt_index(args.geometry) == g
                    &&& indices_view(args.geometry_kwargs@) == gk
                    &&& opt_index(args.physics) == p
                    &&& indices_view(args.physics_kwargs@) == pk
                    &&& opt_index(args.random) == key_index(kv, "random"@)
                    &&& indices_view(args.attributes@) == attribute_indices(kv, kv.len() as int)
                }
            }
        }),
{
    let ghost kv = keys@.map_values(|k: String| k@);
    let geometry_names: &[&str] = &["atmosphere", "magnet", "materials"];
    assert(geometry_names@.map_values(|n: &str| n@) =~= geometry_keywords());
    let geometry_kwargs = find_keys(keys, geometry_names);
    let geometry = find_key(keys, "geometry");
    if geometry.is_some() && (n_layers > 0 || geometry_kwargs.len() > 0) {
        let err = Error::new(ErrorKind::TypeError)
            .what("geometry argument(s)")
            .why("geometry already provided as *layers and/or **kwargs");
        return Err((ErrorKind::TypeError, err.to_string()));
    }
    let physics_names: &[&str] = &["bremsstrahlung", "pair_production", "photonuclear"];
    assert(physics_names@.map_values(|n: &str| n@) =~= physics_keywords());
    let physics_kwargs = find_keys(keys, physics_names);
    let physics = find_key(keys, "physics");
    if physics.is_some() && physics_kwargs.len() > 0 {
        let err = Error::new(ErrorKind::TypeError)
            .what("physics argument(s)")
            .why("physics already provided as **kwargs");
        return Err((ErrorKind::TypeError, err.to_string()));
    }
    let random = find_key(keys, "random");
    let special: &[&str] = &[
        "atmosphere",
        "magnet",
        "materials",
        "geometry",
        "bremsstrahlung",
        "pair_production",
        "photonuclear",
        "physics",
        "random",
    ];
    assert(special@.map_values(|n: &str| n@) =~= special_keywords());
    let mut attributes: Vec<usize> = Vec::new();
    let mut i: usize = 0;
    while i < keys.len()
        invariant
            kv == keys@.map_values(|k: String| k@),
            special@.map_values(|n: &str| n@) == special_keywords(),
            i <= keys@.len(),
            indices_view(attributes@) == attribute_indices(kv, i as int),
        decreases keys@.len() - i,
    {
        if !is_one_of(keys[i].as_str(), special) {
            let ghost before = indices_view(attributes@);
            attributes.push(i);
            assert(indices_view(attributes@) =~= before.push(i as int));
        }
        i = i + 1;
    }
    Ok(
        FluxmeterArguments {
            geometry,
            geometry_kwargs,
            physics,
            physics_kwargs,
            random,
            attributes,
        },
    )
}

} // verus!
