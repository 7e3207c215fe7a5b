use crate::utils::error::{Error, ErrorKind, error_message};
use crate::utils::strings::{ends_with, starts_with, str_eq};
use vstd::prelude::*;
use vstd::string::*;

verus! {

// ===============================================================================================
//
// Materials of a simulation.
//
// The materials of a simulation are the default ones, or those of a TOML
// file, completed with the default "Air", "Rock" and "Water". They are
// cached under a key: "default", or the stem of the file name. The physics
// tables computed for them are cached beside, in files whose names start
// with that key and end with ".pumas".
//
// ===============================================================================================

/// The cache key of the default materials.
pub open spec fn default_key() -> Seq<char> {
    "default"@
}

/// Where the materials of a simulation come from.
#[derive(Debug, PartialEq, Eq)]
pub enum MaterialsSource {
    /// The default materials.
    Default,
    /// A TOML file, cached under the given key.
    File { cache_key: String },
}

/// The view of a materials source: `None` for the default materials, else
/// the cache key of the file.
pub open spec fn source_view(source: MaterialsSource) -> Option<Seq<char>> {
    match source {
        MaterialsSource::Default => None,
        MaterialsSource::File { cache_key } => Some(cache_key@),
    }
}

/// The error about materials, because of `why`.
pub open spec fn materials_error(why: Seq<char>) -> (ErrorKind, Seq<char>) {
    (ErrorKind::ValueError, error_message(Some("materials"@), Some(why)))
}

/// Where the materials given by `path` (if any) come from, given the
/// extension and the stem of the path's file name: the default materials
/// without a path, else a TOML file cached under its stem.
pub open spec fn materials_source_spec(
    path: Option<Seq<char>>,
    extension: Option<Seq<char>>,
    stem: Option<Seq<char>>,
) -> Result<Option<Seq<char>>, (ErrorKind, Seq<char>)> {
    match path {
        None => Ok(None),
        Some(path) => if extension == Some("toml"@) {
            match stem {
                Some(stem) => Ok(Some(stem)),
                None => Err(materials_error("invalid file name '"@ + path + "'"@)),
            }
        } else {
            Err(materials_error("invalid file format '"@ + path + "'"@))
        },
    }
}

/// The view of an optional string.
pub open spec fn opt_text(s: Option<&str>) -> Option<Seq<char>> {
    match s {
        Some(s) => Some(s@),
        None => None,
    }
}

/// The error about materials, because of `why`.
fn materials_error_exec(why: &str) -> (res: (ErrorKind, String))
    ensures
        res.0 == materials_error(why@).0,
        res.1@ == materials_error(why@).1,
{
    proof {
        reveal_strlit("materials");
    }
    let err = Error::new(ErrorKind::ValueError).what("materials").why(why);
    (ErrorKind::ValueError, err.to_string())
}

/// Decides where the materials given by `path` come from (see
/// `materials_source_spec`), given the extension and the stem of the path's
/// file name.
pub fn materials_source(path: Option<&str>, extension: Option<&str>, stem: Option<&str>) -> (res:
    Result<MaterialsSource, (ErrorKind, String)>)
    ensures
        match materials_source_spec(opt_text(path), opt_text(extension), opt_text(stem)) {
            Ok(source) => res matches Ok(s) && source_view(s) == source,
            Err((kind, msg)) => res matches Err((k, m)) && k == kind && m@ == msg,
        },
{
    proof {
        reveal_strlit("toml");
        reveal_strlit("invalid file name '");
        reveal_strlit("invalid file format '");
        reveal_strlit("'");
    }
    match path {
        None => Ok(MaterialsSource::Default),
        Some(path) => {
            let is_toml = match extension {
                Some(ext) => str_eq(ext, "toml"),
                None => false,
            };
            assert(is_toml == (opt_text(extension) == Some("toml"@)));
            if is_toml {
                match stem {
                    Some(stem) => Ok(MaterialsSource::File { cache_key: stem.to_owned() }),
                    None => {
                        let mut why = String::from_str("invalid file name '");
                        why.append(path);
                        why.append("'");
                        Err(materials_error_exec(why.as_str()))
                    },
                }
            } else {
                let mut why = String::from_str("invalid file format '");
                why.append(path);
                why.append("'");
                Err(materials_error_exec(why.as_str()))
            }
        },
    }
}

/// The cache key of the materials of a source.
pub fn cache_key(source: &MaterialsSource) -> (res: String)
    ensures
        res@ == match source_view(*source) {
            None => default_key(),
            Some(key) => key,
        },
{
    match source {
        MaterialsSource::Default => {
            proof {
                reveal_strlit("default");
            }
            String::from_str("default")
        },
        MaterialsSource::File { cache_key } => cache_key.clone(),
    }
}

/// The message of a lookup of an unknown material.
pub open spec fn unknown_material_text(name: Seq<char>) -> Seq<char> {
    error_message(Some("material"@), Some("unknown material '"@ + name + "'"@))
}

/// The error of a lookup of the unknown material `name`.
pub fn unknown_material(name: &str) -> (res: (ErrorKind, String))
    ensures
        res.0 == ErrorKind::KeyError,
        res.1@ == unknown_material_text(name@),
{
    proof {
        reveal_strlit("material");
        reveal_strlit("unknown material '");
        reveal_strlit("'");
    }
    let mut why = String::from_str("unknown material '");
    why.append(name);
    why.append("'");
    let err = Error::new(ErrorKind::KeyError).what("material").why(why.as_str());
    (ErrorKind::KeyError, err.to_string())
}

/// The materials that complete any set of materials.
pub open spec fn default_materials() -> Seq<Seq<char>> {
    seq!["Air"@, "Rock"@, "Water"@]
}

/// The default materials that are missing from `present`, in order.
pub open spec fn missing_defaults_spec(present: Seq<Seq<char>>) -> Seq<Seq<char>> {
    default_materials().filter(|name: Seq<char>| !present.contains(name))
}

/// Whether `name` is one of `present`.
fn contains_name(present: &Vec<String>, name: &str) -> (res: bool)
    ensures
        res == present@.map_values(|s: String| s@).contains(name@),
{
    let ghost pv = present@.map_values(|s: String| s@);
    let mut i: usize = 0;
    while i < present.len()
        invariant
            pv == present@.map_values(|s: String| s@),
            i <= present@.len(),
            forall|j: int| 0 <= j < i ==> pv[j] != name@,
        decreases present@.len() - i,
    {
        if str_eq(present[i].as_str(), name) {
            assert(pv[i as int] == name@);
            return true;
        }
        i = i + 1;
    }
    false
}

/// The default materials that a set of materials, of names `present`, lacks
/// (see `missing_defaults_spec`).
pub fn missing_defaults(present: &Vec<String>) -> (res: Vec<String>)
    ensures
        res@.map_values(|s: String| s@) == missing_defaults_spec(present@.map_values(|s: String| s@)),
{
    let ghost pv = present@.map_values(|s: String| s@);
    proof {
        reveal_strlit("Air");
        reveal_strlit("Rock");
        reveal_strlit("Water");
    }
    let defaults = ["Air", "Rock", "Water"];
    let mut res: Vec<String> = Vec::new();
    let mut i: usize = 0;
    assert(defaults@.map_values(|s: &str| s@) =~= default_materials());
    while i < 3
        invariant
            pv == present@.map_values(|s: String| s@),
            defaults@.map_values(|s: &str| s@) == default_materials(),
            i <= 3,
            res@.map_values(|s: String| s@) == default_materials().take(i as int).filter(
                |name: Seq<char>| !pv.contains(name),
            ),
        decreases 3 - i,
    {
        let name = defaults[i];
        assert(name@ == default_materials()[i as int]);
        let ghost before = res@;
        let missing = !contains_name(present, name);
        if missing {
            res.push(name.to_owned());
            assert(res@.map_values(|s: String| s@) =~= before.map_values(|s: String| s@).push(name@));
        } else {
            assert(res@ == before);
        }
        proof {
            let f = |name: Seq<char>| !pv.contains(name);
            let t = default_materials().take(i as int);
            assert(default_materials().take(i + 1) =~= t.push(default_materials()[i as int]));
            t.lemma_filter_push(default_materials()[i as int], f);
        }
        i = i + 1;
    }
    assert(default_materials().take(3) =~= default_materials());
    res
}

/// Completing a set of materials with the missing defaults gives it all the
/// default materials.
pub proof fn law_defaults_complete(present: Seq<Seq<char>>, name: Seq<char>)
    requires
        default_materials().contains(name),
    ensures
        present.contains(name) || missing_defaults_spec(present).contains(name),
{
    let f = |x: Seq<char>| !present.contains(x);
    if !present.contains(name) {
        let i = choose|i: int| 0 <= i < default_materials().len() && default_materials()[i] == name;
        default_materials().lemma_filter_contains(f, i);
    }
}

/// Completing a set of materials with the missing defaults adds none that
/// it has: its own definitions are kept.
pub proof fn law_defaults_keep_present(present: Seq<Seq<char>>, name: Seq<char>)
    requires
        missing_defaults_spec(present).contains(name),
    ensures
        !present.contains(name),
        default_materials().contains(name),
{
    let f = |x: Seq<char>| !present.contains(x);
    let i = choose|i: int|
        0 <= i < missing_defaults_spec(present).len() && missing_defaults_spec(present)[i] == name;
    default_materials().lemma_filter_pred(f, i);
    default_materials().lemma_filter_contains_rev(f, name);
}

/// Whether the cache file `filename` holds physics tables of the materials
/// cached under `cache_key`.
pub open spec fn is_table_of(filename: Seq<char>, cache_key: Seq<char>) -> bool {
    cache_key.is_prefix_of(filename) && ".pumas"@.is_suffix_of(filename)
}

/// Whether the cache file `filename` holds physics tables of the materials
/// cached under `cache_key` (which are stale once the materials change).
pub fn is_table_file(filename: &str, cache_key: &str) -> (res: bool)
    ensures
        res == is_table_of(filename@, cache_key@),
{
    starts_with(filename, cache_key) && ends_with(filename, ".pumas")
}

} // verus!
