use crate::materials::set::{
    Counts, replace_renames, stamp_after_add, stamp_after_remove, stamp_after_replace,
};
use crate::utils::error::{ErrorKind, refusal, refuse};
use vstd::prelude::*;
use vstd::string::*;

verus! {

// ===============================================================================================
//
// Physics tables of a set of materials.
//
// Physics tables are computed for the selection of names of a materials set,
// and remember its version stamp: they are computed anew once the set is
// stamped with another version, that is once its selection of names
// changed. Materials are then addressed by their index in the tables.
//
// ===============================================================================================

/// Whether physics tables computed for the version `stored` of a set (none
/// yet, if `None`) must be computed anew for its version `current`.
pub open spec fn outdated(stored: Option<usize>, current: usize) -> bool {
    match stored {
        Some(version) => version != current,
        None => true,
    }
}

/// Whether physics tables computed for the version `stored` of a set must
/// be computed anew (see `outdated`).
pub fn physics_outdated(stored: Option<usize>, current: usize) -> (res: bool)
    ensures
        res == outdated(stored, current),
{
    match stored {
        Some(version) => version != current,
        None => true,
    }
}

/// The error of a lookup of a material that the physics tables lack.
pub fn undefined_material(name: &str) -> (res: (ErrorKind, String))
    ensures
        res.0 == ErrorKind::ValueError,
        res.1@ == refusal(ErrorKind::ValueError, "material"@, "undefined material '"@ + name@ + "'"@).1,
{
    proof {
        reveal_strlit("undefined material '");
        reveal_strlit("'");
    }
    let mut why = String::from_str("undefined material '");
    why.append(name);
    why.append("'");
    refuse(ErrorKind::ValueError, "material", why.as_str())
}

/// Physics tables follow the names of their set: with a fresh stamp drawn
/// for each change, the tables computed before an addition, a removal or a
/// replacement must be computed anew exactly when the selection of names
/// changed.
pub proof fn law_physics_follow_names(
    counts: Counts,
    stamp: usize,
    current: Seq<char>,
    new: Seq<char>,
    fresh: usize,
)
    requires
        fresh != stamp,
    ensures
        outdated(Some(stamp), stamp_after_add(counts, stamp, new, fresh)) == !counts.contains_key(
            new,
        ),
        outdated(Some(stamp), stamp_after_remove(counts, stamp, current, fresh)) == (
        counts.contains_key(current) && counts[current] <= 1),
        outdated(Some(stamp), stamp_after_replace(counts, stamp, current, new, fresh))
            == replace_renames(counts, current, new),
{
}

/// What the compilation of materials gives back.
#[derive(Clone, Copy, Debug, PartialEq, Eq, Structural)]
pub enum Compiled {
    /// Nothing, for no material.
    Nothing,
    /// The compiled material, for one.
    One,
    /// A tuple of compiled materials, for several.
    Several,
}

/// What the compilation of `n` materials gives back.
pub fn compiled(n: usize) -> (res: Compiled)
    ensures
        n == 0 ==> res == Compiled::Nothing,
        n == 1 ==> res == Compiled::One,
        n > 1 ==> res == Compiled::Several,
{
    if n == 0 {
        Compiled::Nothing
    } else if n == 1 {
        Compiled::One
    } else {
        Compiled::Several
    }
}

} // verus!
