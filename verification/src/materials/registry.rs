use crate::utils::error::{Error, ErrorKind, error_message};
use vstd::prelude::*;
use vstd::string::*;

verus! {

// ===============================================================================================
//
// Registration rules of the materials registry.
//
// A definition (of an element or of a material) registers under a name. A
// name that is free takes the definition; a name already taken by an equal
// definition keeps it (composites, whose content may be edited in place,
// take the new one); a name taken by a different definition refuses it.
//
// ===============================================================================================

/// Why a definition is refused: its name is taken by a different one.
pub open spec fn conflict_why(name: Seq<char>) -> Seq<char> {
    "'"@ + name + "' already exists with a different definition"@
}

/// Decides the registration of a definition of `what` ("element" or
/// "material") under `name`. `existing` tells whether the name is taken, and
/// then whether by an equal definition; `replace_equal` whether an equal
/// definition is replaced anyway. Returns whether to store the definition,
/// or the error.
pub fn registration(what: &str, name: &str, existing: Option<bool>, replace_equal: bool) -> (res: Result<
    bool,
    (ErrorKind, String),
>)
    ensures
        existing is None ==> res == Ok::<bool, (ErrorKind, String)>(true),
        existing == Some(true) ==> res == Ok::<bool, (ErrorKind, String)>(replace_equal),
        existing == Some(false) ==> (res matches Err((kind, msg)) && kind == ErrorKind::ValueError
            && msg@ == error_message(Some(what@), Some(conflict_why(name@)))),
{
    match existing {
        None => Ok(true),
        Some(true) => Ok(replace_equal),
        Some(false) => {
            proof {
                reveal_strlit("'");
                reveal_strlit("' already exists with a different definition");
            }
            let mut why = String::from_str("'");
            why.append(name);
            why.append("' already exists with a different definition");
            let err = Error::new(ErrorKind::ValueError).what(what).why(why.as_str());
            Err((ErrorKind::ValueError, err.to_string()))
        },
    }
}

/// The message of a lookup of an undefined `kind` (such as "element")
/// named `name`.
pub open spec fn undefined_text(kind: Seq<char>, name: Seq<char>) -> Seq<char> {
    "undefined "@ + kind + " '"@ + name + "'"@
}

/// The error of a lookup of an undefined `kind` named `name`, of the given
/// error kind (the registry raises a `ValueError`; formulae, a `KeyError`).
pub fn undefined(error: ErrorKind, kind: &str, name: &str) -> (res: (ErrorKind, String))
    ensures
        res.0 == error,
        res.1@ == undefined_text(kind@, name@),
{
    proof {
        reveal_strlit("undefined ");
        reveal_strlit(" '");
        reveal_strlit("'");
    }
    let mut why = String::from_str("undefined ");
    why.append(kind);
    why.append(" '");
    why.append(name);
    why.append("'");
    let err = Error::new(error).why(why.as_str());
    (error, err.to_string())
}

} // verus!
