use crate::utils::error::{Error, ErrorKind, error_message, is_refusal, refusal, refuse};
use crate::utils::strings::{decimal, push_decimal, str_eq};
use vstd::prelude::*;
use vstd::string::*;

verus! {

// ===============================================================================================
//
// Fields of the generic attributes extractor.
//
// ===============================================================================================

/// A named field of a structured argument, and the kind of values it holds.
pub struct Field<'a> {
    pub name: &'a str,
    pub kind: FieldKind,
}

#[derive(Clone, Copy, Debug, PartialEq, Eq, Structural)]
pub enum FieldKind {
    Float,
    Int,
    MaybeFloat,
    MaybeInt,
}

impl<'a> Field<'a> {
    pub fn float(name: &'a str) -> (res: Self)
        ensures
            res.name == name,
            res.kind == FieldKind::Float,
    {
        Field { name, kind: FieldKind::Float }
    }

    pub fn integer(name: &'a str) -> (res: Self)
        ensures
            res.name == name,
            res.kind == FieldKind::Int,
    {
        Field { name, kind: FieldKind::Int }
    }

    pub fn maybe_float(name: &'a str) -> (res: Self)
        ensures
            res.name == name,
            res.kind == FieldKind::MaybeFloat,
    {
        Field { name, kind: FieldKind::MaybeFloat }
    }

    pub fn maybe_int(name: &'a str) -> (res: Self)
        ensures
            res.name == name,
            res.kind == FieldKind::MaybeInt,
    {
        Field { name, kind: FieldKind::MaybeInt }
    }
}

/// The names of the fields.
pub open spec fn field_names(fields: Seq<Field>) -> Seq<Seq<char>> {
    fields.map_values(|f: Field| f.name@)
}

/// Where the values of a structured argument are read from.
#[derive(Clone, Copy, Debug, PartialEq, Eq, Structural)]
pub enum ArgumentSource {
    /// A positional argument (an array or a mapping).
    Positional,
    /// Keyword arguments.
    Keywords,
}

/// The first keyword that names no field, if any.
pub open spec fn first_invalid_keyword(fields: Seq<Field>, keys: Seq<Seq<char>>) -> Option<int> {
    if exists|i: int| 0 <= i < keys.len() && !field_names(fields).contains(#[trigger] keys[i]) {
        Some(choose|i: int| {
            &&& 0 <= i < keys.len()
            &&& !field_names(fields).contains(keys[i])
            &&& forall|j: int| 0 <= j < i ==> field_names(fields).contains(#[trigger] keys[j])
        })
    } else {
        None
    }
}

/// Whether one of `fields` is named `key`.
fn is_field(fields: &[Field], key: &str) -> (res: bool)
    ensures
        res == field_names(fields@).contains(key@),
{
    let mut i: usize = 0;
    while i < fields.len()
        invariant
            i <= fields@.len(),
            forall|j: int| 0 <= j < i ==> fields@[j].name@ != key@,
        decreases fields@.len() - i,
    {
        if str_eq(fields[i].name, key) {
            assert(field_names(fields@)[i as int] == key@);
            return true;
        }
        i = i + 1;
    }
    proof {
        if field_names(fields@).contains(key@) {
            let k = choose|k: int| 0 <= k < field_names(fields@).len() && field_names(fields@)[k] == key@;
            assert(fields@[k].name@ == key@);
        }
    }
    false
}

/// Decides where a structured argument is read from: a positional argument
/// (`has_positional`) or keyword arguments (`keywords`, their names), which
/// cannot be mixed, must name fields only, and cannot both be absent.
pub fn argument_source(
    fields: &[Field],
    has_positional: bool,
    keywords: Option<&Vec<String>>,
) -> (res: Result<ArgumentSource, (ErrorKind, String)>)
    requires
        fields@.len() > 0,
    ensures
        has_positional && keywords is Some ==> (res matches Err((kind, msg))
            && kind == ErrorKind::TypeError
            && msg@ == error_message(
                Some("arguments"@),
                Some("cannot mix positional and keyword only arguments"@),
            )),
        has_positional && keywords is None ==> res == Ok::<ArgumentSource, (ErrorKind, String)>(ArgumentSource::Positional),
        !has_positional && keywords is None ==> (res matches Err((kind, msg))
            && kind == ErrorKind::TypeError
            && msg@ == "missing '"@ + fields@[0].name@ + "'"@),
        !has_positional && keywords is Some ==> {
            let keys = keywords.unwrap()@.map_values(|k: String| k@);
            match first_invalid_keyword(fields@, keys) {
                None => res == Ok::<ArgumentSource, (ErrorKind, String)>(ArgumentSource::Keywords),
                Some(i) => res matches Err((kind, msg))
                    && kind == ErrorKind::TypeError
                    && msg@ == error_message(
                        Some("kwargs"@),
                        Some("invalid keyword argument '"@ + keys[i] + "'"@),
                    ),
            }
        },
{
    proof {
        reveal_strlit("'");
        reveal_strlit("missing '");
        reveal_strlit("invalid keyword argument '");
    }
    if has_positional {
        match keywords {
            Some(_) => {
                let err = Error::new(ErrorKind::TypeError)
                    .what("arguments")
                    .why("cannot mix positional and keyword only arguments");
                Err((ErrorKind::TypeError, err.to_string()))
            },
            None => Ok(ArgumentSource::Positional),
        }
    } else {
        match keywords {
            Some(keys) => {
                let ghost views = keys@.map_values(|k: String| k@);
                let mut i: usize = 0;
                while i < keys.len()
                    invariant
                        !has_positional,
                        keywords == Some(keys),
                        i <= keys@.len(),
                        views == keys@.map_values(|k: String| k@),
                        forall|j: int| 0 <= j < i ==> field_names(fields@).contains(#[trigger] views[j]),
                    decreases keys@.len() - i,
                {
                    if !is_field(fields, keys[i].as_str()) {
                        let mut why = String::from_str("invalid keyword argument '");
                        why.append(keys[i].as_str());
                        why.append("'");
                        let err = Error::new(ErrorKind::TypeError).what("kwargs").why(why.as_str());
                        proof {
                            assert(!field_names(fields@).contains(views[i as int]));
                            let w = first_invalid_keyword(fields@, views);
                            assert(w is Some);
                            let k = w.unwrap();
                            if k < i {
                                assert(field_names(fields@).contains(views[k]));
                            }
                            if k > i {
                                assert(field_names(fields@).contains(views[i as int]));
                            }
                            assert(k == i);
                        }
                        return Err((ErrorKind::TypeError, err.to_string()));
                    }
                    i = i + 1;
                }
                Ok(ArgumentSource::Keywords)
            },
            None => {
                let mut why = String::from_str("missing '");
                why.append(fields[0].name);
                why.append("'");
                let err = Error::new(ErrorKind::TypeError).why(why.as_str());
                Err((ErrorKind::TypeError, err.to_string()))
            },
        }
    }
}


// ===============================================================================================
//
// Managed array size.
//
// ===============================================================================================

/// The size of a field's values: a scalar, or an array with its number of
/// items and its shape.
pub enum Size {
    Scalar,
    Array { size: usize, shape: Vec<usize> },
}

/// A size as a value: `None` for a scalar, else the number of items and the
/// shape.
pub type SizeView = Option<(usize, Seq<usize>)>;

impl View for Size {
    type V = SizeView;

    open spec fn view(&self) -> SizeView {
        match self {
            Size::Scalar => None,
            Size::Array { size, shape } => Some((*size, shape@)),
        }
    }
}

/// The size that two fields have in common: a scalar fits any size, and two
/// arrays fit if they hold as many items (their shapes are not compared; the
/// first one is kept).
pub open spec fn common_size(a: SizeView, b: SizeView) -> Option<SizeView> {
    match a {
        None => Some(b),
        Some((n, _)) => match b {
            None => Some(a),
            Some((m, _)) => if n == m {
                Some(a)
            } else {
                None
            },
        },
    }
}

/// The size common to all `sizes`, folded from the first one.
pub open spec fn common_sizes(sizes: Seq<SizeView>) -> Option<SizeView>
    recommends
        sizes.len() > 0,
    decreases sizes.len(),
{
    if sizes.len() <= 1 {
        Some(sizes[0])
    } else {
        match common_sizes(sizes.drop_last()) {
            None => None,
            Some(size) => common_size(size, sizes.last()),
        }
    }
}

impl Size {
    /// The size of an array of `ndim` dimensions holding `size` items with
    /// the given `shape`; a 0-dimensional array is a scalar.
    pub fn of_array(ndim: usize, size: usize, shape: Vec<usize>) -> (res: Self)
        ensures
            ndim == 0 ==> res@ is None,
            ndim != 0 ==> res@ == Some((size, shape@)),
    {
        if ndim == 0 {
            Size::Scalar
        } else {
            Size::Array { size, shape }
        }
    }

    /// A copy of this size.
    pub fn duplicate(&self) -> (res: Self)
        ensures
            res@ == self@,
    {
        match self {
            Size::Scalar => Size::Scalar,
            Size::Array { size, shape } => {
                let mut copy: Vec<usize> = Vec::new();
                let mut i: usize = 0;
                while i < shape.len()
                    invariant
                        i <= shape@.len(),
                        copy@ == shape@.take(i as int),
                    decreases shape@.len() - i,
                {
                    copy.push(shape[i]);
                    assert(shape@.take(i + 1) =~= shape@.take(i as int).push(shape@[i as int]));
                    i = i + 1;
                }
                assert(shape@.take(shape@.len() as int) =~= shape@);
                Size::Array { size: *size, shape: copy }
            },
        }
    }

    /// The size that this one and `other` have in common, if they fit.
    pub fn common<'a>(&'a self, other: &'a Self) -> (res: Option<&'a Self>)
        ensures
            match common_size(self@, other@) {
                None => res is None,
                Some(c) => res is Some && res.unwrap()@ == c,
            },
    {
        match self {
            Size::Scalar => Some(other),
            Size::Array { size, .. } => match other {
                Size::Scalar => Some(self),
                Size::Array { size: other_size, .. } => if *size == *other_size {
                    Some(self)
                } else {
                    None
                },
            },
        }
    }

    /// The number of items (1 for a scalar).
    pub fn size(&self) -> (res: usize)
        ensures
            res == match self@ {
                None => 1,
                Some((n, _)) => n,
            },
    {
        match self {
            Size::Scalar => 1,
            Size::Array { size, .. } => *size,
        }
    }

    /// The shape (empty for a scalar).
    pub fn shape(&self) -> (res: Vec<usize>)
        ensures
            res@ == match self@ {
                None => Seq::<usize>::empty(),
                Some((_, shape)) => shape,
            },
    {
        match self.duplicate() {
            Size::Scalar => Vec::new(),
            Size::Array { shape, .. } => shape,
        }
    }
}

/// The size common to the fields of a structured argument, or a
/// `TypeError` when two arrays differ in their number of items.
pub fn common_size_of(sizes: &Vec<Size>) -> (res: Result<Size, (ErrorKind, String)>)
    requires
        sizes@.len() > 0,
    ensures
        match common_sizes(sizes@.map_values(|s: Size| s@)) {
            Some(c) => res matches Ok(size) && size@ == c,
            None => res matches Err((kind, msg)) && kind == ErrorKind::TypeError
                && msg@ == error_message(None, Some("inconsistent arrays sizes"@)),
        },
{
    let ghost views = sizes@.map_values(|s: Size| s@);
    let mut size = sizes[0].duplicate();
    assert(views.take(1).drop_last() =~= Seq::<SizeView>::empty());
    assert(common_sizes(views.take(1)) == Some(views[0]));
    let mut i: usize = 1;
    while i < sizes.len()
        invariant
            1 <= i <= sizes@.len(),
            views == sizes@.map_values(|s: Size| s@),
            common_sizes(views.take(i as int)) == Some(size@),
        decreases sizes@.len() - i,
    {
        assert(views.take(i + 1).drop_last() =~= views.take(i as int));
        match size.common(&sizes[i]) {
            Some(c) => {
                size = c.duplicate();
            },
            None => {
                proof {
                    lemma_common_sizes_none(views, (i + 1) as int);
                    assert(views.take(sizes@.len() as int) =~= views);
                }
                let err = Error::new(ErrorKind::TypeError).why("inconsistent arrays sizes");
                return Err((ErrorKind::TypeError, err.to_string()));
            },
        }
        i = i + 1;
    }
    assert(views.take(sizes@.len() as int) =~= views);
    Ok(size)
}

/// Once a prefix has no common size, no longer prefix has one.
pub proof fn lemma_common_sizes_none(views: Seq<SizeView>, k: int)
    requires
        1 <= k <= views.len(),
        common_sizes(views.take(k)) is None,
    ensures
        common_sizes(views) is None,
    decreases views.len() - k,
{
    if k < views.len() {
        assert(views.take(k + 1).drop_last() =~= views.take(k));
        lemma_common_sizes_none(views, k + 1);
    } else {
        assert(views.take(k) =~= views);
    }
}

// ===============================================================================================
//
// Positions of states.
//
// ===============================================================================================

/// The coordinates in which the positions of states are given.
#[derive(Clone, Copy, Debug, PartialEq, Eq, Structural)]
pub enum CoordinateSystem {
    /// Local coordinates, in the frame that the states carry.
    StatesFrame,
    /// Local coordinates, in the frame given beside the states.
    GivenFrame,
    /// Geographic coordinates (latitude, longitude and altitude).
    Geographic,
}

/// The coordinates of positions: the frame of the states (`states_frame`,
/// when states are given, `has_states`), else the frame given beside them,
/// else geographic coordinates.
pub open spec fn coordinate_system_spec(has_states: bool, states_frame: bool, given_frame: bool) -> CoordinateSystem {
    if has_states {
        if states_frame {
            CoordinateSystem::StatesFrame
        } else {
            CoordinateSystem::Geographic
        }
    } else if given_frame {
        CoordinateSystem::GivenFrame
    } else {
        CoordinateSystem::Geographic
    }
}

/// States that carry a frame are read in that frame, whether or not a frame
/// is given beside them; a frame given beside serves only states without
/// one; positions are geographic when no frame applies.
pub proof fn law_states_frame_first(has_states: bool, states_frame: bool, given_frame: bool)
    ensures
        coordinate_system_spec(true, true, given_frame) == CoordinateSystem::StatesFrame,
        coordinate_system_spec(has_states, states_frame, given_frame) == CoordinateSystem::GivenFrame
            <==> !has_states && given_frame,
        coordinate_system_spec(has_states, states_frame, given_frame) == CoordinateSystem::Geographic
            <==> ((has_states && !states_frame) || (!has_states && !given_frame)),
{
}

/// Decides the coordinates of positions (see `coordinate_system_spec`).
pub fn coordinate_system(has_states: bool, states_frame: bool, given_frame: bool) -> (res: CoordinateSystem)
    ensures
        res == coordinate_system_spec(has_states, states_frame, given_frame),
        has_states && states_frame ==> res == CoordinateSystem::StatesFrame,
        res == CoordinateSystem::GivenFrame <==> !has_states && given_frame,
        res == CoordinateSystem::Geographic <==> ((has_states && !states_frame) || (!has_states
            && !given_frame)),
{
    if has_states {
        if states_frame {
            CoordinateSystem::StatesFrame
        } else {
            CoordinateSystem::Geographic
        }
    } else if given_frame {
        CoordinateSystem::GivenFrame
    } else {
        CoordinateSystem::Geographic
    }
}

/// "expected size={expected}, found size={found}".
pub open spec fn size_why(expected: nat, found: nat) -> Seq<char> {
    "expected size="@ + decimal(expected) + ", found size="@ + decimal(found)
}

/// Checks that `found` positions were given, when `expected` are.
pub fn checked_positions(expected: Option<usize>, found: usize) -> (res: Result<(), (ErrorKind, String)>)
    ensures
        match expected {
            Some(n) if n != found => is_refusal(
                res,
                refusal(ErrorKind::TypeError, "position"@, size_why(n as nat, found as nat)),
            ),
            _ => res is Ok,
        },
{
    match expected {
        Some(n) => if n != found {
            proof {
                reveal_strlit("expected size=");
                reveal_strlit(", found size=");
            }
            let mut why = String::from_str("expected size=");
            push_decimal(&mut why, n as u64);
            why.append(", found size=");
            push_decimal(&mut why, found as u64);
            Err(refuse(ErrorKind::TypeError, "position", why.as_str()))
        } else {
            Ok(())
        },
        None => Ok(()),
    }
}

} // verus!
