use crate::utils::error::{Error, ErrorKind, error_message};
use crate::utils::strings::str_eq;
use vstd::prelude::*;
use vstd::string::*;

verus! {

// ===============================================================================================
//
// Properties of a definition (of an element, a mixture or a composite).
//
// A definition is a mapping from property names to values. Its entries are
// read in order: a key that is not a string, a key that names no property, or
// a value of the wrong type stops the reading with an error. Then every
// required property must have been given. The values themselves are
// extracted by the caller, who tells for each entry whether that worked.
//
// ===============================================================================================

/// A property that a definition may hold.
pub struct Property<'a> {
    pub name: &'a str,
    pub required: bool,
    /// Why a value of the wrong type is refused (`None` when any value is
    /// accepted at this stage).
    pub invalid_value: Option<&'a str>,
}

/// An entry of a definition: its key (`None` when it is not a string), and
/// whether its value could be extracted.
pub struct Entry {
    pub key: Option<String>,
    pub value_ok: bool,
}

pub type PropertyView = (Seq<char>, bool, Option<Seq<char>>);

pub type EntryView = (Option<Seq<char>>, bool);

pub type ReadError = (ErrorKind, Seq<char>);

pub open spec fn property_view(p: Property) -> PropertyView {
    (
        p.name@,
        p.required,
        match p.invalid_value {
            Some(w) => Some(w@),
            None => None,
        },
    )
}

pub open spec fn entry_view(e: Entry) -> EntryView {
    (
        match e.key {
            Some(k) => Some(k@),
            None => None,
        },
        e.value_ok,
    )
}

/// The first property named `key` from position `i` on, if any.
pub open spec fn property_index_from(schema: Seq<PropertyView>, key: Seq<char>, i: int) -> Option<int>
    decreases schema.len() - i,
{
    if i < 0 || i >= schema.len() {
        None
    } else if schema[i].0 == key {
        Some(i)
    } else {
        property_index_from(schema, key, i + 1)
    }
}

/// The first property named `key`, if any.
pub open spec fn property_index(schema: Seq<PropertyView>, key: Seq<char>) -> Option<int> {
    property_index_from(schema, key, 0)
}

/// A property found from position `i` on is at or after `i`.
pub proof fn lemma_property_index_from_bounds(schema: Seq<PropertyView>, key: Seq<char>, i: int)
    requires
        0 <= i,
    ensures
        property_index_from(schema, key, i) matches Some(p) ==> i <= p < schema.len()
            && schema[p].0 == key,
    decreases schema.len() - i,
{
    if i < schema.len() && schema[i].0 != key {
        lemma_property_index_from_bounds(schema, key, i + 1);
    }
}

/// The property that an entry sets, or why it is refused.
pub open spec fn check_entry(what: Seq<char>, schema: Seq<PropertyView>, entry: EntryView) -> Result<int, ReadError> {
    match entry.0 {
        None => Err((ErrorKind::TypeError, error_message(Some(what), Some("key is not a string"@)))),
        Some(key) => match property_index(schema, key) {
            None => Err(
                (
                    ErrorKind::KeyError,
                    error_message(Some(what), Some("invalid property '"@ + key + "'"@)),
                ),
            ),
            Some(p) => if entry.1 {
                Ok(p)
            } else {
                Err(
                    (
                        ErrorKind::ValueError,
                        error_message(Some(what), Some(schema[p].2.unwrap_or(Seq::empty()))),
                    ),
                )
            },
        },
    }
}

/// The entry (index) setting each property after reading the `n` first
/// entries, or the first error.
#[verifier::opaque]
pub open spec fn read_entries(
    what: Seq<char>,
    schema: Seq<PropertyView>,
    entries: Seq<EntryView>,
    n: int,
) -> Result<Seq<Option<int>>, ReadError>
    decreases n,
{
    if n <= 0 {
        Ok(Seq::new(schema.len(), |p: int| None::<int>))
    } else {
        match read_entries(what, schema, entries, n - 1) {
            Err(e) => Err(e),
            Ok(slots) => match check_entry(what, schema, entries[n - 1]) {
                Err(e) => Err(e),
                Ok(p) => Ok(slots.update(p, Some(n - 1))),
            },
        }
    }
}

/// The first required property that no entry sets, if any.
pub open spec fn first_missing(schema: Seq<PropertyView>, slots: Seq<Option<int>>) -> Option<int> {
    if exists|p: int| 0 <= p < schema.len() && schema[p].1 && (#[trigger] slots[p]) is None {
        Some(choose|p: int| {
            &&& 0 <= p < schema.len()
            &&& schema[p].1
            &&& slots[p] is None
            &&& forall|q: int| 0 <= q < p ==> !(schema[q].1 && (#[trigger] slots[q]) is None)
        })
    } else {
        None
    }
}

/// The result of reading a definition: the entry setting each property,
/// or the first error.
pub open spec fn read_definition(
    what: Seq<char>,
    schema: Seq<PropertyView>,
    entries: Seq<EntryView>,
) -> Result<Seq<Option<int>>, ReadError> {
    match read_entries(what, schema, entries, entries.len() as int) {
        Err(e) => Err(e),
        Ok(slots) => match first_missing(schema, slots) {
            Some(p) => Err(
                (
                    ErrorKind::KeyError,
                    error_message(Some(what), Some("missing '"@ + schema[p].0 + "'"@)),
                ),
            ),
            None => Ok(slots),
        },
    }
}

/// The first property named `key`.
fn find_property(schema: &[Property], key: &str) -> (res: Option<usize>)
    ensures
        res is Some ==> res.unwrap() < schema@.len(),
        match property_index(schema@.map_values(|p: Property| property_view(p)), key@) {
            None => res is None,
            Some(p) => res == Some(p as usize),
        },
{
    let ghost sv = schema@.map_values(|p: Property| property_view(p));
    let mut i: usize = 0;
    while i < schema.len()
        invariant
            sv == schema@.map_values(|p: Property| property_view(p)),
            i <= schema@.len(),
            property_index_from(sv, key@, 0) == property_index_from(sv, key@, i as int),
        decreases schema@.len() - i,
    {
        if str_eq(schema[i].name, key) {
            assert(sv[i as int].0 == key@);
            return Some(i);
        }
        assert(sv[i as int].0 != key@);
        i = i + 1;
    }
    None
}

/// The slots found so far agree with the spec's reading.
pub open spec fn slots_match(slots: Seq<Option<usize>>, read: Seq<Option<int>>) -> bool {
    &&& slots.len() == read.len()
    &&& forall|q: int| 0 <= q < slots.len() ==> match #[trigger] read[q] {
        None => slots[q] is None,
        Some(i) => slots[q] == Some(i as usize),
    }
}

/// The property that `entry` sets, or why it is refused (see `check_entry`).
fn check_entry_exec(what: &str, schema: &[Property], entry: &Entry) -> (res: Result<usize, (ErrorKind, String)>)
    ensures
        res is Ok ==> res->Ok_0 < schema@.len(),
        res is Ok ==> check_entry(what@, schema@.map_values(|p: Property| property_view(p)), entry_view(*entry))
            == Ok::<int, ReadError>(res->Ok_0 as int),
        match check_entry(what@, schema@.map_values(|p: Property| property_view(p)), entry_view(*entry)) {
            Ok(p) => res == Ok::<usize, (ErrorKind, String)>(p as usize),
            Err((kind, msg)) => res is Err && res->Err_0.0 == kind && res->Err_0.1@ == msg,
        },
{
    proof {
        reveal_strlit("key is not a string");
        reveal_strlit("invalid property '");
        reveal_strlit("'");
        reveal_strlit("");
    }
    match &entry.key {
        None => {
            let err = Error::new(ErrorKind::TypeError).what(what).why("key is not a string");
            let msg = err.to_string();
            assert(msg@ == error_message(Some(what@), Some("key is not a string"@)));
            assert(entry_view(*entry).0 is None);
            assert(check_entry(what@, schema@.map_values(|p: Property| property_view(p)), entry_view(*entry)) == Err::<int, ReadError>((ErrorKind::TypeError, msg@)));
            Err((ErrorKind::TypeError, msg))
        },
        Some(key) => match find_property(schema, key.as_str()) {
            None => {
                let mut why = String::from_str("invalid property '");
                why.append(key.as_str());
                why.append("'");
                let err = Error::new(ErrorKind::KeyError).what(what).why(why.as_str());
                assert(why@ == "invalid property '"@ + key@ + "'"@);
                let msg = err.to_string();
                assert(msg@ == error_message(Some(what@), Some("invalid property '"@ + key@ + "'"@)));
                assert(entry_view(*entry).0 == Some(key@));
                assert(check_entry(what@, schema@.map_values(|p: Property| property_view(p)), entry_view(*entry)) == Err::<int, ReadError>((ErrorKind::KeyError, msg@)));
                Err((ErrorKind::KeyError, msg))
            },
            Some(p) => {
                proof {
                    lemma_property_index_from_bounds(schema@.map_values(|p: Property| property_view(p)), key@, 0);
                }
                if entry.value_ok {
                    Ok(p)
                } else {
                    let why = match schema[p].invalid_value {
                        Some(w) => w,
                        None => "",
                    };
                    let ghost sv = schema@.map_values(|p: Property| property_view(p));
                    proof {
                        lemma_property_index_from_bounds(sv, key@, 0);
                    }
                    assert(sv[p as int] == property_view(schema@[p as int]));
                    assert(why@ == sv[p as int].2.unwrap_or(Seq::empty()));
                    let err = Error::new(ErrorKind::ValueError).what(what).why(why);
                    let msg = err.to_string();
                    assert(msg@ == error_message(Some(what@), Some(sv[p as int].2.unwrap_or(Seq::empty()))));
                    assert(entry_view(*entry).0 == Some(key@));
                    assert(check_entry(what@, sv, entry_view(*entry)) == Err::<int, ReadError>((ErrorKind::ValueError, msg@)));
                    Err((ErrorKind::ValueError, msg))
                }
            },
        },
    }
}

/// The first required property that no entry sets (see `first_missing`).
fn first_missing_exec(schema: &[Property], slots: &Vec<Option<usize>>, read: Ghost<Seq<Option<int>>>) -> (res: Option<usize>)
    requires
        slots@.len() == schema@.len(),
        read@.len() == slots@.len(),
        forall|q: int| 0 <= q < slots@.len() ==> (slots@[q] is None <==> (#[trigger] read@[q]) is None),
    ensures
        res is Some ==> res.unwrap() < schema@.len(),
        res is Some ==> first_missing(schema@.map_values(|p: Property| property_view(p)), read@)
            == Some(res.unwrap() as int),
        match first_missing(schema@.map_values(|p: Property| property_view(p)), read@) {
            None => res is None,
            Some(p) => res == Some(p as usize),
        },
{
    let ghost sv = schema@.map_values(|p: Property| property_view(p));
    let mut p: usize = 0;
    while p < schema.len()
        invariant
            sv == schema@.map_values(|p: Property| property_view(p)),
            p <= schema@.len(),
            slots@.len() == schema@.len(),
            read@.len() == slots@.len(),
            forall|q: int| 0 <= q < slots@.len() ==> (slots@[q] is None <==> (#[trigger] read@[q]) is None),
            forall|q: int| 0 <= q < p ==> !(sv[q].1 && (#[trigger] read@[q]) is None),
        decreases schema@.len() - p,
    {
        if schema[p].required && slots[p].is_none() {
            proof {
                let m = first_missing(sv, read@);
                assert(sv[p as int].1 && read@[p as int] is None);
                assert(m is Some);
                let k = m.unwrap();
                if k < p {
                    assert(!(sv[k].1 && read@[k] is None));
                }
                if k > p {
                    assert(!(sv[p as int].1 && read@[p as int] is None));
                }
            }
            return Some(p);
        }
        p = p + 1;
    }
    None
}

/// Reads the entries of a definition of `what` (such as "'Rock' material")
/// against `schema`: returns, for each property, the index of the entry that
/// sets it, or the first error (see `read_definition`).
pub fn read_properties(what: &str, schema: &[Property], entries: &[Entry]) -> (res: Result<
    Vec<Option<usize>>,
    (ErrorKind, String),
>)
    ensures
        match read_definition(
            what@,
            schema@.map_values(|p: Property| property_view(p)),
            entries@.map_values(|e: Entry| entry_view(e)),
        ) {
            Ok(slots) => res is Ok && slots_match(res->Ok_0@, slots),
            Err((kind, msg)) => res is Err && res->Err_0.0 == kind && res->Err_0.1@ == msg,
        },
{
    let ghost sv = schema@.map_values(|p: Property| property_view(p));
    let ghost ev = entries@.map_values(|e: Entry| entry_view(e));
    proof {
        reveal_strlit("'");
        reveal_strlit("missing '");
    }
    let mut slots: Vec<Option<usize>> = Vec::new();
    let mut p: usize = 0;
    while p < schema.len()
        invariant
            p <= schema@.len(),
            slots@.len() == p,
            forall|q: int| 0 <= q < p ==> (#[trigger] slots@[q]) is None,
        decreases schema@.len() - p,
    {
        slots.push(None);
        p = p + 1;
    }
    proof {
        lemma_read_entries_start(what@, sv, ev);
        assert(slots_match(slots@, read_entries(what@, sv, ev, 0)->Ok_0));
    }
    let mut e: usize = 0;
    while e < entries.len()
        invariant
            sv == schema@.map_values(|p: Property| property_view(p)),
            ev == entries@.map_values(|e: Entry| entry_view(e)),
            e <= entries@.len(),
            read_entries(what@, sv, ev, e as int) is Ok,
            slots@.len() == schema@.len(),
            slots_match(slots@, read_entries(what@, sv, ev, e as int)->Ok_0),
        decreases entries@.len() - e,
    {
        let ghost before = read_entries(what@, sv, ev, e as int)->Ok_0;
        match check_entry_exec(what, schema, &entries[e]) {
            Err(err) => {
                proof {
                    assert(ev[e as int] == entry_view(entries@[e as int]));
                    lemma_read_entries_step_err(what@, sv, ev, e as int);
                    lemma_read_entries_err_sticks(what@, sv, ev, e + 1);
                }
                return Err(err);
            },
            Ok(p) => {
                proof {
                    assert(ev[e as int] == entry_view(entries@[e as int]));
                    lemma_read_entries_step(what@, sv, ev, e as int);
                }
                slots.set(p, Some(e));
                proof {
                    assert(slots_match(slots@, before.update(p as int, Some(e as int))));
                }
            },
        }
        e = e + 1;
    }
    let ghost read = read_entries(what@, sv, ev, entries@.len() as int)->Ok_0;
    assert(forall|q: int| 0 <= q < slots@.len() ==> (slots@[q] is None <==> (#[trigger] read[q]) is None));
    match first_missing_exec(schema, &slots, Ghost(read)) {
        Some(p) => {
            let mut why = String::from_str("missing '");
            why.append(schema[p].name);
            why.append("'");
            let err = Error::new(ErrorKind::KeyError).what(what).why(why.as_str());
            Err((ErrorKind::KeyError, err.to_string()))
        },
        None => Ok(slots),
    }
}

/// One more entry read.
pub proof fn lemma_read_entries_step(
    what: Seq<char>,
    schema: Seq<PropertyView>,
    entries: Seq<EntryView>,
    e: int,
)
    requires
        0 <= e,
        read_entries(what, schema, entries, e) is Ok,
        check_entry(what, schema, entries[e]) is Ok,
    ensures
        read_entries(what, schema, entries, e + 1) == Ok::<Seq<Option<int>>, ReadError>(
            (read_entries(what, schema, entries, e)->Ok_0).update(
                check_entry(what, schema, entries[e])->Ok_0,
                Some(e),
            ),
        ),
{
    reveal(read_entries);
}

/// One more entry read, refused.
pub proof fn lemma_read_entries_step_err(
    what: Seq<char>,
    schema: Seq<PropertyView>,
    entries: Seq<EntryView>,
    e: int,
)
    requires
        0 <= e,
        read_entries(what, schema, entries, e) is Ok,
        check_entry(what, schema, entries[e]) is Err,
    ensures
        read_entries(what, schema, entries, e + 1) == Err::<Seq<Option<int>>, ReadError>(
            check_entry(what, schema, entries[e])->Err_0,
        ),
{
    reveal(read_entries);
}

/// Before any entry, no property is set.
pub proof fn lemma_read_entries_start(what: Seq<char>, schema: Seq<PropertyView>, entries: Seq<EntryView>)
    ensures
        read_entries(what, schema, entries, 0) == Ok::<Seq<Option<int>>, ReadError>(
            Seq::new(schema.len(), |p: int| None::<int>),
        ),
{
    reveal(read_entries);
}

/// What a definition is called in error messages, as in "'Rock' material".
pub open spec fn definition_what_text(name: Seq<char>, kind: Seq<char>) -> Seq<char> {
    "'"@ + name + "' "@ + kind
}

/// What a definition is called in error messages (see `definition_what_text`).
pub fn definition_what(name: &str, kind: &str) -> (res: String)
    ensures
        res@ == definition_what_text(name@, kind@),
{
    proof {
        reveal_strlit("'");
        reveal_strlit("' ");
    }
    let mut res = String::from_str("'");
    res.append(name);
    res.append("' ");
    res.append(kind);
    res
}

/// The properties of an atomic element: its atomic number `Z`, its molar
/// mass `A` and its mean excitation energy `I`, all required.
pub fn element_schema() -> (res: Vec<Property<'static>>)
    ensures
        res@.map_values(|p: Property| property_view(p)) == seq![
            ("Z"@, true, Some("'Z' is not an unsigned integer"@)),
            ("A"@, true, Some("'A' is not a float"@)),
            ("I"@, true, Some("'I' is not a float"@)),
        ],
{
    let res = vec![
        Property { name: "Z", required: true, invalid_value: Some("'Z' is not an unsigned integer") },
        Property { name: "A", required: true, invalid_value: Some("'A' is not a float") },
        Property { name: "I", required: true, invalid_value: Some("'I' is not a float") },
    ];
    assert(res@.map_values(|p: Property| property_view(p)) =~= seq![
        ("Z"@, true, Some("'Z' is not an unsigned integer"@)),
        ("A"@, true, Some("'A' is not a float"@)),
        ("I"@, true, Some("'I' is not a float"@)),
    ]);
    res
}

/// The properties of a mixture: its `density` and `composition` (required),
/// and its mean excitation energy `I` (optional).
pub fn mixture_schema() -> (res: Vec<Property<'static>>)
    ensures
        res@.map_values(|p: Property| property_view(p)) == seq![
            ("density"@, true, Some("'density' is not a float"@)),
            ("composition"@, true, None),
            ("I"@, false, Some("'I' is not a float"@)),
        ],
{
    let res = vec![
        Property { name: "density", required: true, invalid_value: Some("'density' is not a float") },
        Property { name: "composition", required: true, invalid_value: None },
        Property { name: "I", required: false, invalid_value: Some("'I' is not a float") },
    ];
    assert(res@.map_values(|p: Property| property_view(p)) =~= seq![
        ("density"@, true, Some("'density' is not a float"@)),
        ("composition"@, true, None),
        ("I"@, false, Some("'I' is not a float"@)),
    ]);
    res
}

/// The properties of a composite: its `composition` (required).
pub fn composite_schema() -> (res: Vec<Property<'static>>)
    ensures
        res@.map_values(|p: Property| property_view(p)) == seq![
            ("composition"@, true, None::<Seq<char>>),
        ],
{
    let res = vec![Property { name: "composition", required: true, invalid_value: None }];
    assert(res@.map_values(|p: Property| property_view(p)) =~= seq![
        ("composition"@, true, None::<Seq<char>>),
    ]);
    res
}

/// Once the reading fails, it keeps failing with the same error.
pub proof fn lemma_read_entries_err_sticks(
    what: Seq<char>,
    schema: Seq<PropertyView>,
    entries: Seq<EntryView>,
    n: int,
)
    requires
        0 <= n <= entries.len(),
        read_entries(what, schema, entries, n) is Err,
    ensures
        read_entries(what, schema, entries, entries.len() as int) == read_entries(
            what,
            schema,
            entries,
            n,
        ),
    decreases entries.len() - n,
{
    reveal(read_entries);
    if n < entries.len() {
        lemma_read_entries_err_sticks(what, schema, entries, n + 1);
    }
}

} // verus!
