use crate::materials::names::{
    is_stable_sorting, law_stable_sorting_unique, lemma_name_le_antisymmetric,
    lemma_sorting_covers, name_lt, names_view, sorting_order,
};
use crate::utils::strings::{
    decimal, join_lines, join_with, joined, law_decimal_delimited, lines_view, push_decimal,
};
use vstd::prelude::*;
use vstd::string::*;

verus! {

// ===============================================================================================
//
// TOML description of a set of materials, as cached.
//
// The document opens with a table of elements, if the set has its own
// elements, one line per element (in the order given), then a blank line.
// Then comes a table per material, in the order of their names, separated by
// blank lines: the density, the mean excitation energy if any, and the
// composition as an inline table. Numbers that are not integers come already
// written as text.
//
// ===============================================================================================

/// The line of an element.
pub open spec fn element_text(name: Seq<char>, z: nat, a: Seq<char>, i: Seq<char>) -> Seq<char> {
    "\""@ + name + "\" = { Z = "@ + decimal(z) + ", A = "@ + a + ", I = "@ + i + " }"@
}

/// The atomic number of an element line is read back from it: two lines of
/// the same element name that are equal carry the same atomic number (the Z
/// entry holds its full decimal text).
pub proof fn law_element_atomic_number(name: Seq<char>, z1: nat, a1: Seq<char>, i1: Seq<char>, z2: nat, a2: Seq<char>, i2: Seq<char>)
    requires
        element_text(name, z1, a1, i1) == element_text(name, z2, a2, i2),
    ensures
        z1 == z2,
{
    reveal_strlit(", A = ");
    let p = "\""@ + name + "\" = { Z = "@;
    let q1 = ", A = "@ + a1 + ", I = "@ + i1 + " }"@;
    let q2 = ", A = "@ + a2 + ", I = "@ + i2 + " }"@;
    assert(element_text(name, z1, a1, i1) =~= p + decimal(z1) + q1);
    assert(element_text(name, z2, a2, i2) =~= p + decimal(z2) + q2);
    assert(q1[0] == ',');
    assert(q2[0] == ',');
    law_decimal_delimited(p, z1, q1, z2, q2);
}

/// The line of an element of atomic number `z`, mass number `a` (in g/mol)
/// and mean excitation energy `i` (in GeV).
pub fn element_toml(name: &str, z: u32, a: &str, i: &str) -> (res: String)
    ensures
        res@ == element_text(name@, z as nat, a@, i@),
{
    proof {
        reveal_strlit("\"");
        reveal_strlit("\" = { Z = ");
        reveal_strlit(", A = ");
        reveal_strlit(", I = ");
        reveal_strlit(" }");
    }
    let mut res = String::from_str("\"");
    res.append(name);
    res.append("\" = { Z = ");
    push_decimal(&mut res, z as u64);
    res.append(", A = ");
    res.append(a);
    res.append(", I = ");
    res.append(i);
    res.append(" }");
    res
}

/// A component of a material: its name and its weight, as text.
pub struct TomlComponent {
    pub name: String,
    pub weight: String,
}

/// The views of the components of a material.
pub open spec fn components_view(c: Seq<TomlComponent>) -> Seq<(Seq<char>, Seq<char>)> {
    c.map_values(|x: TomlComponent| (x.name@, x.weight@))
}

/// The entry of a component in a composition.
pub open spec fn component_entry(c: (Seq<char>, Seq<char>)) -> Seq<char> {
    c.0 + " = "@ + c.1
}

/// The lines of the description of a material.
pub open spec fn material_lines(
    density: Seq<char>,
    mee: Option<Seq<char>>,
    components: Seq<(Seq<char>, Seq<char>)>,
) -> Seq<Seq<char>> {
    let composition = "composition = { "@ + joined(
        components.map_values(|c: (Seq<char>, Seq<char>)| component_entry(c)),
        ", "@,
    ) + " }"@;
    match mee {
        Some(mee) => seq!["density = "@ + density, "I = "@ + mee, composition],
        None => seq!["density = "@ + density, composition],
    }
}

/// The view of an optional string.
pub open spec fn opt_text(s: Option<&str>) -> Option<Seq<char>> {
    match s {
        Some(s) => Some(s@),
        None => None,
    }
}

/// The description of a material of density `density` (in kg/m3), mean
/// excitation energy `mee` (in GeV) if given, and mass composition
/// `components` (in the order given).
pub fn material_toml(density: &str, mee: Option<&str>, components: &Vec<TomlComponent>) -> (res: String)
    ensures
        res@ == join_lines(material_lines(density@, opt_text(mee), components_view(components@))),
{
    proof {
        reveal_strlit("density = ");
        reveal_strlit("I = ");
        reveal_strlit("composition = { ");
        reveal_strlit(" }");
        reveal_strlit(" = ");
    }
    let ghost c = components_view(components@);
    let ghost entries = c.map_values(|c: (Seq<char>, Seq<char>)| component_entry(c));
    let mut items: Vec<String> = Vec::new();
    let mut k: usize = 0;
    while k < components.len()
        invariant
            c == components_view(components@),
            entries == c.map_values(|c: (Seq<char>, Seq<char>)| component_entry(c)),
            k <= components@.len(),
            lines_view(items@) == entries.take(k as int),
        decreases components@.len() - k,
    {
        let mut entry = components[k].name.clone();
        entry.append(" = ");
        entry.append(components[k].weight.as_str());
        let ghost entry_view = entry@;
        let ghost before = lines_view(items@);
        items.push(entry);
        proof {
            assert(entries[k as int] == entry_view);
            assert(lines_view(items@) =~= before.push(entry_view));
            assert(entries.take(k + 1) =~= entries.take(k as int).push(entries[k as int]));
        }
        k = k + 1;
    }
    assert(entries.take(components@.len() as int) =~= entries);
    let mut composition = String::from_str("composition = { ");
    let inner = join_with(&items, ", ");
    composition.append(inner.as_str());
    composition.append(" }");
    let mut first = String::from_str("density = ");
    first.append(density);
    let mut lines: Vec<String> = Vec::new();
    lines.push(first);
    match mee {
        Some(mee) => {
            let mut line = String::from_str("I = ");
            line.append(mee);
            lines.push(line);
        },
        None => {},
    }
    lines.push(composition);
    proof {
        assert(lines_view(lines@) =~= material_lines(density@, opt_text(mee), c));
    }
    join_with(&lines, "\n")
}

/// A table of the document: the name of a material and its description.
pub struct TomlSection {
    pub name: String,
    pub body: String,
}

/// The views of the tables of the document.
pub open spec fn sections_view(s: Seq<TomlSection>) -> Seq<(Seq<char>, Seq<char>)> {
    s.map_values(|x: TomlSection| (x.name@, x.body@))
}

/// The header of the table of a material.
pub open spec fn section_header(name: Seq<char>) -> Seq<char> {
    "["@ + name + "]"@
}

/// The lines of tables, separated by blank lines.
pub open spec fn section_lines(s: Seq<(Seq<char>, Seq<char>)>) -> Seq<Seq<char>>
    decreases s.len(),
{
    if s.len() == 0 {
        Seq::empty()
    } else if s.len() == 1 {
        seq![section_header(s[0].0), s[0].1]
    } else {
        section_lines(s.drop_last()) + seq![Seq::empty(), section_header(s.last().0), s.last().1]
    }
}

/// The lines of the table of elements, if any.
pub open spec fn elements_lines(elements: Option<Seq<Seq<char>>>) -> Seq<Seq<char>> {
    match elements {
        Some(lines) => seq!["[elements]"@] + lines + seq![Seq::empty()],
        None => Seq::empty(),
    }
}

/// The tables taken in the given order.
pub open spec fn ordered(s: Seq<(Seq<char>, Seq<char>)>, order: Seq<usize>) -> Seq<(Seq<char>, Seq<char>)> {
    Seq::new(order.len(), |k: int| s[order[k] as int])
}

/// The names of tables.
pub open spec fn section_names(s: Seq<(Seq<char>, Seq<char>)>) -> Seq<Seq<char>> {
    s.map_values(|x: (Seq<char>, Seq<char>)| x.0)
}

/// Whether `text` is the document of the given element lines (if any) and
/// tables, these ordered by name.
pub open spec fn is_document(
    elements: Option<Seq<Seq<char>>>,
    sections: Seq<(Seq<char>, Seq<char>)>,
    text: Seq<char>,
) -> bool {
    exists|order: Seq<usize>|
        is_stable_sorting(section_names(sections), order) && text == join_lines(
            elements_lines(elements) + section_lines(ordered(sections, order)),
        )
}

/// The document of given element lines and tables is unique: the order of
/// the tables by name is.
pub proof fn law_document_unique(
    elements: Option<Seq<Seq<char>>>,
    sections: Seq<(Seq<char>, Seq<char>)>,
    t1: Seq<char>,
    t2: Seq<char>,
)
    requires
        is_document(elements, sections, t1),
        is_document(elements, sections, t2),
    ensures
        t1 == t2,
{
    let o1 = choose|order: Seq<usize>|
        is_stable_sorting(section_names(sections), order) && t1 == join_lines(
            elements_lines(elements) + section_lines(ordered(sections, order)),
        );
    let o2 = choose|order: Seq<usize>|
        is_stable_sorting(section_names(sections), order) && t2 == join_lines(
            elements_lines(elements) + section_lines(ordered(sections, order)),
        );
    law_stable_sorting_unique(section_names(sections), o1, o2);
}

/// Whether no two tables have the same name (as the keys of a map).
pub open spec fn distinct_names(s: Seq<(Seq<char>, Seq<char>)>) -> bool {
    forall|i: int, j: int| 0 <= i < s.len() && 0 <= j < s.len() && i != j ==> s[i].0 != s[j].0
}

/// Whether tables come strictly in the order of their names.
pub open spec fn strictly_by_name(s: Seq<(Seq<char>, Seq<char>)>) -> bool {
    forall|k: int, l: int| 0 <= k < l < s.len() ==> name_lt(s[k].0, s[l].0)
}

/// Tables with distinct names, taken in a stable order by name, come
/// strictly by name, and are the same tables.
proof fn lemma_ordered_tables(s: Seq<(Seq<char>, Seq<char>)>, order: Seq<usize>)
    requires
        is_stable_sorting(section_names(s), order),
        distinct_names(s),
    ensures
        strictly_by_name(ordered(s, order)),
        ordered(s, order).len() == s.len(),
        forall|x: (Seq<char>, Seq<char>)| ordered(s, order).contains(x) <==> s.contains(x),
{
    let a = ordered(s, order);
    assert forall|k: int, l: int| 0 <= k < l < a.len() implies name_lt(a[k].0, a[l].0) by {
        assert(section_names(s)[order[k] as int] == s[order[k] as int].0);
        assert(section_names(s)[order[l] as int] == s[order[l] as int].0);
        assert(order[k] != order[l]);
    }
    assert forall|x: (Seq<char>, Seq<char>)| a.contains(x) implies s.contains(x) by {
        let k = choose|k: int| 0 <= k < a.len() && a[k] == x;
        assert(s[order[k] as int] == x);
    }
    assert forall|x: (Seq<char>, Seq<char>)| s.contains(x) implies a.contains(x) by {
        let i = choose|i: int| 0 <= i < s.len() && s[i] == x;
        lemma_sorting_covers(section_names(s), order, i);
        let p = choose|p: int| 0 <= p < order.len() && order[p] == i;
        assert(a[p] == x);
    }
}

/// Two sequences of tables that come strictly by name and hold the same
/// tables agree at position `k` (by induction on `k`).
proof fn lemma_sorted_tables_same_at(a: Seq<(Seq<char>, Seq<char>)>, b: Seq<(Seq<char>, Seq<char>)>, k: int)
    requires
        strictly_by_name(a),
        strictly_by_name(b),
        a.len() == b.len(),
        forall|x: (Seq<char>, Seq<char>)| a.contains(x) <==> b.contains(x),
        0 <= k < a.len(),
    ensures
        a[k] == b[k],
    decreases k,
{
    assert forall|j: int| 0 <= j < k implies a[j] == b[j] by {
        lemma_sorted_tables_same_at(a, b, j);
    }
    if a[k] != b[k] {
        assert(a.contains(a[k]));
        let p = choose|p: int| 0 <= p < b.len() && b[p] == a[k];
        assert(b.contains(b[k]));
        let q = choose|q: int| 0 <= q < a.len() && a[q] == b[k];
        if p < k {
            assert(a[p] == b[p]);
            assert(name_lt(a[p].0, a[k].0));
        } else if q < k {
            assert(a[q] == b[q]);
            assert(name_lt(b[q].0, b[k].0));
        } else {
            assert(name_lt(b[k].0, b[p].0));
            assert(name_lt(a[k].0, a[q].0));
            lemma_name_le_antisymmetric(a[k].0, b[k].0);
        }
    }
}

/// The document does not depend on the order in which the tables are given
/// (the order of the entries of a map): two lists of the same tables, with
/// distinct names, give the same document.
pub proof fn law_document_order_free(
    elements: Option<Seq<Seq<char>>>,
    s1: Seq<(Seq<char>, Seq<char>)>,
    s2: Seq<(Seq<char>, Seq<char>)>,
    t1: Seq<char>,
    t2: Seq<char>,
)
    requires
        distinct_names(s1),
        distinct_names(s2),
        s1.len() == s2.len(),
        forall|x: (Seq<char>, Seq<char>)| s1.contains(x) <==> s2.contains(x),
        is_document(elements, s1, t1),
        is_document(elements, s2, t2),
    ensures
        t1 == t2,
{
    let o1 = choose|order: Seq<usize>|
        is_stable_sorting(section_names(s1), order) && t1 == join_lines(
            elements_lines(elements) + section_lines(ordered(s1, order)),
        );
    let o2 = choose|order: Seq<usize>|
        is_stable_sorting(section_names(s2), order) && t2 == join_lines(
            elements_lines(elements) + section_lines(ordered(s2, order)),
        );
    lemma_ordered_tables(s1, o1);
    lemma_ordered_tables(s2, o2);
    let a = ordered(s1, o1);
    let b = ordered(s2, o2);
    assert forall|x: (Seq<char>, Seq<char>)| a.contains(x) <==> b.contains(x) by {
        assert(a.contains(x) <==> s1.contains(x));
        assert(b.contains(x) <==> s2.contains(x));
    }
    assert forall|k: int| 0 <= k < a.len() implies a[k] == b[k] by {
        lemma_sorted_tables_same_at(a, b, k);
    }
    assert(a =~= b);
}

/// The view of optional lines.
pub open spec fn opt_lines(lines: Option<&Vec<String>>) -> Option<Seq<Seq<char>>> {
    match lines {
        Some(lines) => Some(lines_view(lines@)),
        None => None,
    }
}

/// Writes the TOML description of a set of materials: the lines of its own
/// elements, if any, then the tables of its materials, ordered by name.
pub fn materials_toml(elements: Option<&Vec<String>>, sections: &Vec<TomlSection>) -> (res: String)
    ensures
        is_document(opt_lines(elements), sections_view(sections@), res@),
{
    proof {
        reveal_strlit("[elements]");
        reveal_strlit("[");
        reveal_strlit("]");
    }
    let ghost s = sections_view(sections@);
    let mut lines: Vec<String> = Vec::new();
    match elements {
        Some(elements) => {
            lines.push(String::from_str("[elements]"));
            let mut i: usize = 0;
            while i < elements.len()
                invariant
                    i <= elements@.len(),
                    lines_view(lines@) == seq!["[elements]"@] + lines_view(elements@).take(i as int),
                decreases elements@.len() - i,
            {
                let ghost before = lines_view(lines@);
                lines.push(elements[i].clone());
                proof {
                    assert(lines_view(lines@) =~= before.push(elements@[i as int]@));
                    assert(lines_view(elements@).take(i + 1) =~= lines_view(elements@).take(
                        i as int,
                    ).push(elements@[i as int]@));
                }
                i = i + 1;
            }
            lines.push(String::new());
            proof {
                assert(lines_view(elements@).take(elements@.len() as int) =~= lines_view(elements@));
                assert(lines_view(lines@) =~= elements_lines(opt_lines(Some(elements))));
            }
        },
        None => {
            assert(lines_view(lines@) =~= elements_lines(opt_lines(elements)));
        },
    }
    let ghost head = lines_view(lines@);
    let mut names: Vec<String> = Vec::new();
    let mut i: usize = 0;
    while i < sections.len()
        invariant
            s == sections_view(sections@),
            i <= sections@.len(),
            names_view(names@) == section_names(s).take(i as int),
        decreases sections@.len() - i,
    {
        let ghost before = names_view(names@);
        names.push(sections[i].name.clone());
        proof {
            assert(section_names(s)[i as int] == sections@[i as int].name@);
            assert(names_view(names@) =~= before.push(sections@[i as int].name@));
            assert(section_names(s).take(i + 1) =~= section_names(s).take(i as int).push(
                section_names(s)[i as int],
            ));
        }
        i = i + 1;
    }
    assert(names_view(names@) =~= section_names(s));
    let order = sorting_order(&names);
    let ghost o = order@;
    let mut k: usize = 0;
    while k < order.len()
        invariant
            s == sections_view(sections@),
            o == order@,
            is_stable_sorting(section_names(s), o),
            k <= o.len(),
            lines_view(lines@) == head + section_lines(ordered(s, o).take(k as int)),
        decreases o.len() - k,
    {
        let j = order[k];
        let ghost before = lines_view(lines@);
        if k > 0 {
            lines.push(String::new());
        }
        let mut header = String::from_str("[");
        header.append(sections[j].name.as_str());
        header.append("]");
        lines.push(header);
        lines.push(sections[j].body.clone());
        proof {
            let t = ordered(s, o).take(k + 1);
            assert(t.drop_last() =~= ordered(s, o).take(k as int));
            assert(t.last() == s[j as int]);
            assert(s[j as int] == (sections@[j as int].name@, sections@[j as int].body@));
            if k == 0 {
                assert(ordered(s, o).take(0) =~= Seq::<(Seq<char>, Seq<char>)>::empty());
                assert(lines_view(lines@) =~= before + section_lines(t));
            } else {
                assert(lines_view(lines@) =~= before + seq![
                    Seq::<char>::empty(),
                    section_header(t.last().0),
                    t.last().1,
                ]);
            }
            assert(lines_view(lines@) =~= head + section_lines(t));
        }
        k = k + 1;
    }
    assert(ordered(s, o).take(o.len() as int) =~= ordered(s, o));
    join_with(&lines, "\n")
}

} // verus!
