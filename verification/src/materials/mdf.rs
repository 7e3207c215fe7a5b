use crate::materials::names::{
    is_stable_sorting, law_stable_sorting_unique, names_view, sorting_order,
};
use crate::utils::strings::{
    decimal, join_lines, join_with, law_decimal_delimited, lines_view, push_decimal,
};
use vstd::prelude::*;
use vstd::string::*;

verus! {

// ===============================================================================================
//
// Materials Description File (MDF) of Pumas.
//
// An MDF is an XML document that lists elements, then materials (mixtures,
// with their density and mass composition) and composites (with their
// composition in terms of materials). Numbers that are not integers come
// already written as text: an element's mass number and mean excitation
// energy, a material's density and mean excitation energy, and the
// fractions of components.
//
// ===============================================================================================

/// A component of a composition: its name and its fraction, as text.
pub struct XmlComponent {
    pub name: String,
    pub fraction: String,
}

/// The views of the components of a composition.
pub open spec fn components_view(c: Seq<XmlComponent>) -> Seq<(Seq<char>, Seq<char>)> {
    c.map_values(|x: XmlComponent| (x.name@, x.fraction@))
}

/// The line of a component.
pub open spec fn component_line(name: Seq<char>, fraction: Seq<char>) -> Seq<char> {
    "    <component name=\""@ + name + "\" fraction=\""@ + fraction + "\" />"@
}

/// The lines of the components of a composition, in the given order.
pub open spec fn component_lines(c: Seq<(Seq<char>, Seq<char>)>, order: Seq<usize>) -> Seq<Seq<char>> {
    Seq::new(order.len(), |k: int| component_line(c[order[k] as int].0, c[order[k] as int].1))
}

/// The names of the components of a composition.
pub open spec fn component_names(c: Seq<(Seq<char>, Seq<char>)>) -> Seq<Seq<char>> {
    c.map_values(|x: (Seq<char>, Seq<char>)| x.0)
}

/// The text of a composition: the lines of its components, ordered by name.
pub open spec fn is_composition_text(c: Seq<(Seq<char>, Seq<char>)>, text: Seq<char>) -> bool {
    exists|order: Seq<usize>|
        is_stable_sorting(component_names(c), order) && text == join_lines(component_lines(c, order))
}

/// A composition has one text: the order of its components by name is
/// unique.
pub proof fn law_composition_text_unique(c: Seq<(Seq<char>, Seq<char>)>, t1: Seq<char>, t2: Seq<char>)
    requires
        is_composition_text(c, t1),
        is_composition_text(c, t2),
    ensures
        t1 == t2,
{
    let o1 = choose|order: Seq<usize>|
        is_stable_sorting(component_names(c), order) && t1 == join_lines(component_lines(c, order));
    let o2 = choose|order: Seq<usize>|
        is_stable_sorting(component_names(c), order) && t2 == join_lines(component_lines(c, order));
    law_stable_sorting_unique(component_names(c), o1, o2);
}

/// The text of a composition, with its components ordered by name (equal
/// names keeping their order).
pub fn composition_xml(components: &Vec<XmlComponent>) -> (res: String)
    ensures
        is_composition_text(components_view(components@), res@),
{
    let ghost c = components_view(components@);
    let mut names: Vec<String> = Vec::new();
    let mut i: usize = 0;
    while i < components.len()
        invariant
            c == components_view(components@),
            i <= components@.len(),
            names_view(names@) == component_names(c).take(i as int),
        decreases components@.len() - i,
    {
        let ghost before = names_view(names@);
        names.push(components[i].name.clone());
        proof {
            assert(component_names(c)[i as int] == components@[i as int].name@);
            assert(names_view(names@) =~= before.push(components@[i as int].name@));
            assert(component_names(c).take(i + 1) =~= component_names(c).take(i as int).push(
                component_names(c)[i as int],
            ));
        }
        i = i + 1;
    }
    assert(names_view(names@) =~= component_names(c));
    let order = sorting_order(&names);
    let ghost o = order@;
    let mut lines: Vec<String> = Vec::new();
    let mut k: usize = 0;
    while k < order.len()
        invariant
            c == components_view(components@),
            o == order@,
            is_stable_sorting(component_names(c), o),
            k <= o.len(),
            lines_view(lines@) == component_lines(c, o).take(k as int),
        decreases o.len() - k,
    {
        proof {
            reveal_strlit("    <component name=\"");
            reveal_strlit("\" fraction=\"");
            reveal_strlit("\" />");
        }
        let j = order[k];
        let component = &components[j];
        let mut line = String::from_str("    <component name=\"");
        line.append(component.name.as_str());
        line.append("\" fraction=\"");
        line.append(component.fraction.as_str());
        line.append("\" />");
        let ghost line_view = line@;
        let ghost before = lines_view(lines@);
        lines.push(line);
        proof {
            assert(c[j as int] == (components@[j as int].name@, components@[j as int].fraction@));
            assert(component_lines(c, o)[k as int] == line_view);
            assert(lines_view(lines@) =~= before.push(line_view));
            assert(component_lines(c, o).take(k + 1) =~= component_lines(c, o).take(k as int).push(
                component_lines(c, o)[k as int],
            ));
        }
        k = k + 1;
    }
    assert(lines_view(lines@) =~= component_lines(c, o));
    join_with(&lines, "\n")
}

/// The line of an element.
pub open spec fn element_text(name: Seq<char>, z: nat, a: Seq<char>, i: Seq<char>) -> Seq<char> {
    "<element name=\""@ + name + "\" Z=\""@ + decimal(z) + "\" A=\""@ + a + "\" I=\""@ + i
        + "\" />"@
}

/// The atomic number of an element line is read back from it: two lines of
/// the same element name that are equal carry the same atomic number (the
/// Z attribute holds its full decimal text).
pub proof fn law_element_atomic_number(name: Seq<char>, z1: nat, a1: Seq<char>, i1: Seq<char>, z2: nat, a2: Seq<char>, i2: Seq<char>)
    requires
        element_text(name, z1, a1, i1) == element_text(name, z2, a2, i2),
    ensures
        z1 == z2,
{
    reveal_strlit("\" A=\"");
    let p = "<element name=\""@ + name + "\" Z=\""@;
    let q1 = "\" A=\""@ + a1 + "\" I=\""@ + i1 + "\" />"@;
    let q2 = "\" A=\""@ + a2 + "\" I=\""@ + i2 + "\" />"@;
    assert(element_text(name, z1, a1, i1) =~= p + decimal(z1) + q1);
    assert(element_text(name, z2, a2, i2) =~= p + decimal(z2) + q2);
    assert(q1[0] == '"');
    assert(q2[0] == '"');
    law_decimal_delimited(p, z1, q1, z2, q2);
}

/// The line of an element of atomic number `z`, mass number `a` (in g/mol)
/// and mean excitation energy `i` (in eV).
pub fn element_xml(name: &str, z: u32, a: &str, i: &str) -> (res: String)
    ensures
        res@ == element_text(name@, z as nat, a@, i@),
{
    proof {
        reveal_strlit("<element name=\"");
        reveal_strlit("\" Z=\"");
        reveal_strlit("\" A=\"");
        reveal_strlit("\" I=\"");
        reveal_strlit("\" />");
    }
    let mut res = String::from_str("<element name=\"");
    res.append(name);
    res.append("\" Z=\"");
    push_decimal(&mut res, z as u64);
    res.append("\" A=\"");
    res.append(a);
    res.append("\" I=\"");
    res.append(i);
    res.append("\" />");
    res
}

/// The opening tag of a material.
pub open spec fn material_header(name: Seq<char>, density: Seq<char>, mee: Option<Seq<char>>) -> Seq<char> {
    match mee {
        Some(mee) => "<material name=\""@ + name + "\" density=\""@ + density + "\" I=\""@ + mee
            + "\">"@,
        None => "<material name=\""@ + name + "\" density=\""@ + density + "\">"@,
    }
}

/// The view of an optional string.
pub open spec fn opt_text(s: Option<&str>) -> Option<Seq<char>> {
    match s {
        Some(s) => Some(s@),
        None => None,
    }
}

/// The text of a material (a mixture) of density `density` (in g/cm3),
/// mean excitation energy `mee` (in eV) if given, and mass composition
/// `components`: its opening tag, its composition and its closing tag, on
/// lines of their own.
pub fn material_xml(name: &str, density: &str, mee: Option<&str>, components: &Vec<XmlComponent>) -> (res:
    String)
    ensures
        exists|composition: Seq<char>|
            is_composition_text(components_view(components@), composition) && res@ == join_lines(
                seq![material_header(name@, density@, opt_text(mee)), composition, "</material>"@],
            ),
{
    proof {
        reveal_strlit("<material name=\"");
        reveal_strlit("\" density=\"");
        reveal_strlit("\" I=\"");
        reveal_strlit("\">");
        reveal_strlit("</material>");
    }
    let mut header = String::from_str("<material name=\"");
    header.append(name);
    header.append("\" density=\"");
    header.append(density);
    match mee {
        Some(mee) => {
            header.append("\" I=\"");
            header.append(mee);
        },
        None => {},
    }
    header.append("\">");
    assert(header@ == material_header(name@, density@, opt_text(mee)));
    let composition = composition_xml(components);
    let lines = vec![header, composition, String::from_str("</material>")];
    let res = join_with(&lines, "\n");
    proof {
        let s = seq![material_header(name@, density@, opt_text(mee)), composition@, "</material>"@];
        assert(lines_view(lines@) =~= s);
        assert(is_composition_text(components_view(components@), composition@));
    }
    res
}

/// The opening tag of a composite.
pub open spec fn composite_header(name: Seq<char>) -> Seq<char> {
    "<composite name=\""@ + name + "\">"@
}

/// The text of a composite, of composition (in terms of materials)
/// `components`: its opening tag, its composition and its closing tag, on
/// lines of their own.
pub fn composite_xml(name: &str, components: &Vec<XmlComponent>) -> (res: String)
    ensures
        exists|composition: Seq<char>|
            is_composition_text(components_view(components@), composition) && res@ == join_lines(
                seq![composite_header(name@), composition, "</composite>"@],
            ),
{
    proof {
        reveal_strlit("<composite name=\"");
        reveal_strlit("\">");
        reveal_strlit("</composite>");
    }
    let mut header = String::from_str("<composite name=\"");
    header.append(name);
    header.append("\">");
    let composition = composition_xml(components);
    let lines = vec![header, composition, String::from_str("</composite>")];
    let res = join_with(&lines, "\n");
    proof {
        let s = seq![composite_header(name@), composition@, "</composite>"@];
        assert(lines_view(lines@) =~= s);
        assert(is_composition_text(components_view(components@), composition@));
    }
    res
}

/// The text of an MDF that lists the given elements, materials and
/// composites (as their texts), in that order.
pub open spec fn mdf_text(elements: Seq<Seq<char>>, materials: Seq<Seq<char>>, composites: Seq<Seq<char>>) -> Seq<
    char,
> {
    join_lines(seq!["<pumas>"@] + elements + materials + composites + seq!["</pumas>"@])
}

/// Writes an MDF that lists the given elements, materials and composites
/// (as their texts), in that order.
pub fn mdf(elements: &Vec<String>, materials: &Vec<String>, composites: &Vec<String>) -> (res: String)
    ensures
        res@ == mdf_text(lines_view(elements@), lines_view(materials@), lines_view(composites@)),
{
    proof {
        reveal_strlit("<pumas>");
        reveal_strlit("</pumas>");
    }
    let mut lines: Vec<String> = Vec::new();
    lines.push(String::from_str("<pumas>"));
    let ghost head = seq!["<pumas>"@];
    assert(lines_view(lines@) =~= head);
    append_lines(&mut lines, elements);
    append_lines(&mut lines, materials);
    append_lines(&mut lines, composites);
    lines.push(String::from_str("</pumas>"));
    proof {
        assert(lines_view(lines@) =~= seq!["<pumas>"@] + lines_view(elements@) + lines_view(
            materials@,
        ) + lines_view(composites@) + seq!["</pumas>"@]);
    }
    join_with(&lines, "\n")
}

/// Appends copies of `more` to `lines`.
fn append_lines(lines: &mut Vec<String>, more: &Vec<String>)
    ensures
        lines_view(final(lines)@) == lines_view(old(lines)@) + lines_view(more@),
{
    let ghost start = lines_view(lines@);
    let mut i: usize = 0;
    while i < more.len()
        invariant
            i <= more@.len(),
            lines_view(lines@) == start + lines_view(more@).take(i as int),
        decreases more@.len() - i,
    {
        let ghost before = lines_view(lines@);
        lines.push(more[i].clone());
        proof {
            assert(lines_view(lines@) =~= before.push(more@[i as int]@));
            assert(lines_view(more@).take(i + 1) =~= lines_view(more@).take(i as int).push(
                more@[i as int]@,
            ));
        }
        i = i + 1;
    }
    assert(lines_view(more@).take(more@.len() as int) =~= lines_view(more@));
}

} // verus!
