use vstd::prelude::*;
use vstd::string::*;

verus! {

// ===============================================================================================
//
// Chemical formulae, such as "H2O" or "CaCO3".
//
// A formula is read as a sequence of terms: an element symbol (an upper case
// letter, optionally followed by one lower case letter) and the digits of its
// count, possibly none. Characters that do not start a term are skipped.
//
// ===============================================================================================

/// One term of a chemical formula: an element symbol and the digits of its
/// count (empty when the count is implicit, that is 1).
pub struct FormulaTerm {
    pub symbol: String,
    pub count: String,
}

pub open spec fn is_upper(c: char) -> bool {
    'A' <= c && c <= 'Z'
}

pub open spec fn is_lower(c: char) -> bool {
    'a' <= c && c <= 'z'
}

pub open spec fn is_digit(c: char) -> bool {
    '0' <= c && c <= '9'
}

/// The end of the run of digits that starts at `i`.
pub open spec fn digits_end(s: Seq<char>, i: int) -> int
    decreases s.len() - i,
{
    if 0 <= i < s.len() && is_digit(s[i]) {
        digits_end(s, i + 1)
    } else {
        i
    }
}

/// The end of the element symbol that starts at `i` (an upper case letter).
pub open spec fn symbol_end(s: Seq<char>, i: int) -> int {
    if i + 1 < s.len() && is_lower(s[i + 1]) {
        i + 2
    } else {
        i + 1
    }
}

/// A run of digits ends at or after its start, and within the formula.
pub proof fn lemma_digits_end_ge(s: Seq<char>, i: int)
    ensures
        digits_end(s, i) >= i,
        i <= s.len() ==> digits_end(s, i) <= s.len(),
    decreases s.len() - i,
{
    if 0 <= i < s.len() && is_digit(s[i]) {
        lemma_digits_end_ge(s, i + 1);
    }
}

/// The terms of `s` from position `i` on, as (symbol, digits) pairs.
pub open spec fn formula_terms_from(s: Seq<char>, i: int) -> Seq<(Seq<char>, Seq<char>)>
    decreases s.len() - i,
{
    if i < 0 || i >= s.len() {
        Seq::empty()
    } else if is_upper(s[i]) {
        let j = symbol_end(s, i);
        let k = digits_end(s, j);
        proof {
            lemma_digits_end_ge(s, j);
        }
        seq![(s.subrange(i, j), s.subrange(j, k))] + formula_terms_from(s, k)
    } else {
        formula_terms_from(s, i + 1)
    }
}

/// The terms of the formula `s`.
pub open spec fn formula_terms(s: Seq<char>) -> Seq<(Seq<char>, Seq<char>)> {
    formula_terms_from(s, 0)
}

/// The views of parsed terms.
pub open spec fn terms_view(terms: Seq<FormulaTerm>) -> Seq<(Seq<char>, Seq<char>)> {
    terms.map_values(|t: FormulaTerm| (t.symbol@, t.count@))
}

proof fn lemma_digits_end_bounds(s: Seq<char>, i: int)
    requires
        0 <= i <= s.len(),
    ensures
        i <= digits_end(s, i) <= s.len(),
        forall|j: int| i <= j < digits_end(s, i) ==> is_digit(s[j]),
        digits_end(s, i) < s.len() ==> !is_digit(s[digits_end(s, i)]),
    decreases s.len() - i,
{
    if i < s.len() && is_digit(s[i]) {
        lemma_digits_end_bounds(s, i + 1);
    }
}

/// A term is well formed: its symbol is an upper case letter, possibly
/// followed by one lower case letter, and its count holds digits only.
pub open spec fn well_formed_term(term: (Seq<char>, Seq<char>)) -> bool {
    &&& 1 <= term.0.len() <= 2
    &&& is_upper(term.0[0])
    &&& term.0.len() == 2 ==> is_lower(term.0[1])
    &&& forall|k: int| 0 <= k < term.1.len() ==> is_digit(#[trigger] term.1[k])
}

/// Every term of a formula is well formed, and a formula without upper case
/// letters has no terms.
pub proof fn law_formula_terms_well_formed(s: Seq<char>, i: int)
    requires
        0 <= i,
    ensures
        forall|t: int| 0 <= t < formula_terms_from(s, i).len() ==> well_formed_term(
            #[trigger] formula_terms_from(s, i)[t],
        ),
        (forall|k: int| i <= k < s.len() ==> !is_upper(#[trigger] s[k])) ==> formula_terms_from(s, i).len() == 0,
    decreases s.len() - i,
{
    if i < s.len() {
        if is_upper(s[i]) {
            let j = symbol_end(s, i);
            let k = digits_end(s, j);
            lemma_digits_end_ge(s, j);
            lemma_digits_end_bounds(s, j);
            law_formula_terms_well_formed(s, k);
            let head = (s.subrange(i, j), s.subrange(j, k));
            assert(well_formed_term(head));
            let rest = formula_terms_from(s, k);
            assert(formula_terms_from(s, i) =~= seq![head] + rest);
            assert forall|t: int| 0 <= t < formula_terms_from(s, i).len() implies well_formed_term(
                #[trigger] formula_terms_from(s, i)[t],
            ) by {
                if t > 0 {
                    assert(formula_terms_from(s, i)[t] == rest[t - 1]);
                } else {
                    assert(formula_terms_from(s, i)[t] == head);
                }
            }
        } else {
            law_formula_terms_well_formed(s, i + 1);
            assert(formula_terms_from(s, i) == formula_terms_from(s, i + 1));
        }
    } else {
        assert(formula_terms_from(s, i).len() == 0);
    }
}

/// Splits a chemical formula into its terms.
pub fn parse_formula(formula: &str) -> (res: Vec<FormulaTerm>)
    ensures
        terms_view(res@) == formula_terms(formula@),
{
    let n = formula.unicode_len();
    let ghost s = formula@;
    let mut terms: Vec<FormulaTerm> = Vec::new();
    let mut i: usize = 0;
    while i < n
        invariant
            n == s.len(),
            s == formula@,
            i <= n,
            terms_view(terms@) + formula_terms_from(s, i as int) == formula_terms(s),
        decreases n - i,
    {
        let c = formula.get_char(i);
        if 'A' <= c && c <= 'Z' {
            let mut j: usize = i + 1;
            if j < n {
                let d = formula.get_char(j);
                if 'a' <= d && d <= 'z' {
                    j = j + 1;
                }
            }
            assert(j == symbol_end(s, i as int));
            let mut k: usize = j;
            proof {
                lemma_digits_end_bounds(s, j as int);
            }
            loop
                invariant
                    n == s.len(),
                    s == formula@,
                    j <= k <= n,
                    digits_end(s, k as int) == digits_end(s, j as int),
                ensures
                    k == digits_end(s, j as int),
                decreases n - k,
            {
                if k >= n {
                    break;
                }
                let e = formula.get_char(k);
                if !('0' <= e && e <= '9') {
                    break;
                }
                k = k + 1;
            }
            let symbol = formula.substring_char(i, j).to_owned();
            let count = formula.substring_char(j, k).to_owned();
            let ghost before = terms_view(terms@);
            terms.push(FormulaTerm { symbol, count });
            assert(terms_view(terms@) =~= before + seq![(s.subrange(i as int, j as int), s.subrange(j as int, k as int))]);
            i = k;
        } else {
            i = i + 1;
        }
    }
    assert(formula_terms_from(s, i as int) =~= Seq::empty());
    assert(terms_view(terms@) =~= formula_terms(s));
    terms
}

} // verus!
