use mulder::materials::parse_formula;
use regex::Regex;

fn terms(formula: &str) -> Vec<(String, String)> {
    parse_formula(formula)
        .into_iter()
        .map(|t| (t.symbol, t.count))
        .collect()
}

fn reference(formula: &str) -> Vec<(String, String)> {
    let re = Regex::new(r"([A-Z][a-z]?)([0-9]*)").unwrap();
    re.captures_iter(formula)
        .map(|c| (c.get(1).unwrap().as_str().to_string(), c.get(2).unwrap().as_str().to_string()))
        .collect()
}

fn pairs(items: &[(&str, &str)]) -> Vec<(String, String)> {
    items.iter().map(|(a, b)| (a.to_string(), b.to_string())).collect()
}

#[test]
fn water() {
    assert_eq!(terms("H2O"), pairs(&[("H", "2"), ("O", "")]));
}

#[test]
fn calcite() {
    assert_eq!(terms("CaCO3"), pairs(&[("Ca", ""), ("C", ""), ("O", "3")]));
}

#[test]
fn skipped_characters() {
    assert_eq!(
        terms("(NH4)2SO4"),
        pairs(&[("N", ""), ("H", "4"), ("S", ""), ("O", "4")]),
    );
    assert_eq!(terms("h2o"), pairs(&[]));
    assert_eq!(terms(""), pairs(&[]));
}

#[test]
fn long_counts() {
    assert_eq!(terms("Si12345678901234567890"), pairs(&[("Si", "12345678901234567890")]));
}

#[test]
fn same_terms_as_regex() {
    let cases = [
        "H2O", "CaCO3", "SiO2", "Al2O3", "Fe2O3", "C6H12O6", "NaCl", "abc", "ABC", "AbCdEf",
        "H2 O", "Héé2O", "ÉH2", "Xx99Yy0", "O-2", "U235U238", "12H", "Hh1h", "Zz", "Z",
        "ÅH", "H\u{1F600}2", "CO2\n", "A1B22C333",
    ];
    for case in cases {
        assert_eq!(terms(case), reference(case), "formula {:?}", case);
    }
}
