use crate::utils::error::{Error, ErrorKind, error_message, variant_explanation, str_views, variant_explain};
use crate::utils::strings::str_eq;
use vstd::prelude::*;
use vstd::string::*;

verus! {

/// What a geometry scan returns.
#[derive(Clone, Copy, Debug, PartialEq, Eq, Structural)]
pub enum ScanOutput {
    Grammage,
    Intersections,
    Thickness,
}

/// The name of each output, in snake case, in the order of the variants.
pub open spec fn scan_output_names() -> Seq<Seq<char>> {
    seq!["grammage"@, "intersections"@, "thickness"@]
}

/// The name of an output.
pub open spec fn scan_output_name(output: ScanOutput) -> Seq<char> {
    match output {
        ScanOutput::Grammage => "grammage"@,
        ScanOutput::Intersections => "intersections"@,
        ScanOutput::Thickness => "thickness"@,
    }
}

/// Each output has its own name, among the listed names: converting an
/// output to its name and back gives the same output.
pub proof fn law_scan_output_names_round_trip(output: ScanOutput, other: ScanOutput)
    ensures
        scan_output_names().contains(scan_output_name(output)),
        scan_output_name(output) == scan_output_name(other) ==> output == other,
{
    reveal_strlit("grammage");
    reveal_strlit("intersections");
    reveal_strlit("thickness");
    let names = scan_output_names();
    match output {
        ScanOutput::Grammage => assert(names[0] == scan_output_name(output)),
        ScanOutput::Intersections => assert(names[1] == scan_output_name(output)),
        ScanOutput::Thickness => assert(names[2] == scan_output_name(output)),
    }
    if scan_output_name(output) == scan_output_name(other) && output != other {
        let a = scan_output_name(output);
        let b = scan_output_name(other);
        assert(a.len() != b.len() || a[0] != b[0]);
    }
}

impl Default for ScanOutput {
    fn default() -> (res: Self)
        ensures
            res == ScanOutput::Thickness,
    {
        ScanOutput::Thickness
    }
}

impl ScanOutput {
    /// What an output argument is called in error messages.
    pub fn what() -> (res: &'static str)
        ensures
            res@ == "output"@,
    {
        proof {
            reveal_strlit("output");
        }
        "output"
    }

    /// The names of all outputs.
    pub fn variants() -> (res: &'static [&'static str])
        ensures
            str_views(res@) == scan_output_names(),
    {
        proof {
            reveal_strlit("grammage");
            reveal_strlit("intersections");
            reveal_strlit("thickness");
        }
        let names: &'static [&'static str] = &["grammage", "intersections", "thickness"];
        assert(str_views(names@) =~= scan_output_names());
        names
    }

    /// The name of this output.
    pub fn to_str(&self) -> (res: &'static str)
        ensures
            res@ == scan_output_name(*self),
    {
        match self {
            ScanOutput::Grammage => "grammage",
            ScanOutput::Intersections => "intersections",
            ScanOutput::Thickness => "thickness",
        }
    }

    /// The output of the given name, or the list of valid names.
    pub fn from_str(name: &str) -> (res: Result<Self, &'static [&'static str]>)
        ensures
            match res {
                Ok(output) => scan_output_name(output) == name@,
                Err(options) => str_views(options@) == scan_output_names()
                    && !scan_output_names().contains(name@),
            },
    {
        if str_eq(name, "grammage") {
            Ok(ScanOutput::Grammage)
        } else if str_eq(name, "intersections") {
            Ok(ScanOutput::Intersections)
        } else if str_eq(name, "thickness") {
            Ok(ScanOutput::Thickness)
        } else {
            let options = Self::variants();
            assert(scan_output_names()[0] == "grammage"@);
            assert(scan_output_names()[1] == "intersections"@);
            assert(scan_output_names()[2] == "thickness"@);
            Err(options)
        }
    }

    /// Converts an output name, as given by a caller, reporting an invalid
    /// one as a `ValueError` that lists the valid names.
    pub fn from_name(name: &str) -> (res: Result<Self, (ErrorKind, String)>)
        ensures
            match res {
                Ok(output) => scan_output_name(output) == name@,
                Err((kind, msg)) => kind == ErrorKind::ValueError
                    && !scan_output_names().contains(name@)
                    && msg@ == error_message(
                        Some("output"@),
                        Some(variant_explanation(name@, scan_output_names())),
                    ),
            },
    {
        match Self::from_str(name) {
            Ok(output) => Ok(output),
            Err(options) => {
                let why = variant_explain(name, options);
                let what = Self::what();
                let err = Error::new(ErrorKind::ValueError).what(what).why(why.as_str());
                Err((ErrorKind::ValueError, err.to_string()))
            },
        }
    }
}

} // verus!
