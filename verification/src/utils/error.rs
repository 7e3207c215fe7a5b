use crate::utils::strings::{decimal, push_decimal, push_signed_decimal, signed_decimal};
use vstd::prelude::*;
use vstd::string::*;

verus! {

/// The kind of a normalised error, named after the Python exception that it
/// is raised as.
#[derive(Clone, Copy, Debug, PartialEq, Eq, Structural)]
pub enum ErrorKind {
    CLibraryException,
    Exception,
    FileNotFoundError,
    IndexError,
    IOError,
    KeyboardInterrupt,
    KeyError,
    MemoryError,
    NotImplementedError,
    SystemError,
    TypeError,
    ValueError,
}

/// A normalised error: its kind, what was bad and why.
#[derive(Debug)]
pub struct Error<'a> {
    pub kind: Option<ErrorKind>,
    pub what: Option<&'a str>,
    pub why: Option<&'a str>,
}

/// The view of an optional string.
pub open spec fn opt_view(s: Option<&str>) -> Option<Seq<char>> {
    match s {
        Some(s) => Some(s@),
        None => None,
    }
}

/// The message of an error about `what`, because of `why`.
pub open spec fn error_message(what: Option<Seq<char>>, why: Option<Seq<char>>) -> Seq<char> {
    match what {
        None => match why {
            None => "something bad happened"@,
            Some(why) => why,
        },
        Some(what) => match why {
            None => "bad "@ + what,
            Some(why) => "bad "@ + what + " ("@ + why + ")"@,
        },
    }
}

impl<'a> Default for Error<'a> {
    fn default() -> (res: Self)
        ensures
            res.kind is None,
            res.what is None,
            res.why is None,
    {
        Error { kind: None, what: None, why: None }
    }
}

impl<'a> Error<'a> {
    pub fn new(kind: ErrorKind) -> (res: Self)
        ensures
            res.kind == Some(kind),
            res.what is None,
            res.why is None,
    {
        Error { kind: Some(kind), what: None, why: None }
    }

    pub fn maybe_what(self, what: Option<&'a str>) -> (res: Self)
        ensures
            res.kind == self.kind,
            res.what == what,
            res.why == self.why,
    {
        let mut res = self;
        res.what = what;
        res
    }

    pub fn maybe_why(self, why: Option<&'a str>) -> (res: Self)
        ensures
            res.kind == self.kind,
            res.what == self.what,
            res.why == why,
    {
        let mut res = self;
        res.why = why;
        res
    }

    pub fn what(self, what: &'a str) -> (res: Self)
        ensures
            res.kind == self.kind,
            res.what == Some(what),
            res.why == self.why,
    {
        let mut res = self;
        res.what = Some(what);
        res
    }

    pub fn why(self, why: &'a str) -> (res: Self)
        ensures
            res.kind == self.kind,
            res.what == self.what,
            res.why == Some(why),
    {
        let mut res = self;
        res.why = Some(why);
        res
    }

    /// The error's message.
    pub fn to_string(&self) -> (res: String)
        ensures
            res@ == error_message(opt_view(self.what), opt_view(self.why)),
    {
        proof {
            reveal_strlit("something bad happened");
            reveal_strlit("bad ");
            reveal_strlit(" (");
            reveal_strlit(")");
        }
        match self.what {
            None => match self.why {
                None => String::from_str("something bad happened"),
                Some(why) => why.to_owned(),
            },
            Some(what) => {
                let mut msg = String::from_str("bad ");
                msg.append(what);
                match self.why {
                    None => {},
                    Some(why) => {
                        msg.append(" (");
                        msg.append(why);
                        msg.append(")");
                    },
                }
                msg
            },
        }
    }
}


// ===============================================================================================
//
// Variants explainers.
//
// ===============================================================================================

/// An option name between single quotes.
pub open spec fn quoted(s: Seq<char>) -> Seq<char> {
    "'"@ + s + "'"@
}

/// The items of `items` separated by ", ".
pub open spec fn comma_joined(items: Seq<Seq<char>>) -> Seq<char>
    decreases items.len(),
{
    if items.len() == 0 {
        Seq::empty()
    } else if items.len() == 1 {
        items[0]
    } else {
        comma_joined(items.drop_last()) + ", "@ + items.last()
    }
}

/// The enumeration of `options`, quoted, as in "'a', 'b' or 'c'".
pub open spec fn options_list(options: Seq<Seq<char>>) -> Seq<char>
    recommends
        options.len() > 0,
{
    let quoted_options = options.map_values(|o: Seq<char>| quoted(o));
    if options.len() == 1 {
        quoted_options[0]
    } else {
        comma_joined(quoted_options.drop_last()) + " or "@ + quoted_options.last()
    }
}

/// The explanation of an invalid option `value`, when `options` were expected.
pub open spec fn variant_explanation(value: Seq<char>, options: Seq<Seq<char>>) -> Seq<char> {
    "expected one of "@ + options_list(options) + ", found '"@ + value + "'"@
}

/// The views of a slice of strings.
pub open spec fn str_views(options: Seq<&str>) -> Seq<Seq<char>> {
    options.map_values(|o: &str| o@)
}

/// Appends `'s'` to `msg`.
fn push_quoted(msg: &mut String, s: &str)
    ensures
        final(msg)@ == old(msg)@ + quoted(s@),
{
    proof {
        reveal_strlit("'");
    }
    msg.append("'");
    msg.append(s);
    msg.append("'");
}

/// Explains that `value` is not one of `options`.
pub fn variant_explain(value: &str, options: &[&str]) -> (res: String)
    requires
        options@.len() > 0,
    ensures
        res@ == variant_explanation(value@, str_views(options@)),
{
    proof {
        reveal_strlit("expected one of ");
        reveal_strlit(", ");
        reveal_strlit(" or ");
        reveal_strlit(", found '");
        reveal_strlit("'");
    }
    let n = options.len();
    let ghost views = str_views(options@);
    let ghost quoted_views = views.map_values(|o: Seq<char>| quoted(o));
    let mut msg = String::from_str("expected one of ");
    let ghost prefix = msg@;
    push_quoted(&mut msg, options[0]);
    let mut i: usize = 1;
    while i < n - 1
        invariant
            1 <= i <= n,
            n > 1 ==> i < n,
            n == options@.len(),
            views == str_views(options@),
            quoted_views == views.map_values(|o: Seq<char>| quoted(o)),
            msg@ == prefix + comma_joined(quoted_views.take(i as int)),
        decreases n - i,
    {
        msg.append(", ");
        push_quoted(&mut msg, options[i]);
        assert(quoted_views.take(i + 1).drop_last() =~= quoted_views.take(i as int));
        i = i + 1;
    }
    if n > 1 {
        assert(i == n - 1);
        assert(quoted_views.take(i as int) =~= quoted_views.drop_last());
        msg.append(" or ");
        push_quoted(&mut msg, options[n - 1]);
        assert(quoted_views.last() == quoted(options@[n - 1]@));
        assert(msg@ =~= prefix + options_list(views));
    } else {
        assert(quoted_views.take(1)[0] == quoted_views[0]);
        assert(msg@ =~= prefix + options_list(views));
    }
    let ghost listed = msg@;
    msg.append(", found '");
    msg.append(value);
    msg.append("'");
    assert(msg@ =~= listed + ", found '"@ + value@ + "'"@);
    assert(prefix == "expected one of "@);
    assert(msg@ =~= variant_explanation(value@, views));
    msg
}


// ===============================================================================================
//
// C library errors.
//
// ===============================================================================================

/// Where a C library error was raised: the source file, followed by
/// `:line` unless the line is 0.
pub open spec fn c_error_location_text(file: Seq<char>, line: int) -> Seq<char> {
    if line == 0 {
        file
    } else {
        file + ":"@ + signed_decimal(line)
    }
}

/// Why a C library call failed: the failing function, the error code, and
/// the library's message when there is one.
pub open spec fn c_error_why_text(function: Seq<char>, code: nat, message: Option<Seq<char>>) -> Seq<char> {
    match message {
        Some(message) => function + "/"@ + decimal(code) + ": "@ + message,
        None => function + "/"@ + decimal(code),
    }
}

/// The location of a C library error, as reported by its error handler.
pub fn c_error_location(file: &str, line: i32) -> (res: String)
    ensures
        res@ == c_error_location_text(file@, line as int),
{
    proof {
        reveal_strlit(":");
    }
    let mut res = file.to_owned();
    if line != 0 {
        res.append(":");
        push_signed_decimal(&mut res, line as i64);
    }
    res
}

/// Why a C library call failed (see `c_error_why_text`).
pub fn c_error_why(function: &str, code: u32, message: Option<&str>) -> (res: String)
    ensures
        res@ == c_error_why_text(function@, code as nat, opt_view(message)),
{
    proof {
        reveal_strlit("/");
        reveal_strlit(": ");
    }
    let mut res = function.to_owned();
    res.append("/");
    push_decimal(&mut res, code as u64);
    match message {
        Some(message) => {
            res.append(": ");
            res.append(message);
        },
        None => {},
    }
    res
}

/// The error raised for a failed C library call, about `what` when given.
pub fn c_error(function: &str, code: u32, message: Option<&str>, what: Option<&str>) -> (res: (
    ErrorKind,
    String,
))
    ensures
        res.0 == ErrorKind::CLibraryException,
        res.1@ == error_message(
            opt_view(what),
            Some(c_error_why_text(function@, code as nat, opt_view(message))),
        ),
{
    let why = c_error_why(function, code, message);
    let err = Error::new(ErrorKind::CLibraryException).why(why.as_str()).maybe_what(what);
    (ErrorKind::CLibraryException, err.to_string())
}

/// A refusal: the error kind, what was bad and why.
pub open spec fn refusal(kind: ErrorKind, what: Seq<char>, why: Seq<char>) -> (ErrorKind, Seq<char>) {
    (kind, error_message(Some(what), Some(why)))
}

/// Whether `res` is the error `expected`.
pub open spec fn is_refusal<T>(res: Result<T, (ErrorKind, String)>, expected: (ErrorKind, Seq<char>)) -> bool {
    res matches Err((kind, msg)) && kind == expected.0 && msg@ == expected.1
}

/// Builds the error of kind `kind` about `what`, because of `why`.
pub fn refuse(kind: ErrorKind, what: &str, why: &str) -> (res: (ErrorKind, String))
    ensures
        res.0 == kind,
        res.1@ == error_message(Some(what@), Some(why@)),
{
    let err = Error::new(kind).what(what).why(why);
    (kind, err.to_string())
}

} // verus!
