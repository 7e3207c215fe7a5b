use vstd::prelude::*;
use vstd::string::*;

verus! {

/// Whether two strings hold the same characters.
pub fn str_eq(a: &str, b: &str) -> (res: bool)
    ensures
        res == (a@ == b@),
{
    let n = a.unicode_len();
    if n != b.unicode_len() {
        return false;
    }
    let mut i: usize = 0;
    while i < n
        invariant
            n == a@.len(),
            n == b@.len(),
            i <= n,
            forall|j: int| 0 <= j < i ==> a@[j] == b@[j],
        decreases n - i,
    {
        if a.get_char(i) != b.get_char(i) {
            return false;
        }
        i = i + 1;
    }
    assert(a@ =~= b@);
    true
}


/// Whether `s` starts with `prefix`.
pub fn starts_with(s: &str, prefix: &str) -> (res: bool)
    ensures
        res == prefix@.is_prefix_of(s@),
{
    let n = prefix.unicode_len();
    if s.unicode_len() < n {
        return false;
    }
    let mut i: usize = 0;
    while i < n
        invariant
            n == prefix@.len(),
            n <= s@.len(),
            i <= n,
            forall|j: int| 0 <= j < i ==> prefix@[j] == s@[j],
        decreases n - i,
    {
        if prefix.get_char(i) != s.get_char(i) {
            return false;
        }
        i = i + 1;
    }
    assert(prefix@ =~= s@.subrange(0, n as int));
    true
}

/// Whether `s` ends with `suffix`.
pub fn ends_with(s: &str, suffix: &str) -> (res: bool)
    ensures
        res == suffix@.is_suffix_of(s@),
{
    let n = suffix.unicode_len();
    let m = s.unicode_len();
    if m < n {
        return false;
    }
    let offset = m - n;
    let mut i: usize = 0;
    while i < n
        invariant
            n == suffix@.len(),
            m == s@.len(),
            offset == m - n,
            i <= n,
            forall|j: int| 0 <= j < i ==> suffix@[j] == s@[offset + j],
        decreases n - i,
    {
        if suffix.get_char(i) != s.get_char(offset + i) {
            return false;
        }
        i = i + 1;
    }
    assert(suffix@ =~= s@.subrange(offset as int, m as int));
    true
}

/// Items joined with a separator.
pub open spec fn joined(items: Seq<Seq<char>>, sep: Seq<char>) -> Seq<char>
    decreases items.len(),
{
    if items.len() == 0 {
        Seq::empty()
    } else if items.len() == 1 {
        items[0]
    } else {
        joined(items.drop_last(), sep) + sep + items.last()
    }
}

/// Lines joined with newlines.
pub open spec fn join_lines(lines: Seq<Seq<char>>) -> Seq<char> {
    joined(lines, "\n"@)
}

/// The views of a list of strings.
pub open spec fn lines_view(lines: Seq<String>) -> Seq<Seq<char>> {
    lines.map_values(|s: String| s@)
}

/// Joins items with a separator.
pub fn join_with(items: &Vec<String>, sep: &str) -> (res: String)
    ensures
        res@ == joined(lines_view(items@), sep@),
{
    let ghost v = lines_view(items@);
    if items.len() == 0 {
        return String::new();
    }
    proof {
        assert(v.take(1).drop_last() =~= Seq::<Seq<char>>::empty());
    }
    let mut res = items[0].clone();
    let mut i: usize = 1;
    while i < items.len()
        invariant
            v == lines_view(items@),
            1 <= i <= items@.len(),
            res@ == joined(v.take(i as int), sep@),
        decreases items@.len() - i,
    {
        proof {
            assert(v.take(i + 1).drop_last() =~= v.take(i as int));
        }
        res.append(sep);
        res.append(items[i].as_str());
        i = i + 1;
    }
    assert(v.take(items@.len() as int) =~= v);
    res
}

// ===============================================================================================
//
// Numbers as text.
//
// ===============================================================================================

/// The lower case hexadecimal digit of value `d` (0 <= d < 16).
pub open spec fn hex_digit(d: int) -> char {
    seq!['0', '1', '2', '3', '4', '5', '6', '7', '8', '9', 'a', 'b', 'c', 'd', 'e', 'f'][d]
}

/// The decimal representation of `n`, without leading zeros.
pub open spec fn decimal(n: nat) -> Seq<char>
    decreases n,
{
    if n < 10 {
        seq![hex_digit(n as int)]
    } else {
        decimal(n / 10).push(hex_digit((n % 10) as int))
    }
}

/// Whether `c` is a decimal digit.
pub open spec fn is_digit(c: char) -> bool {
    '0' <= c && c <= '9'
}

/// The value of a string of decimal digits.
pub open spec fn digits_value(s: Seq<char>) -> int
    decreases s.len(),
{
    if s.len() == 0 {
        0
    } else {
        digits_value(s.drop_last()) * 10 + (s.last() as int - '0' as int)
    }
}

/// The digits below ten.
proof fn lemma_hex_digit_decimal(d: int)
    requires
        0 <= d < 10,
    ensures
        is_digit(hex_digit(d)),
        hex_digit(d) as int - '0' as int == d,
{
    if d == 0 {
        assert(hex_digit(d) == '0');
    } else if d == 1 {
        assert(hex_digit(d) == '1');
    } else if d == 2 {
        assert(hex_digit(d) == '2');
    } else if d == 3 {
        assert(hex_digit(d) == '3');
    } else if d == 4 {
        assert(hex_digit(d) == '4');
    } else if d == 5 {
        assert(hex_digit(d) == '5');
    } else if d == 6 {
        assert(hex_digit(d) == '6');
    } else if d == 7 {
        assert(hex_digit(d) == '7');
    } else if d == 8 {
        assert(hex_digit(d) == '8');
    } else {
        assert(hex_digit(d) == '9');
    }
}

/// The decimal text of a number is made of digits, at least one, and reads
/// back as that number.
pub proof fn law_decimal_round_trip(n: nat)
    ensures
        decimal(n).len() >= 1,
        forall|k: int| 0 <= k < decimal(n).len() ==> is_digit(#[trigger] decimal(n)[k]),
        digits_value(decimal(n)) == n,
    decreases n,
{
    if n < 10 {
        lemma_hex_digit_decimal(n as int);
        assert(decimal(n).drop_last() =~= Seq::<char>::empty());
        assert(digits_value(decimal(n)) == digits_value(Seq::<char>::empty()) * 10 + (
        hex_digit(n as int) as int - '0' as int));
    } else {
        law_decimal_round_trip(n / 10);
        lemma_hex_digit_decimal((n % 10) as int);
        assert(decimal(n).drop_last() =~= decimal(n / 10));
        assert(decimal(n).last() == hex_digit((n % 10) as int));
        assert(digits_value(decimal(n)) == digits_value(decimal(n / 10)) * 10 + (n % 10));
        assert((n / 10) * 10 + n % 10 == n) by (nonlinear_arith);
        assert forall|k: int| 0 <= k < decimal(n).len() implies is_digit(#[trigger] decimal(n)[k]) by {
            if k < decimal(n).len() - 1 {
                assert(decimal(n)[k] == decimal(n / 10)[k]);
            }
        }
    }
}

/// Two numbers with the same decimal text are the same number.
pub proof fn law_decimal_injective(m: nat, n: nat)
    requires
        decimal(m) == decimal(n),
    ensures
        m == n,
{
    law_decimal_round_trip(m);
    law_decimal_round_trip(n);
}

/// A number written in decimal between a common prefix and a text that does
/// not start with a digit is read back unambiguously: two such texts that
/// are equal hold the same number.
pub proof fn law_decimal_delimited(p: Seq<char>, m: nat, q1: Seq<char>, n: nat, q2: Seq<char>)
    requires
        p + decimal(m) + q1 == p + decimal(n) + q2,
        q1.len() > 0 && !is_digit(q1[0]),
        q2.len() > 0 && !is_digit(q2[0]),
    ensures
        m == n,
{
    law_decimal_round_trip(m);
    law_decimal_round_trip(n);
    let dm = decimal(m);
    let dn = decimal(n);
    let t1 = p + dm + q1;
    let t2 = p + dn + q2;
    let l = p.len() as int;
    if dm.len() < dn.len() {
        assert(t1[l + dm.len()] == q1[0]);
        assert(t2[l + dm.len()] == dn[dm.len() as int]);
        assert(false);
    } else if dn.len() < dm.len() {
        assert(t2[l + dn.len()] == q2[0]);
        assert(t1[l + dn.len()] == dm[dn.len() as int]);
        assert(false);
    } else {
        assert forall|k: int| 0 <= k < dm.len() implies dm[k] == dn[k] by {
            assert(t1[l + k] == dm[k]);
            assert(t2[l + k] == dn[k]);
        }
        assert(dm =~= dn);
        law_decimal_injective(m, n);
    }
}

/// The decimal representation of the signed integer `i`.
pub open spec fn signed_decimal(i: int) -> Seq<char> {
    if i < 0 {
        seq!['-'] + decimal((-i) as nat)
    } else {
        decimal(i as nat)
    }
}

/// The `width` last hexadecimal digits of `n`, zero padded.
pub open spec fn hex_padded(n: nat, width: nat) -> Seq<char>
    decreases width,
{
    if width == 0 {
        Seq::empty()
    } else {
        hex_padded(n / 16, (width - 1) as nat).push(hex_digit((n % 16) as int))
    }
}

/// A zero-padded representation has exactly its width.
pub proof fn lemma_hex_padded_len(n: nat, width: nat)
    ensures
        hex_padded(n, width).len() == width,
    decreases width,
{
    if width > 0 {
        lemma_hex_padded_len(n / 16, (width - 1) as nat);
    }
}

/// The one-character string of the digit `d`.
fn digit_str(d: u64) -> (res: &'static str)
    requires
        d < 16,
    ensures
        res@ == seq![hex_digit(d as int)],
{
    match d {
        0 => {
            proof {
                reveal_strlit("0");
            }
            "0"
        },
        1 => {
            proof {
                reveal_strlit("1");
            }
            "1"
        },
        2 => {
            proof {
                reveal_strlit("2");
            }
            "2"
        },
        3 => {
            proof {
                reveal_strlit("3");
            }
            "3"
        },
        4 => {
            proof {
                reveal_strlit("4");
            }
            "4"
        },
        5 => {
            proof {
                reveal_strlit("5");
            }
            "5"
        },
        6 => {
            proof {
                reveal_strlit("6");
            }
            "6"
        },
        7 => {
            proof {
                reveal_strlit("7");
            }
            "7"
        },
        8 => {
            proof {
                reveal_strlit("8");
            }
            "8"
        },
        9 => {
            proof {
                reveal_strlit("9");
            }
            "9"
        },
        10 => {
            proof {
                reveal_strlit("a");
            }
            "a"
        },
        11 => {
            proof {
                reveal_strlit("b");
            }
            "b"
        },
        12 => {
            proof {
                reveal_strlit("c");
            }
            "c"
        },
        13 => {
            proof {
                reveal_strlit("d");
            }
            "d"
        },
        14 => {
            proof {
                reveal_strlit("e");
            }
            "e"
        },
        _ => {
            proof {
                reveal_strlit("f");
            }
            "f"
        },
    }
}

/// Appends the decimal representation of `n` to `s`.
pub fn push_decimal(s: &mut String, n: u64)
    ensures
        final(s)@ == old(s)@ + decimal(n as nat),
    decreases n,
{
    if n >= 10 {
        push_decimal(s, n / 10);
    }
    s.append(digit_str(n % 10));
    assert(final(s)@ =~= old(s)@ + decimal(n as nat));
}

/// Appends the decimal representation of the signed `i` to `s`.
pub fn push_signed_decimal(s: &mut String, i: i64)
    ensures
        final(s)@ == old(s)@ + signed_decimal(i as int),
{
    if i < 0 {
        proof {
            reveal_strlit("-");
        }
        s.append("-");
        let magnitude: u64 = if i == i64::MIN {
            9223372036854775808u64
        } else {
            (-i) as u64
        };
        push_decimal(s, magnitude);
        assert(final(s)@ =~= old(s)@ + signed_decimal(i as int));
    } else {
        push_decimal(s, i as u64);
    }
}

/// Appends the `width` last hexadecimal digits of `n`, zero padded, to `s`.
pub fn push_hex_padded(s: &mut String, n: u64, width: u64)
    ensures
        final(s)@ == old(s)@ + hex_padded(n as nat, width as nat),
    decreases width,
{
    if width > 0 {
        push_hex_padded(s, n / 16, width - 1);
        s.append(digit_str(n % 16));
        assert(final(s)@ =~= old(s)@ + hex_padded(n as nat, width as nat));
    }
}

} // verus!
