//! Fixed-width decimal formatting of civil times.
//!
//! A timestamp is rendered as `YYYY-MM-DDTHH:MM:SS+02:00`: the civil time in
//! the reference offset, which is the only offset this client ever prints.

use vstd::prelude::*;
use vstd::string::StringExecFns;

verus! {

/// The decimal digit character for `n` in 0..10.
pub open spec fn digit_char(n: int) -> char {
    if n == 0 {
        '0'
    } else if n == 1 {
        '1'
    } else if n == 2 {
        '2'
    } else if n == 3 {
        '3'
    } else if n == 4 {
        '4'
    } else if n == 5 {
        '5'
    } else if n == 6 {
        '6'
    } else if n == 7 {
        '7'
    } else if n == 8 {
        '8'
    } else {
        '9'
    }
}

/// `n` in 0..100 as two decimal digits, zero-padded.
pub open spec fn two_digits(n: int) -> Seq<char> {
    seq![digit_char(n / 10), digit_char(n % 10)]
}

/// `n` in 0..10000 as four decimal digits, zero-padded.
pub open spec fn four_digits(n: int) -> Seq<char> {
    seq![
        digit_char(n / 1000),
        digit_char((n / 100) % 10),
        digit_char((n / 10) % 10),
        digit_char(n % 10),
    ]
}

/// The RFC 3339 rendering of the civil time `y-mo-d hh:mi:ss` in the
/// reference offset, UTC+2.
pub open spec fn rfc3339_chars(y: int, mo: int, d: int, hh: int, mi: int, ss: int) -> Seq<char> {
    four_digits(y) + seq!['-'] + two_digits(mo) + seq!['-'] + two_digits(d) + seq!['T']
        + two_digits(hh) + seq![':'] + two_digits(mi) + seq![':'] + two_digits(ss) + seq![
        '+',
        '0',
        '2',
        ':',
        '0',
        '0',
    ]
}

/// As `rfc3339_chars`, with the time of day given in seconds since midnight.
pub open spec fn rfc3339_of_sod(y: int, mo: int, d: int, sod: int) -> Seq<char> {
    rfc3339_chars(y, mo, d, sod / 3600, (sod % 3600) / 60, sod % 60)
}

/// The one-character string for the decimal digit `n`.
fn digit_str(n: u32) -> (r: &'static str)
    requires
        n < 10,
    ensures
        r@ == seq![digit_char(n as int)],
{
    if n == 0 {
        proof {
            reveal_strlit("0");
            assert("0"@ =~= seq![digit_char(0)]);
        }
        "0"
    } else if n == 1 {
        proof {
            reveal_strlit("1");
            assert("1"@ =~= seq![digit_char(1)]);
        }
        "1"
    } else if n == 2 {
        proof {
            reveal_strlit("2");
            assert("2"@ =~= seq![digit_char(2)]);
        }
        "2"
    } else if n == 3 {
        proof {
            reveal_strlit("3");
            assert("3"@ =~= seq![digit_char(3)]);
        }
        "3"
    } else if n == 4 {
        proof {
            reveal_strlit("4");
            assert("4"@ =~= seq![digit_char(4)]);
        }
        "4"
    } else if n == 5 {
        proof {
            reveal_strlit("5");
            assert("5"@ =~= seq![digit_char(5)]);
        }
        "5"
    } else if n == 6 {
        proof {
            reveal_strlit("6");
            assert("6"@ =~= seq![digit_char(6)]);
        }
        "6"
    } else if n == 7 {
        proof {
            reveal_strlit("7");
            assert("7"@ =~= seq![digit_char(7)]);
        }
        "7"
    } else if n == 8 {
        proof {
            reveal_strlit("8");
            assert("8"@ =~= seq![digit_char(8)]);
        }
        "8"
    } else {
        proof {
            reveal_strlit("9");
            assert("9"@ =~= seq![digit_char(9)]);
        }
        "9"
    }
}

/// Appends `n` as two decimal digits, zero-padded.
fn push_two_digits(out: &mut String, n: u32)
    requires
        n < 100,
    ensures
        final(out)@ == old(out)@ + two_digits(n as int),
{
    let ghost start = out@;
    out.append(digit_str(n / 10));
    out.append(digit_str(n % 10));
    proof {
        assert(out@ =~= start + two_digits(n as int));
    }
}

/// Appends `n` as four decimal digits, zero-padded.
fn push_four_digits(out: &mut String, n: u32)
    requires
        n < 10000,
    ensures
        final(out)@ == old(out)@ + four_digits(n as int),
{
    let ghost start = out@;
    out.append(digit_str(n / 1000));
    out.append(digit_str((n / 100) % 10));
    out.append(digit_str((n / 10) % 10));
    out.append(digit_str(n % 10));
    proof {
        assert(out@ =~= start + four_digits(n as int));
    }
}

/// Renders the civil time `y-mo-d` plus `sod` seconds since midnight as an
/// RFC 3339 timestamp in the reference offset.
pub fn format_rfc3339(y: u32, mo: u32, d: u32, sod: u32) -> (r: String)
    requires
        y < 10000,
        mo < 100,
        d < 100,
        sod < 86400,
    ensures
        r@ == rfc3339_of_sod(y as int, mo as int, d as int, sod as int),
{
    let hh = sod / 3600;
    let mi = (sod % 3600) / 60;
    let ss = sod % 60;
    assert(hh < 24);
    assert(mi < 60);
    assert(ss < 60);
    let mut out = String::new();
    proof {
        reveal_strlit("-");
        reveal_strlit("T");
        reveal_strlit(":");
        reveal_strlit("+02:00");
        assert("-"@ =~= seq!['-']);
        assert("T"@ =~= seq!['T']);
        assert(":"@ =~= seq![':']);
        assert("+02:00"@ =~= seq!['+', '0', '2', ':', '0', '0']);
    }
    push_four_digits(&mut out, y);
    out.append("-");
    push_two_digits(&mut out, mo);
    out.append("-");
    push_two_digits(&mut out, d);
    out.append("T");
    push_two_digits(&mut out, hh);
    out.append(":");
    push_two_digits(&mut out, mi);
    out.append(":");
    push_two_digits(&mut out, ss);
    out.append("+02:00");
    proof {
        assert(out@ =~= rfc3339_of_sod(y as int, mo as int, d as int, sod as int));
    }
    out
}

} // verus!
