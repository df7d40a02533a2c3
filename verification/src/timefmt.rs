//! Decimal rendering of calendar dates and clock times, matching the
//! `YYYY-MM-DD HH:MM:SS` shape (with a choice of `T` or space between date
//! and time) and the optional fractional-second suffix.

use vstd::prelude::*;

verus! {

/// The decimal digit character of a value in 0..=9.
pub open spec fn dec_digit(d: int) -> char {
    if d == 0 {
        '0'
    } else if d == 1 {
        '1'
    } else if d == 2 {
        '2'
    } else if d == 3 {
        '3'
    } else if d == 4 {
        '4'
    } else if d == 5 {
        '5'
    } else if d == 6 {
        '6'
    } else if d == 7 {
        '7'
    } else if d == 8 {
        '8'
    } else {
        '9'
    }
}

/// The last `width` decimal digits of `n`, zero-padded on the left.
pub open spec fn spec_padn(n: int, width: int) -> Seq<char>
    decreases width,
{
    if width <= 1 {
        seq![dec_digit(n % 10)]
    } else {
        spec_padn(n / 10, width - 1) + seq![dec_digit(n % 10)]
    }
}

/// The decimal digits of a non-negative `n`, without padding.
pub open spec fn spec_udec(n: int) -> Seq<char>
    decreases n,
{
    if n < 10 {
        seq![dec_digit(n % 10)]
    } else {
        spec_udec(n / 10) + seq![dec_digit(n % 10)]
    }
}

/// A year as the calendar formats it: four zero-padded digits inside
/// 0..=9999, otherwise an explicit sign followed by at least four digits.
pub open spec fn spec_year(y: int) -> Seq<char> {
    if 0 <= y <= 9999 {
        spec_padn(y, 4)
    } else if y > 9999 {
        seq!['+'] + spec_udec(y)
    } else if y >= -9999 {
        seq!['-'] + spec_padn(-y, 4)
    } else {
        seq!['-'] + spec_udec(-y)
    }
}

/// A full date-and-time rendering, with `T` or a space between the two.
pub open spec fn spec_datetime_seq(
    y: int,
    mo: int,
    d: int,
    h: int,
    mi: int,
    s: int,
    t_sep: bool,
) -> Seq<char> {
    spec_year(y) + seq!['-'] + spec_padn(mo, 2) + seq!['-'] + spec_padn(d, 2) + (if t_sep {
        seq!['T']
    } else {
        seq![' ']
    }) + spec_padn(h, 2) + seq![':'] + spec_padn(mi, 2) + seq![':'] + spec_padn(s, 2)
}

/// The fractional-second suffix: empty for zero, else a dot and three, six or
/// nine digits, as short as the trailing zeros allow.
pub open spec fn spec_frac(n: int) -> Seq<char> {
    if n == 0 {
        Seq::<char>::empty()
    } else if n % 1000000 == 0 {
        seq!['.'] + spec_padn(n / 1000000, 3)
    } else if n % 1000 == 0 {
        seq!['.'] + spec_padn(n / 1000, 6)
    } else {
        seq!['.'] + spec_padn(n, 9)
    }
}

/// A date and time with a nanosecond count, rendered with a space separator;
/// a count of a second or more stands for a leap second and is folded into
/// the seconds field.
pub open spec fn spec_naive_datetime_seq(
    y: int,
    mo: int,
    d: int,
    h: int,
    mi: int,
    s: int,
    nano: int,
) -> Seq<char> {
    if nano >= 1000000000 {
        spec_datetime_seq(y, mo, d, h, mi, s + 1, false) + spec_frac(nano - 1000000000)
    } else {
        spec_datetime_seq(y, mo, d, h, mi, s, false) + spec_frac(nano)
    }
}

/// The bounds within which a calendar library hands out date and time parts.
pub open spec fn civil_in_range(y: int, mo: int, d: int, h: int, mi: int, s: int) -> bool {
    &&& -262143 <= y <= 262142
    &&& 1 <= mo <= 12
    &&& 1 <= d <= 31
    &&& 0 <= h <= 23
    &&& 0 <= mi <= 59
    &&& 0 <= s <= 59
}

/// True of a string that renders some in-range date and time; the seconds
/// field may reach 60, the printed form of a leap second.
pub open spec fn is_rendered_datetime(out: Seq<char>, t_sep: bool) -> bool {
    exists|y: int, mo: int, d: int, h: int, mi: int, s: int|
        civil_in_range(y, mo, d, h, mi, if s == 60 { 59int } else { s }) && 0 <= s <= 60 && out
            == spec_datetime_seq(y, mo, d, h, mi, s, t_sep)
}

/// The value of a decimal digit character; any other character maps to 9 and
/// is told apart by `is_digit_char`.
pub open spec fn digit_val(c: char) -> int {
    if c == '0' {
        0
    } else if c == '1' {
        1
    } else if c == '2' {
        2
    } else if c == '3' {
        3
    } else if c == '4' {
        4
    } else if c == '5' {
        5
    } else if c == '6' {
        6
    } else if c == '7' {
        7
    } else if c == '8' {
        8
    } else {
        9
    }
}

/// True exactly of the ten decimal digit characters.
pub open spec fn is_digit_char(c: char) -> bool {
    dec_digit(digit_val(c)) == c
}

/// True of a string of exactly the `YYYY-MM-DD HH:MM:SS` shape: nineteen
/// characters, digits in the six fields, the two dashes, the space and the
/// two colons in their places.
pub open spec fn is_plain_datetime_shape(s: Seq<char>) -> bool {
    &&& s.len() == 19
    &&& forall|i: int|
        (0 <= i <= 3 || i == 5 || i == 6 || i == 8 || i == 9 || i == 11 || i == 12 || i == 14
            || i == 15 || i == 17 || i == 18) ==> is_digit_char(#[trigger] s[i])
    &&& s[4] == '-'
    &&& s[7] == '-'
    &&& s[10] == ' '
    &&& s[13] == ':'
    &&& s[16] == ':'
}

/// The four-digit year written at the start of a shaped string.
pub open spec fn shape_year(s: Seq<char>) -> int {
    digit_val(s[0]) * 1000 + digit_val(s[1]) * 100 + digit_val(s[2]) * 10 + digit_val(s[3])
}

/// The two-digit field written at position `i` of a shaped string.
pub open spec fn shape_two(s: Seq<char>, i: int) -> int {
    digit_val(s[i]) * 10 + digit_val(s[i + 1])
}

proof fn lemma_padn_two_digits(a: int, b: int)
    requires
        0 <= a <= 9,
        0 <= b <= 9,
    ensures
        spec_padn(a * 10 + b, 2) == seq![dec_digit(a), dec_digit(b)],
{
    let n = a * 10 + b;
    assert(n / 10 == a && n % 10 == b && a % 10 == a) by (nonlinear_arith)
        requires
            0 <= a <= 9,
            0 <= b <= 9,
            n == a * 10 + b,
    ;
    assert(spec_padn(a, 1) =~= seq![dec_digit(a)]);
    assert(spec_padn(n, 2) =~= seq![dec_digit(a), dec_digit(b)]);
}

proof fn lemma_padn_four_digits(a: int, b: int, c: int, d: int)
    requires
        0 <= a <= 9,
        0 <= b <= 9,
        0 <= c <= 9,
        0 <= d <= 9,
    ensures
        spec_padn(a * 1000 + b * 100 + c * 10 + d, 4) == seq![
            dec_digit(a),
            dec_digit(b),
            dec_digit(c),
            dec_digit(d),
        ],
{
    let n = a * 1000 + b * 100 + c * 10 + d;
    assert(n % 10 == d && n / 10 == a * 100 + b * 10 + c) by (nonlinear_arith)
        requires
            0 <= a <= 9,
            0 <= b <= 9,
            0 <= c <= 9,
            0 <= d <= 9,
            n == a * 1000 + b * 100 + c * 10 + d,
    ;
    let m = a * 100 + b * 10 + c;
    assert(m % 10 == c && m / 10 == a * 10 + b) by (nonlinear_arith)
        requires
            0 <= a <= 9,
            0 <= b <= 9,
            0 <= c <= 9,
            m == a * 100 + b * 10 + c,
    ;
    lemma_padn_two_digits(a, b);
    assert(spec_padn(m, 3) =~= spec_padn(a * 10 + b, 2) + seq![dec_digit(c)]);
    assert(spec_padn(n, 4) =~= spec_padn(m, 3) + seq![dec_digit(d)]);
    assert(spec_padn(n, 4) =~= seq![dec_digit(a), dec_digit(b), dec_digit(c), dec_digit(d)]);
}

/// Law: rendering the fields read from a `YYYY-MM-DD HH:MM:SS` string with
/// the `T` separator gives back the string with only its space replaced.
pub proof fn lemma_shape_roundtrip(s: Seq<char>)
    requires
        is_plain_datetime_shape(s),
    ensures
        spec_datetime_seq(
            shape_year(s),
            shape_two(s, 5),
            shape_two(s, 8),
            shape_two(s, 11),
            shape_two(s, 14),
            shape_two(s, 17),
            true,
        ) == s.update(10, 'T'),
{
    let y = shape_year(s);
    assert(0 <= y <= 9999) by (nonlinear_arith)
        requires
            y == digit_val(s[0]) * 1000 + digit_val(s[1]) * 100 + digit_val(s[2]) * 10 + digit_val(
                s[3],
            ),
            0 <= digit_val(s[0]) <= 9,
            0 <= digit_val(s[1]) <= 9,
            0 <= digit_val(s[2]) <= 9,
            0 <= digit_val(s[3]) <= 9,
    ;
    lemma_padn_four_digits(digit_val(s[0]), digit_val(s[1]), digit_val(s[2]), digit_val(s[3]));
    lemma_padn_two_digits(digit_val(s[5]), digit_val(s[6]));
    lemma_padn_two_digits(digit_val(s[8]), digit_val(s[9]));
    lemma_padn_two_digits(digit_val(s[11]), digit_val(s[12]));
    lemma_padn_two_digits(digit_val(s[14]), digit_val(s[15]));
    lemma_padn_two_digits(digit_val(s[17]), digit_val(s[18]));
    assert(spec_year(y) == spec_padn(y, 4));
    assert(spec_datetime_seq(
        shape_year(s),
        shape_two(s, 5),
        shape_two(s, 8),
        shape_two(s, 11),
        shape_two(s, 14),
        shape_two(s, 17),
        true,
    ) =~= s.update(10, 'T'));
}

fn push_digit(s: &mut String, d: u32)
    requires
        d < 10,
    ensures
        final(s)@ == old(s)@ + seq![dec_digit(d as int)],
{
    match d {
        0 => {
            s.append("0");
            proof {
                reveal_strlit("0");
            }
        },
        1 => {
            s.append("1");
            proof {
                reveal_strlit("1");
            }
        },
        2 => {
            s.append("2");
            proof {
                reveal_strlit("2");
            }
        },
        3 => {
            s.append("3");
            proof {
                reveal_strlit("3");
            }
        },
        4 => {
            s.append("4");
            proof {
                reveal_strlit("4");
            }
        },
        5 => {
            s.append("5");
            proof {
                reveal_strlit("5");
            }
        },
        6 => {
            s.append("6");
            proof {
                reveal_strlit("6");
            }
        },
        7 => {
            s.append("7");
            proof {
                reveal_strlit("7");
            }
        },
        8 => {
            s.append("8");
            proof {
                reveal_strlit("8");
            }
        },
        9 => {
            s.append("9");
            proof {
                reveal_strlit("9");
            }
        },
        _ => {
            proof {
                assert(false);
            }
        },
    }
    proof {
        assert(s@ =~= old(s)@ + seq![dec_digit(d as int)]);
    }
}

fn push_padn(s: &mut String, n: u32, width: u32)
    requires
        width >= 1,
    ensures
        final(s)@ == old(s)@ + spec_padn(n as int, width as int),
    decreases width,
{
    if width == 1 {
        push_digit(s, n % 10);
    } else {
        push_padn(s, n / 10, width - 1);
        push_digit(s, n % 10);
        proof {
            assert(s@ =~= old(s)@ + spec_padn(n as int, width as int));
        }
    }
}

fn push_udec(s: &mut String, n: u32)
    ensures
        final(s)@ == old(s)@ + spec_udec(n as int),
    decreases n,
{
    if n >= 10 {
        proof {
            assert(n / 10 < n) by (nonlinear_arith)
                requires
                    n >= 10,
            ;
        }
        push_udec(s, n / 10);
        push_digit(s, n % 10);
        proof {
            assert(s@ =~= old(s)@ + spec_udec(n as int));
        }
    } else {
        push_digit(s, n % 10);
    }
}

fn push_year(s: &mut String, y: i32)
    requires
        -1000000000 <= y <= 1000000000,
    ensures
        final(s)@ == old(s)@ + spec_year(y as int),
{
    if 0 <= y && y <= 9999 {
        push_padn(s, y as u32, 4);
    } else if y > 9999 {
        s.append("+");
        proof {
            reveal_strlit("+");
        }
        push_udec(s, y as u32);
        proof {
            assert(s@ =~= old(s)@ + spec_year(y as int));
        }
    } else {
        s.append("-");
        proof {
            reveal_strlit("-");
        }
        let a: u32 = (-(y as i64)) as u32;
        if a <= 9999 {
            push_padn(s, a, 4);
        } else {
            push_udec(s, a);
        }
        proof {
            assert(s@ =~= old(s)@ + spec_year(y as int));
        }
    }
}

/// Renders a date and clock time, the shape a calendar library prints for
/// `YYYY-MM-DD HH:MM:SS`, with `T` in place of the space when asked.
pub fn format_timestamp_parts(
    y: i32,
    mo: u32,
    d: u32,
    h: u32,
    mi: u32,
    s: u32,
    t_sep: bool,
) -> (r: String)
    requires
        -1000000000 <= y <= 1000000000,
    ensures
        r@ == spec_datetime_seq(y as int, mo as int, d as int, h as int, mi as int, s as int, t_sep),
{
    let mut out = String::new();
    push_year(&mut out, y);
    out.append("-");
    push_padn(&mut out, mo, 2);
    out.append("-");
    push_padn(&mut out, d, 2);
    if t_sep {
        out.append("T");
    } else {
        out.append(" ");
    }
    push_padn(&mut out, h, 2);
    out.append(":");
    push_padn(&mut out, mi, 2);
    out.append(":");
    push_padn(&mut out, s, 2);
    proof {
        reveal_strlit("-");
        reveal_strlit("T");
        reveal_strlit(" ");
        reveal_strlit(":");
        assert(out@ =~= spec_datetime_seq(
            y as int,
            mo as int,
            d as int,
            h as int,
            mi as int,
            s as int,
            t_sep,
        ));
    }
    out
}

/// Renders a date and clock time together with a nanosecond count, the shape
/// a calendar library prints for a plain date-time value: the fraction is
/// omitted when zero and a leap second folds into the seconds field.
pub fn format_naive_datetime(y: i32, mo: u32, d: u32, h: u32, mi: u32, s: u32, nano: u32) -> (r:
    String)
    requires
        -1000000000 <= y <= 1000000000,
        s <= 59,
        nano < 2000000000,
    ensures
        r@ == spec_naive_datetime_seq(
            y as int,
            mo as int,
            d as int,
            h as int,
            mi as int,
            s as int,
            nano as int,
        ),
{
    let (s2, n2): (u32, u32) = if nano >= 1000000000 {
        (s + 1, nano - 1000000000)
    } else {
        (s, nano)
    };
    let mut out = format_timestamp_parts(y, mo, d, h, mi, s2, false);
    if n2 != 0 {
        out.append(".");
        proof {
            reveal_strlit(".");
        }
        if n2 % 1000000 == 0 {
            push_padn(&mut out, n2 / 1000000, 3);
        } else if n2 % 1000 == 0 {
            push_padn(&mut out, n2 / 1000, 6);
        } else {
            push_padn(&mut out, n2, 9);
        }
    }
    proof {
        assert(out@ =~= spec_naive_datetime_seq(
            y as int,
            mo as int,
            d as int,
            h as int,
            mi as int,
            s as int,
            nano as int,
        ));
    }
    out
}

} // verus!
