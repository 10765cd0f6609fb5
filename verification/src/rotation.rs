use vstd::prelude::*;

use vstd::arithmetic::div_mod::{
    lemma_div_denominator, lemma_fundamental_div_mod, lemma_mod_division_less_than_divisor,
    lemma_multiply_divide_lt,
};

verus! {

/// A calendar day, as the rotation policy sees it: one log file per day.
///
/// Only the fields the file name is built from are held; whether the day
/// exists in the calendar (leap years, month lengths) is no concern of the
/// naming scheme, which accepts any day number up to 31.
#[derive(Clone, Copy, Debug, PartialEq, Eq, Structural)]
pub struct Date {
    pub year: u16,
    pub month: u8,
    pub day: u8,
}

/// Well-formedness of a date: four-digit year, and month and day in their
/// calendar ranges.
pub open spec fn date_wf(d: Date) -> bool {
    &&& d.year <= 9999
    &&& 1 <= d.month <= 12
    &&& 1 <= d.day <= 31
}

impl Date {
    /// Builds a date, rejecting fields outside the ranges a file name can
    /// carry.
    pub fn new(year: u16, month: u8, day: u8) -> (r: Option<Date>)
        ensures
            match r {
                Some(d) => d == (Date { year, month, day }) && date_wf(d),
                None => !date_wf(Date { year, month, day }),
            },
    {
        if year <= 9999 && 1 <= month && month <= 12 && 1 <= day && day <= 31 {
            Some(Date { year, month, day })
        } else {
            None
        }
    }
}

/// The decimal digit character for `d`; meaningful for `0 <= d <= 9`.
pub open spec fn digit_char(d: int) -> char {
    if d == 0 {
        '0'
    } else if d == 1 {
        '1'
    } else if d == 2 {
        '2'
    } else if d == 3 {
        '3'
    } else if d == 4 {
        '4'
    } else if d == 5 {
        '5'
    } else if d == 6 {
        '6'
    } else if d == 7 {
        '7'
    } else if d == 8 {
        '8'
    } else {
        '9'
    }
}

/// `n` rendered as exactly two decimal digits; meaningful for `n < 100`.
pub open spec fn two_digits(n: int) -> Seq<char> {
    seq![digit_char(n / 10), digit_char(n % 10)]
}

/// `n` rendered as exactly four decimal digits; meaningful for `n < 10000`.
pub open spec fn four_digits(n: int) -> Seq<char> {
    seq![
        digit_char(n / 1000),
        digit_char(n / 100 % 10),
        digit_char(n / 10 % 10),
        digit_char(n % 10),
    ]
}

/// The name of the log file written on day `d`: the fixed prefix, then the
/// zero-padded date, `bendsql.YYYY-MM-DD`.
pub open spec fn spec_daily_file_name(d: Date) -> Seq<char> {
    "bendsql."@ + four_digits(d.year as int) + "-"@ + two_digits(d.month as int) + "-"@
        + two_digits(d.day as int)
}

/// Executable counterpart of `digit_char`.
fn digit_str(d: u16) -> (r: &'static str)
    requires
        d < 10,
    ensures
        r@ == seq![digit_char(d as int)],
{
    if d == 0 {
        proof {
            reveal_strlit("0");
        }
        "0"
    } else if d == 1 {
        proof {
            reveal_strlit("1");
        }
        "1"
    } else if d == 2 {
        proof {
            reveal_strlit("2");
        }
        "2"
    } else if d == 3 {
        proof {
            reveal_strlit("3");
        }
        "3"
    } else if d == 4 {
        proof {
            reveal_strlit("4");
        }
        "4"
    } else if d == 5 {
        proof {
            reveal_strlit("5");
        }
        "5"
    } else if d == 6 {
        proof {
            reveal_strlit("6");
        }
        "6"
    } else if d == 7 {
        proof {
            reveal_strlit("7");
        }
        "7"
    } else if d == 8 {
        proof {
            reveal_strlit("8");
        }
        "8"
    } else {
        proof {
            reveal_strlit("9");
        }
        "9"
    }
}

/// Appends `n` to `out` as two zero-padded decimal digits.
fn push_two_digits(out: &mut String, n: u16)
    requires
        n < 100,
    ensures
        final(out)@ == old(out)@ + two_digits(n as int),
{
    out.append(digit_str(n / 10));
    out.append(digit_str(n % 10));
}

/// Appends `n` to `out` as four zero-padded decimal digits.
fn push_four_digits(out: &mut String, n: u16)
    requires
        n < 10000,
    ensures
        final(out)@ == old(out)@ + four_digits(n as int),
{
    out.append(digit_str(n / 1000));
    out.append(digit_str(n / 100 % 10));
    out.append(digit_str(n / 10 % 10));
    out.append(digit_str(n % 10));
}

/// The file name the daily rotation writes to on day `d`.
pub fn daily_file_name(d: Date) -> (r: String)
    requires
        date_wf(d),
    ensures
        r@ == spec_daily_file_name(d),
{
    let mut out = String::from_str("bendsql.");
    push_four_digits(&mut out, d.year);
    out.append("-");
    push_two_digits(&mut out, d.month as u16);
    out.append("-");
    push_two_digits(&mut out, d.day as u16);
    out
}

/// The full path of the log file written on day `d` under `dir`.
pub fn log_file_path(dir: &str, d: Date) -> (r: String)
    requires
        date_wf(d),
    ensures
        r@ == dir@ + "/"@ + spec_daily_file_name(d),
{
    let mut out = String::from_str(dir);
    out.append("/");
    let name = daily_file_name(d);
    out.append(name.as_str());
    out
}

/// Every daily file name is 18 characters and starts with the fixed
/// `bendsql.` prefix.
pub proof fn lemma_file_name_shape(d: Date)
    requires
        date_wf(d),
    ensures
        spec_daily_file_name(d).len() == 18,
        spec_daily_file_name(d).subrange(0, 8) == "bendsql."@,
{
    reveal_strlit("bendsql.");
    reveal_strlit("-");
    assert(spec_daily_file_name(d).subrange(0, 8) =~= "bendsql."@);
}

/// `digit_char` tells digits apart.
proof fn lemma_digit_char_injective(x: int, y: int)
    requires
        0 <= x < 10,
        0 <= y < 10,
        digit_char(x) == digit_char(y),
    ensures
        x == y,
{
}

/// A number below 100 is recovered from its two digits.
proof fn lemma_two_digits_injective(x: int, y: int)
    requires
        0 <= x < 100,
        0 <= y < 100,
        two_digits(x) == two_digits(y),
    ensures
        x == y,
{
    lemma_mod_division_less_than_divisor(x, 10);
    lemma_mod_division_less_than_divisor(y, 10);
    lemma_multiply_divide_lt(x, 10, 10);
    lemma_multiply_divide_lt(y, 10, 10);
    assert(two_digits(x)[0] == two_digits(y)[0]);
    assert(two_digits(x)[1] == two_digits(y)[1]);
    lemma_digit_char_injective(x / 10, y / 10);
    lemma_digit_char_injective(x % 10, y % 10);
    lemma_fundamental_div_mod(x, 10);
    lemma_fundamental_div_mod(y, 10);
}

/// A number below 10000 is recovered from its four digits.
proof fn lemma_four_digits_injective(x: int, y: int)
    requires
        0 <= x < 10000,
        0 <= y < 10000,
        four_digits(x) == four_digits(y),
    ensures
        x == y,
{
    lemma_mod_division_less_than_divisor(x, 10);
    lemma_mod_division_less_than_divisor(y, 10);
    lemma_mod_division_less_than_divisor(x / 10, 10);
    lemma_mod_division_less_than_divisor(y / 10, 10);
    lemma_mod_division_less_than_divisor(x / 100, 10);
    lemma_mod_division_less_than_divisor(y / 100, 10);
    lemma_multiply_divide_lt(x, 1000, 10);
    lemma_multiply_divide_lt(y, 1000, 10);
    assert(four_digits(x)[0] == four_digits(y)[0]);
    assert(four_digits(x)[1] == four_digits(y)[1]);
    assert(four_digits(x)[2] == four_digits(y)[2]);
    assert(four_digits(x)[3] == four_digits(y)[3]);
    lemma_digit_char_injective(x / 1000, y / 1000);
    lemma_digit_char_injective(x / 100 % 10, y / 100 % 10);
    lemma_digit_char_injective(x / 10 % 10, y / 10 % 10);
    lemma_digit_char_injective(x % 10, y % 10);
    lemma_fundamental_div_mod(x, 10);
    lemma_fundamental_div_mod(x / 10, 10);
    lemma_fundamental_div_mod(x / 100, 10);
    lemma_div_denominator(x, 10, 10);
    lemma_div_denominator(x / 10, 10, 10);
    lemma_div_denominator(x, 100, 10);
    lemma_fundamental_div_mod(y, 10);
    lemma_fundamental_div_mod(y / 10, 10);
    lemma_fundamental_div_mod(y / 100, 10);
    lemma_div_denominator(y, 10, 10);
    lemma_div_denominator(y / 10, 10, 10);
    lemma_div_denominator(y, 100, 10);
    assert((x / 10) / 10 == x / 100);
    assert((y / 10) / 10 == y / 100);
    assert((x / 100) / 10 == x / 1000);
    assert((y / 100) / 10 == y / 1000);
}

/// Writing on two different days produces two distinct files, both named
/// under the fixed prefix.
pub proof fn lemma_distinct_days_distinct_names(a: Date, b: Date)
    requires
        date_wf(a),
        date_wf(b),
        a != b,
    ensures
        spec_daily_file_name(a) != spec_daily_file_name(b),
{
    reveal_strlit("bendsql.");
    reveal_strlit("-");
    let na = spec_daily_file_name(a);
    let nb = spec_daily_file_name(b);
    if na == nb {
        assert forall|i: int| 0 <= i < 18 implies na[i] == nb[i] by {
            lemma_file_name_shape(a);
            lemma_file_name_shape(b);
        }
        assert(four_digits(a.year as int) =~= na.subrange(8, 12));
        assert(four_digits(b.year as int) =~= nb.subrange(8, 12));
        assert(four_digits(a.year as int) =~= four_digits(b.year as int));
        lemma_four_digits_injective(a.year as int, b.year as int);
        assert(two_digits(a.month as int) =~= na.subrange(13, 15));
        assert(two_digits(b.month as int) =~= nb.subrange(13, 15));
        assert(two_digits(a.month as int) =~= two_digits(b.month as int));
        lemma_two_digits_injective(a.month as int, b.month as int);
        assert(two_digits(a.day as int) =~= na.subrange(16, 18));
        assert(two_digits(b.day as int) =~= nb.subrange(16, 18));
        assert(two_digits(a.day as int) =~= two_digits(b.day as int));
        lemma_two_digits_injective(a.day as int, b.day as int);
        assert(a == b);
    }
}

} // verus!
