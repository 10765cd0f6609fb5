use vstd::prelude::*;

use crate::error::InitError;

verus! {

/// A severity threshold for log records, ordered from `Off` (nothing
/// passes) up to `Trace` (everything passes).
///
/// The same enum serves both as the filter installed at initialization and
/// as the severity a record carries; records themselves never carry `Off`.
#[derive(Clone, Copy, Debug, PartialEq, Eq, Structural)]
pub enum Level {
    Off,
    Error,
    Warn,
    Info,
    Debug,
    Trace,
}

/// Numeric rank of a level: `Off` is 0 and `Trace` is 5. A record passes a
/// filter exactly when its rank is at most the filter's rank.
pub open spec fn severity(l: Level) -> nat {
    match l {
        Level::Off => 0,
        Level::Error => 1,
        Level::Warn => 2,
        Level::Info => 3,
        Level::Debug => 4,
        Level::Trace => 5,
    }
}

/// Whether a record at severity `record` passes a filter set to `filter`.
/// `Off` never passes: it is a threshold, not a record severity.
pub open spec fn spec_enabled(filter: Level, record: Level) -> bool {
    record != Level::Off && severity(record) <= severity(filter)
}

/// Rank of `l` as a machine integer.
pub fn severity_of(l: Level) -> (n: u8)
    ensures
        n as nat == severity(l),
{
    match l {
        Level::Off => 0,
        Level::Error => 1,
        Level::Warn => 2,
        Level::Info => 3,
        Level::Debug => 4,
        Level::Trace => 5,
    }
}

/// The cheap short-circuit applied before a record is formatted: records
/// above the configured threshold are discarded.
pub fn enabled(filter: Level, record: Level) -> (b: bool)
    ensures
        b == spec_enabled(filter, record),
{
    let is_off = match record {
        Level::Off => true,
        _ => false,
    };
    !is_off && severity_of(record) <= severity_of(filter)
}

/// ASCII case folding of a single character: uppercase letters map to their
/// lowercase counterparts and every other character stays itself.
pub open spec fn fold_char(c: char) -> char {
    if c == 'A' {
        'a'
    } else if c == 'B' {
        'b'
    } else if c == 'C' {
        'c'
    } else if c == 'D' {
        'd'
    } else if c == 'E' {
        'e'
    } else if c == 'F' {
        'f'
    } else if c == 'G' {
        'g'
    } else if c == 'H' {
        'h'
    } else if c == 'I' {
        'i'
    } else if c == 'J' {
        'j'
    } else if c == 'K' {
        'k'
    } else if c == 'L' {
        'l'
    } else if c == 'M' {
        'm'
    } else if c == 'N' {
        'n'
    } else if c == 'O' {
        'o'
    } else if c == 'P' {
        'p'
    } else if c == 'Q' {
        'q'
    } else if c == 'R' {
        'r'
    } else if c == 'S' {
        's'
    } else if c == 'T' {
        't'
    } else if c == 'U' {
        'u'
    } else if c == 'V' {
        'v'
    } else if c == 'W' {
        'w'
    } else if c == 'X' {
        'x'
    } else if c == 'Y' {
        'y'
    } else if c == 'Z' {
        'z'
    } else {
        c
    }
}

/// ASCII case folding of a whole character sequence.
pub open spec fn fold_seq(s: Seq<char>) -> Seq<char> {
    s.map_values(|c: char| fold_char(c))
}

/// Executable counterpart of `fold_char`.
fn fold_char_exec(c: char) -> (r: char)
    ensures
        r == fold_char(c),
{
    if c == 'A' {
        'a'
    } else if c == 'B' {
        'b'
    } else if c == 'C' {
        'c'
    } else if c == 'D' {
        'd'
    } else if c == 'E' {
        'e'
    } else if c == 'F' {
        'f'
    } else if c == 'G' {
        'g'
    } else if c == 'H' {
        'h'
    } else if c == 'I' {
        'i'
    } else if c == 'J' {
        'j'
    } else if c == 'K' {
        'k'
    } else if c == 'L' {
        'l'
    } else if c == 'M' {
        'm'
    } else if c == 'N' {
        'n'
    } else if c == 'O' {
        'o'
    } else if c == 'P' {
        'p'
    } else if c == 'Q' {
        'q'
    } else if c == 'R' {
        'r'
    } else if c == 'S' {
        's'
    } else if c == 'T' {
        't'
    } else if c == 'U' {
        'u'
    } else if c == 'V' {
        'v'
    } else if c == 'W' {
        'w'
    } else if c == 'X' {
        'x'
    } else if c == 'Y' {
        'y'
    } else if c == 'Z' {
        'z'
    } else {
        c
    }
}

/// Whether `s`, after ASCII case folding, equals the (already folded)
/// keyword `kw`.
fn eq_folded(s: &str, kw: &str) -> (r: bool)
    ensures
        r == (fold_seq(s@) == kw@),
{
    let n = s.unicode_len();
    let m = kw.unicode_len();
    if n != m {
        proof {
            assert(fold_seq(s@).len() != kw@.len());
        }
        return false;
    }
    let mut i: usize = 0;
    while i < n
        invariant
            i <= n,
            n == s@.len(),
            n == kw@.len(),
            forall|j: int| 0 <= j < i ==> fold_char(s@[j]) == kw@[j],
        decreases n - i,
    {
        let cs = s.get_char(i);
        let ck = kw.get_char(i);
        if fold_char_exec(cs) != ck {
            proof {
                assert(fold_seq(s@)[i as int] != kw@[i as int]);
            }
            return false;
        }
        i += 1;
    }
    proof {
        assert(fold_seq(s@) =~= kw@);
    }
    true
}

/// The level named by `s`, compared case-insensitively against the six
/// recognized names, or `None` when `s` names no level.
pub open spec fn spec_parse_level(s: Seq<char>) -> Option<Level> {
    if fold_seq(s) == "off"@ {
        Some(Level::Off)
    } else if fold_seq(s) == "error"@ {
        Some(Level::Error)
    } else if fold_seq(s) == "warn"@ {
        Some(Level::Warn)
    } else if fold_seq(s) == "info"@ {
        Some(Level::Info)
    } else if fold_seq(s) == "debug"@ {
        Some(Level::Debug)
    } else if fold_seq(s) == "trace"@ {
        Some(Level::Trace)
    } else {
        None
    }
}

/// Parses a threshold string. Exactly the ASCII case variants of the six
/// recognized names are accepted; anything else is an `InvalidLevel`
/// configuration error.
pub fn parse_level(s: &str) -> (r: Result<Level, InitError>)
    ensures
        match r {
            Ok(l) => spec_parse_level(s@) == Some(l),
            Err(e) => e == InitError::InvalidLevel && spec_parse_level(s@) is None,
        },
{
    if eq_folded(s, "off") {
        Ok(Level::Off)
    } else if eq_folded(s, "error") {
        Ok(Level::Error)
    } else if eq_folded(s, "warn") {
        Ok(Level::Warn)
    } else if eq_folded(s, "info") {
        Ok(Level::Info)
    } else if eq_folded(s, "debug") {
        Ok(Level::Debug)
    } else if eq_folded(s, "trace") {
        Ok(Level::Trace)
    } else {
        Err(InitError::InvalidLevel)
    }
}

/// The uppercase name a level prints as in a formatted record line.
pub open spec fn level_label(l: Level) -> Seq<char> {
    match l {
        Level::Off => "OFF"@,
        Level::Error => "ERROR"@,
        Level::Warn => "WARN"@,
        Level::Info => "INFO"@,
        Level::Debug => "DEBUG"@,
        Level::Trace => "TRACE"@,
    }
}

/// Executable counterpart of `level_label`.
pub fn level_label_str(l: Level) -> (r: &'static str)
    ensures
        r@ == level_label(l),
{
    match l {
        Level::Off => "OFF",
        Level::Error => "ERROR",
        Level::Warn => "WARN",
        Level::Info => "INFO",
        Level::Debug => "DEBUG",
        Level::Trace => "TRACE",
    }
}

/// Case folding is idempotent: folding a character twice folds it once.
proof fn lemma_fold_char_idempotent(c: char)
    ensures
        fold_char(fold_char(c)) == fold_char(c),
{
}

/// The recognized set is closed under ASCII case variation: a string parses
/// exactly as its case-folded form does.
pub proof fn lemma_parse_ignores_ascii_case(s: Seq<char>)
    ensures
        spec_parse_level(s) == spec_parse_level(fold_seq(s)),
{
    assert(fold_seq(fold_seq(s)) =~= fold_seq(s)) by {
        assert forall|i: int| 0 <= i < s.len() implies fold_seq(fold_seq(s))[i] == fold_seq(
            s,
        )[i] by {
            lemma_fold_char_idempotent(s[i]);
        }
    }
}

/// Every string in the recognized set parses to its expected threshold.
pub proof fn lemma_recognized_levels_parse()
    ensures
        spec_parse_level("off"@) == Some(Level::Off),
        spec_parse_level("error"@) == Some(Level::Error),
        spec_parse_level("warn"@) == Some(Level::Warn),
        spec_parse_level("info"@) == Some(Level::Info),
        spec_parse_level("debug"@) == Some(Level::Debug),
        spec_parse_level("trace"@) == Some(Level::Trace),
{
    reveal_strlit("off");
    reveal_strlit("error");
    reveal_strlit("warn");
    reveal_strlit("info");
    reveal_strlit("debug");
    reveal_strlit("trace");
    assert(fold_seq("off"@) =~= "off"@);
    assert(fold_seq("error"@) =~= "error"@);
    assert(fold_seq("warn"@) =~= "warn"@);
    assert(fold_seq("info"@) =~= "info"@);
    assert(fold_seq("debug"@) =~= "debug"@);
    assert(fold_seq("trace"@) =~= "trace"@);
    assert("off"@ != "error"@);
    assert("off"@ != "warn"@);
    assert("off"@ != "info"@);
    assert("off"@ != "debug"@);
    assert("off"@ != "trace"@);
    assert("error"@ != "warn"@);
    assert("error"@ != "info"@);
    assert("error"@[0] != "debug"@[0]);
    assert("error"@ != "debug"@);
    assert("error"@[0] != "trace"@[0]);
    assert("error"@ != "trace"@);
    assert("warn"@[0] != "info"@[0]);
    assert("warn"@ != "info"@);
    assert("warn"@ != "debug"@);
    assert("warn"@ != "trace"@);
    assert("info"@ != "debug"@);
    assert("info"@ != "trace"@);
    assert("debug"@ != "trace"@);
}

} // verus!
