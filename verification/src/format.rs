use vstd::prelude::*;

use crate::level::{level_label, level_label_str, Level};

verus! {

/// The single line a record is written as:
/// `[<timestamp>] - <LEVEL> - [<target>] <message>`.
pub open spec fn spec_line(
    ts: Seq<char>,
    level: Level,
    target: Seq<char>,
    msg: Seq<char>,
) -> Seq<char> {
    "["@ + ts + "] - "@ + level_label(level) + " - ["@ + target + "] "@ + msg
}

/// Lays out one record as a line, with the timestamp supplied by the
/// caller. Every record the sink writes goes through this layout.
pub fn format_line(ts: &str, level: Level, target: &str, msg: &str) -> (r: String)
    ensures
        r@ == spec_line(ts@, level, target@, msg@),
{
    let mut out = String::from_str("[");
    out.append(ts);
    out.append("] - ");
    out.append(level_label_str(level));
    out.append(" - [");
    out.append(target);
    out.append("] ");
    out.append(msg);
    out
}

/// Relies on chrono's `Local::now` and `DateTime::to_rfc3339_opts`: the
/// current local wall-clock time rendered as an RFC 3339 timestamp with
/// second resolution (`use_z` collapses a zero offset to `Z`). The value
/// depends on the clock, so only the minimum length of the rendering —
/// date, `T`, time, and at least one offset character — is stated.
#[verifier::external_body]
fn now_rfc3339_seconds() -> (r: String)
    ensures
        r@.len() >= 20,
{
    chrono::Local::now().to_rfc3339_opts(chrono::SecondsFormat::Secs, true)
}

/// Lays out one record as a line, stamped with the current local time.
/// Whatever the clock reads, the result is the record laid out around some
/// timestamp.
pub fn format_record(level: Level, target: &str, msg: &str) -> (r: String)
    ensures
        exists|ts: Seq<char>| r@ == spec_line(ts, level, target@, msg@),
{
    let ts = now_rfc3339_seconds();
    let r = format_line(ts.as_str(), level, target, msg);
    proof {
        assert(r@ == spec_line(ts@, level, target@, msg@));
    }
    r
}

} // verus!
