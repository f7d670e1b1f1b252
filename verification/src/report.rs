//! The reporter's formatting step. From a snapshot of the four visit
//! counters it builds one ASCII status line: the dwell ratio of macro
//! state 0 with three decimal places, the four counts, and the total,
//! space-separated and terminated `\r\n`. The ratio `4 * count0 /
//! total` is computed in fixed point (thousandths, rounded to
//! nearest) so that the whole path is exact integer arithmetic. A
//! snapshot with no transitions yet has no defined ratio: the
//! formatter reports nothing until the total is positive.

use vstd::prelude::*;

use vstd::string::StringExecFns;

use crate::counters::VisitCounters;

verus! {

/// The decimal digit character of `d`.
pub open spec fn spec_digit_char(d: int) -> char {
    if d == 0 {
        '0'
    } else if d == 1 {
        '1'
    } else if d == 2 {
        '2'
    } else if d == 3 {
        '3'
    } else if d == 4 {
        '4'
    } else if d == 5 {
        '5'
    } else if d == 6 {
        '6'
    } else if d == 7 {
        '7'
    } else if d == 8 {
        '8'
    } else {
        '9'
    }
}

/// The decimal digits of `n`, most significant first, no leading
/// zeros (a single `'0'` for zero).
pub open spec fn spec_dec(n: nat) -> Seq<char>
    decreases n,
{
    if n < 10 {
        seq![spec_digit_char(n as int)]
    } else {
        spec_dec(n / 10).push(spec_digit_char((n % 10) as int))
    }
}

/// Three decimal digits of `f < 1000`, zero-padded.
pub open spec fn spec_frac3(f: nat) -> Seq<char> {
    seq![
        spec_digit_char((f / 100) as int % 10),
        spec_digit_char((f / 10) as int % 10),
        spec_digit_char(f as int % 10),
    ]
}

/// The ratio `4 * c0 / total` in thousandths, rounded to nearest.
pub open spec fn spec_ratio_milli(c0: nat, total: nat) -> int {
    (4000 * c0 + total / 2) as int / total as int
}

/// The whole status line for a counter snapshot with a positive
/// total: ratio with three decimals, the four counts, the total,
/// space-separated, terminated `\r\n`.
pub open spec fn spec_line(c0: nat, c1: nat, c2: nat, c3: nat) -> Seq<char> {
    let total = c0 + c1 + c2 + c3;
    let milli = spec_ratio_milli(c0, total);
    spec_dec((milli / 1000) as nat) + seq!['.'] + spec_frac3((milli % 1000) as nat) + seq![' ']
        + spec_dec(c0) + seq![' '] + spec_dec(c1) + seq![' '] + spec_dec(c2) + seq![' ']
        + spec_dec(c3) + seq![' '] + spec_dec(total) + seq!['\r', '\n']
}

/// The one-character string of the digit `d`.
fn digit_str(d: u64) -> (s: &'static str)
    requires
        d < 10,
    ensures
        s@ == seq![spec_digit_char(d as int)],
{
    if d == 0 {
        proof {
            reveal_strlit("0");
            assert("0"@ =~= seq!['0']);
        }
        "0"
    } else if d == 1 {
        proof {
            reveal_strlit("1");
            assert("1"@ =~= seq!['1']);
        }
        "1"
    } else if d == 2 {
        proof {
            reveal_strlit("2");
            assert("2"@ =~= seq!['2']);
        }
        "2"
    } else if d == 3 {
        proof {
            reveal_strlit("3");
            assert("3"@ =~= seq!['3']);
        }
        "3"
    } else if d == 4 {
        proof {
            reveal_strlit("4");
            assert("4"@ =~= seq!['4']);
        }
        "4"
    } else if d == 5 {
        proof {
            reveal_strlit("5");
            assert("5"@ =~= seq!['5']);
        }
        "5"
    } else if d == 6 {
        proof {
            reveal_strlit("6");
            assert("6"@ =~= seq!['6']);
        }
        "6"
    } else if d == 7 {
        proof {
            reveal_strlit("7");
            assert("7"@ =~= seq!['7']);
        }
        "7"
    } else if d == 8 {
        proof {
            reveal_strlit("8");
            assert("8"@ =~= seq!['8']);
        }
        "8"
    } else {
        proof {
            reveal_strlit("9");
            assert("9"@ =~= seq!['9']);
        }
        "9"
    }
}

/// Append the decimal digits of `n` to `out`.
fn push_dec(out: &mut String, n: u64)
    ensures
        final(out)@ == old(out)@ + spec_dec(n as nat),
    decreases n,
{
    if n >= 10 {
        push_dec(out, n / 10);
    }
    let s = digit_str(n % 10);
    out.append(s);
    proof {
        if n < 10 {
            assert(out@ =~= old(out)@ + spec_dec(n as nat));
        } else {
            assert(spec_dec(n as nat) == spec_dec((n as nat) / 10).push(
                spec_digit_char(((n as nat) % 10) as int),
            ));
            assert(out@ =~= old(out)@ + spec_dec(n as nat));
        }
    }
}

/// Append the three zero-padded fractional digits of `f < 1000`.
fn push_frac3(out: &mut String, f: u64)
    requires
        f < 1000,
    ensures
        final(out)@ == old(out)@ + spec_frac3(f as nat),
{
    let s0 = digit_str(f / 100);
    out.append(s0);
    let s1 = digit_str((f / 10) % 10);
    out.append(s1);
    let s2 = digit_str(f % 10);
    out.append(s2);
    proof {
        assert(out@ =~= old(out)@ + spec_frac3(f as nat));
    }
}

/// Format the status line for one counter snapshot. Returns `None`
/// exactly when no transition has been counted yet (total zero, no
/// defined ratio); otherwise the line is exactly `spec_line` of the
/// four counts.
pub fn format_line(c0: u32, c1: u32, c2: u32, c3: u32) -> (r: Option<String>)
    ensures
        r is None <==> c0 == 0 && c1 == 0 && c2 == 0 && c3 == 0,
        r matches Some(line) ==> line@ == spec_line(c0 as nat, c1 as nat, c2 as nat, c3 as nat),
{
    let total: u64 = c0 as u64 + c1 as u64 + c2 as u64 + c3 as u64;
    if total == 0 {
        return None;
    }
    let milli: u64 = (4000 * (c0 as u64) + total / 2) / total;
    let mut out = String::new();
    push_dec(&mut out, milli / 1000);
    proof {
        reveal_strlit(".");
        assert("."@ =~= seq!['.']);
        reveal_strlit(" ");
        assert(" "@ =~= seq![' ']);
        reveal_strlit("\r\n");
        assert("\r\n"@ =~= seq!['\r', '\n']);
    }
    out.append(".");
    push_frac3(&mut out, milli % 1000);
    out.append(" ");
    push_dec(&mut out, c0 as u64);
    out.append(" ");
    push_dec(&mut out, c1 as u64);
    out.append(" ");
    push_dec(&mut out, c2 as u64);
    out.append(" ");
    push_dec(&mut out, c3 as u64);
    out.append(" ");
    push_dec(&mut out, total);
    out.append("\r\n");
    proof {
        assert(out@ =~= spec_line(c0 as nat, c1 as nat, c2 as nat, c3 as nat));
    }
    Some(out)
}

/// The reporter's formatting step on a counter snapshot: one status
/// line while any transition has been counted, nothing before.
pub fn report_line(c: &VisitCounters) -> (r: Option<String>)
    ensures
        r is None <==> c.total() == 0,
        r matches Some(line) ==> line@ == spec_line(
            c.c0 as nat,
            c.c1 as nat,
            c.c2 as nat,
            c.c3 as nat,
        ),
{
    format_line(c.c0, c.c1, c.c2, c.c3)
}

/// Formatting is a pure function of the counter snapshot: the same
/// four counts always yield the same line, byte for byte, however
/// often the step runs.
pub proof fn lemma_line_deterministic(a: Seq<char>, b: Seq<char>, c0: nat, c1: nat, c2: nat, c3: nat)
    requires
        a == spec_line(c0, c1, c2, c3),
        b == spec_line(c0, c1, c2, c3),
    ensures
        a == b,
{
}

} // verus!
