use vstd::prelude::*;

verus! {

/// What one line of the encoder's progress stream means: the stream is over,
/// the encode has reached a position (in microseconds), or the line carries
/// nothing usable and is skipped.
#[derive(Clone, Copy, Debug, PartialEq, Eq, Structural)]
pub enum ProgressUpdate {
    End,
    Position(u64),
    Ignore,
}

pub open spec fn is_digit_spec(c: char) -> bool {
    48 <= c as int <= 57
}

pub open spec fn digit_val(c: char) -> int {
    c as int - 48
}

/// The sequence consists of at least one decimal digit.
pub open spec fn all_digits(s: Seq<char>) -> bool {
    s.len() > 0 && forall|i: int| 0 <= i < s.len() ==> is_digit_spec(s[i])
}

/// The number the digit sequence denotes, most significant digit first.
pub open spec fn digits_value(s: Seq<char>) -> int
    decreases s.len(),
{
    if s.len() == 0 {
        0
    } else {
        digits_value(s.drop_last()) * 10 + digit_val(s.last())
    }
}

/// The digits of an unsigned decimal literal: a single leading `+` is
/// allowed, as in Rust's own string-to-integer parsing.
pub open spec fn u64_literal(s: Seq<char>) -> Seq<char> {
    if s.len() > 0 && s[0] == '+' {
        s.skip(1)
    } else {
        s
    }
}

/// Whether Rust's `str::parse::<u64>` accepts the string: an optional `+`,
/// then one or more digits, denoting a value that fits in a `u64`.
pub open spec fn parses_as_u64(s: Seq<char>) -> bool {
    all_digits(u64_literal(s)) && digits_value(u64_literal(s)) <= u64::MAX
}

pub open spec fn u64_value(s: Seq<char>) -> int {
    digits_value(u64_literal(s))
}

/// What the parser makes of one line: exactly the termination marker ends the
/// stream; a well-formed `out_time_us=<integer>` line is a position; any
/// other line - including a position key with an unparseable value - is
/// skipped and never an error.
pub open spec fn parse_line_spec(s: Seq<char>) -> ProgressUpdate {
    if s == "progress=end"@ {
        ProgressUpdate::End
    } else if s.len() >= "out_time_us="@.len() && s.subrange(0, "out_time_us="@.len() as int)
        == "out_time_us="@ {
        if parses_as_u64(s.skip("out_time_us="@.len() as int)) {
            ProgressUpdate::Position(u64_value(s.skip("out_time_us="@.len() as int)) as u64)
        } else {
            ProgressUpdate::Ignore
        }
    } else {
        ProgressUpdate::Ignore
    }
}

/// A line the parser acts on: the termination marker, or a position report
/// whose value parses.
pub open spec fn recognized_shape(s: Seq<char>) -> bool {
    ||| s == "progress=end"@
    ||| (s.len() >= "out_time_us="@.len() && s.subrange(0, "out_time_us="@.len() as int)
        == "out_time_us="@ && parses_as_u64(s.skip("out_time_us="@.len() as int)))
}

/// Law: the parser is robust. Every line that is not a recognized key/value
/// shape is skipped; no line shape is ever fatal.
pub proof fn lemma_parser_robustness(s: Seq<char>)
    ensures
        !recognized_shape(s) ==> parse_line_spec(s) is Ignore,
{
}

proof fn lemma_digits_value_nonneg(s: Seq<char>)
    requires
        forall|i: int| 0 <= i < s.len() ==> is_digit_spec(s[i]),
    ensures
        digits_value(s) >= 0,
    decreases s.len(),
{
    if s.len() > 0 {
        lemma_digits_value_nonneg(s.drop_last());
    }
}

/// Appending digits never decreases the denoted value.
proof fn lemma_digits_prefix_mono(s: Seq<char>, j: int)
    requires
        0 <= j <= s.len(),
        forall|i: int| 0 <= i < s.len() ==> is_digit_spec(s[i]),
    ensures
        digits_value(s.subrange(0, j)) <= digits_value(s),
    decreases s.len() - j,
{
    if j < s.len() {
        assert(s.subrange(0, j + 1).drop_last() =~= s.subrange(0, j));
        assert(s.subrange(0, j + 1).last() == s[j]);
        lemma_digits_value_nonneg(s.subrange(0, j));
        assert(digits_value(s.subrange(0, j + 1)) == digits_value(s.subrange(0, j)) * 10
            + digit_val(s[j]));
        lemma_digits_prefix_mono(s, j + 1);
    } else {
        assert(s.subrange(0, s.len() as int) =~= s);
    }
}

/// Whether two strings hold the same characters.
fn str_eq(a: &str, b: &str) -> (r: bool)
    ensures
        r == (a@ == b@),
{
    let na = a.unicode_len();
    let nb = b.unicode_len();
    if na != nb {
        return false;
    }
    let mut i: usize = 0;
    while i < na
        invariant
            na == a@.len(),
            na == b@.len(),
            0 <= i <= na,
            forall|j: int| 0 <= j < i ==> a@[j] == b@[j],
        decreases na - i,
    {
        if a.get_char(i) != b.get_char(i) {
            return false;
        }
        i += 1;
    }
    proof {
        assert(a@ =~= b@);
    }
    true
}

/// Whether `p` is a prefix of `s`.
fn has_prefix(s: &str, p: &str) -> (r: bool)
    requires
        p@.len() <= s@.len(),
    ensures
        r == (s@.subrange(0, p@.len() as int) == p@),
{
    let np = p.unicode_len();
    let mut i: usize = 0;
    while i < np
        invariant
            np == p@.len(),
            np <= s@.len(),
            0 <= i <= np,
            forall|j: int| 0 <= j < i ==> s@[j] == p@[j],
        decreases np - i,
    {
        if s.get_char(i) != p.get_char(i) {
            proof {
                assert(s@.subrange(0, np as int)[i as int] != p@[i as int]);
            }
            return false;
        }
        i += 1;
    }
    proof {
        assert(s@.subrange(0, np as int) =~= p@);
    }
    true
}

/// Parse a string as Rust's `str::parse::<u64>` does: `None` exactly when the
/// string is not an optional `+` followed by digits, or the value overflows.
fn parse_u64_str(s: &str) -> (r: Option<u64>)
    ensures
        parses_as_u64(s@) ==> r == Some(u64_value(s@) as u64),
        !parses_as_u64(s@) ==> r is None,
{
    let n = s.unicode_len();
    if n == 0 {
        return None;
    }
    let start: usize = if s.get_char(0) == '+' {
        1
    } else {
        0
    };
    let ghost lit = u64_literal(s@);
    proof {
        assert(lit =~= s@.subrange(start as int, n as int));
    }
    if start == n {
        // the string was just "+"
        return None;
    }
    let mut val: u64 = 0;
    let mut i: usize = start;
    while i < n
        invariant
            n == s@.len(),
            start <= i <= n,
            start < n,
            lit == u64_literal(s@),
            lit =~= s@.subrange(start as int, n as int),
            forall|j: int| start <= j < i ==> is_digit_spec(s@[j]),
            val == digits_value(s@.subrange(start as int, i as int)),
        decreases n - i,
    {
        let c = s.get_char(i);
        let u = c as u32;
        if u < 48 || u > 57 {
            proof {
                assert(!is_digit_spec(lit[i - start]));
                assert(!all_digits(lit));
                assert(!parses_as_u64(s@));
            }
            return None;
        }
        let d = (u - 48) as u64;
        proof {
            assert(s@.subrange(start as int, i + 1 as int).drop_last() =~= s@.subrange(
                start as int,
                i as int,
            ));
            assert(s@.subrange(start as int, i + 1 as int).last() == s@[i as int]);
        }
        let step_ok = match val.checked_mul(10) {
            Some(v10) => v10.checked_add(d),
            None => None,
        };
        match step_ok {
            Some(v) => {
                val = v;
                i += 1;
            },
            None => {
                // the value overflows a u64 here, and appending further
                // digits can only make it larger
                proof {
                    if all_digits(lit) {
                        assert(digits_value(s@.subrange(start as int, i + 1 as int)) > u64::MAX);
                        assert(s@.subrange(start as int, i + 1 as int) =~= lit.subrange(
                            0,
                            i + 1 - start,
                        ));
                        lemma_digits_prefix_mono(lit, i + 1 - start);
                        assert(digits_value(lit) > u64::MAX);
                    }
                    assert(!parses_as_u64(s@));
                }
                return None;
            },
        }
    }
    proof {
        assert(lit =~= s@.subrange(start as int, n as int));
        assert(all_digits(lit));
        assert(u64_value(s@) == val);
    }
    Some(val)
}

/// Turn one line of the encoder's progress stream into an update, as
/// `parse_line_spec` says. No line is ever an error.
pub fn parse_progress_line(line: &str) -> (r: ProgressUpdate)
    ensures
        r == parse_line_spec(line@),
{
    proof {
        reveal_strlit("progress=end");
        reveal_strlit("out_time_us=");
    }
    if str_eq(line, "progress=end") {
        return ProgressUpdate::End;
    }
    let n = line.unicode_len();
    if n < 12 {
        return ProgressUpdate::Ignore;
    }
    if !has_prefix(line, "out_time_us=") {
        return ProgressUpdate::Ignore;
    }
    let rest = line.substring_char(12, n);
    match parse_u64_str(rest) {
        Some(v) => ProgressUpdate::Position(v),
        None => ProgressUpdate::Ignore,
    }
}

} // verus!
