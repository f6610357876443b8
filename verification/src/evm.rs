//! Gas-usage extraction from an EVM verifier's outputs, and the latency
//! estimate derived from gas.
//!
//! The extraction is specified exactly: the digits after the first gas
//! marker, with `_` separators allowed, valued by `gas_run_value`; an
//! overflowing or digit-free run yields nothing.

use vstd::prelude::*;

verus! {

use vstd::string::*;
use crate::strutil::{contains_seq, occurs_at};
use crate::toolchain::{is_digit_c, is_ws_c};

/// The index of the first occurrence of `sub` in `s`; meaningful only when
/// one exists.
pub open spec fn first_occurrence(s: Seq<char>, sub: Seq<char>) -> int {
    choose|i: int|
        occurs_at(s, sub, i) && (forall|j: int| 0 <= j < i ==> !occurs_at(s, sub, j))
}

/// Finds the first occurrence of `sub` in `s`.
fn find_sub(s: &str, sub: &str) -> (r: Option<usize>)
    ensures
        r is Some <==> contains_seq(s@, sub@),
        r matches Some(i) ==> occurs_at(s@, sub@, i as int) && (forall|j: int|
            0 <= j < i ==> !occurs_at(s@, sub@, j)) && i == first_occurrence(s@, sub@),
{
    let n = s.unicode_len();
    let m = sub.unicode_len();
    if m > n {
        proof {
            assert(forall|i: int| !occurs_at(s@, sub@, i));
        }
        return None;
    }
    if m == 0 {
        proof {
            assert(s@.subrange(0, 0) =~= sub@);
            assert(occurs_at(s@, sub@, 0));
            lemma_first_occurrence_is(s@, sub@, 0);
        }
        return Some(0);
    }
    let mut i: usize = 0;
    while i <= n - m
        invariant
            1 <= m <= n,
            n == s@.len(),
            m == sub@.len(),
            i <= n - m + 1,
            forall|j: int| 0 <= j < i ==> !occurs_at(s@, sub@, j),
        decreases n - i,
    {
        if crate::strutil::str_eq(s.substring_char(i, i + m), sub) {
            proof {
                assert(occurs_at(s@, sub@, i as int));
                lemma_first_occurrence_is(s@, sub@, i as int);
            }
            return Some(i);
        }
        i = i + 1;
    }
    proof {
        assert(forall|j: int| occurs_at(s@, sub@, j) ==> 0 <= j <= n - m);
    }
    None
}

/// An index that occurs and has no earlier occurrence is the first
/// occurrence.
proof fn lemma_first_occurrence_is(s: Seq<char>, sub: Seq<char>, i: int)
    requires
        occurs_at(s, sub, i),
        forall|j: int| 0 <= j < i ==> !occurs_at(s, sub, j),
    ensures
        first_occurrence(s, sub) == i,
{
    assert(exists|k: int|
        occurs_at(s, sub, k) && (forall|j: int| 0 <= j < k ==> !occurs_at(s, sub, j))) by {
        assert(occurs_at(s, sub, i) && (forall|j: int| 0 <= j < i ==> !occurs_at(s, sub, j)));
    }
    let q = first_occurrence(s, sub);
    if q < i {
        assert(!occurs_at(s, sub, q));
    }
    if i < q {
        assert(!occurs_at(s, sub, i));
    }
}

/// A character of a gas figure: a digit or an `_` separator.
pub open spec fn is_gas_run_c(c: char) -> bool {
    is_digit_c(c) || c == '_'
}

/// The end of the run of digits and separators starting at `from`.
pub open spec fn gas_run_end(s: Seq<char>, from: int) -> int
    decreases s.len() - from when 0 <= from <= s.len()
{
    if from < s.len() && is_gas_run_c(s[from]) {
        gas_run_end(s, from + 1)
    } else {
        from
    }
}

/// The numeric value of a digit character; other characters count zero and
/// never stand inside a valued run.
pub open spec fn digit_val_c(c: char) -> int {
    if c == '1' {
        1
    } else if c == '2' {
        2
    } else if c == '3' {
        3
    } else if c == '4' {
        4
    } else if c == '5' {
        5
    } else if c == '6' {
        6
    } else if c == '7' {
        7
    } else if c == '8' {
        8
    } else if c == '9' {
        9
    } else {
        0
    }
}

/// The value of the digits in `s[from..to]`, separators skipped.
pub open spec fn gas_run_value(s: Seq<char>, from: int, to: int) -> int
    decreases to - from when from <= to
{
    if to <= from {
        0
    } else if s[to - 1] == '_' {
        gas_run_value(s, from, to - 1)
    } else {
        gas_run_value(s, from, to - 1) * 10 + digit_val_c(s[to - 1])
    }
}

/// How many digits (separators excluded) stand in `s[from..to]`.
pub open spec fn gas_digit_count(s: Seq<char>, from: int, to: int) -> int
    decreases to - from when from <= to
{
    if to <= from {
        0
    } else if s[to - 1] == '_' {
        gas_digit_count(s, from, to - 1)
    } else {
        gas_digit_count(s, from, to - 1) + 1
    }
}

/// The end of the leading whitespace starting at `from`.
pub open spec fn ws_end(s: Seq<char>, from: int) -> int
    decreases s.len() - from when 0 <= from <= s.len()
{
    if from < s.len() && is_ws_c(s[from]) {
        ws_end(s, from + 1)
    } else {
        from
    }
}

/// What a gas marker's tail parses to: the valued digit run after the
/// whitespace following position `after`; nothing without a digit or when
/// the value does not fit.
pub open spec fn gas_after(s: Seq<char>, after: int) -> Option<u64> {
    let start = ws_end(s, after);
    let end = gas_run_end(s, start);
    if gas_digit_count(s, start, end) > 0 && gas_run_value(s, start, end) <= 0xffffffffffffffff {
        Some(gas_run_value(s, start, end) as u64)
    } else {
        None
    }
}

/// What `read_gas_from_stdout` extracts: the figure after the first
/// `gas:` marker, or nothing without a marker.
pub open spec fn gas_of_stdout(s: Seq<char>) -> Option<u64> {
    if contains_seq(s, "gas:"@) {
        gas_after(s, first_occurrence(s, "gas:"@) + "gas:"@.len())
    } else {
        None
    }
}

/// Bounds and characters of the digit run.
proof fn lemma_gas_run_shape(s: Seq<char>, from: int)
    requires
        0 <= from <= s.len(),
    ensures
        from <= gas_run_end(s, from) <= s.len(),
        forall|j: int| from <= j < gas_run_end(s, from) ==> is_gas_run_c(s[j]),
        gas_run_end(s, from) < s.len() ==> !is_gas_run_c(s[gas_run_end(s, from)]),
    decreases s.len() - from,
{
    if from < s.len() && is_gas_run_c(s[from]) {
        lemma_gas_run_shape(s, from + 1);
    }
}

/// The run value never is negative.
proof fn lemma_gas_run_value_nonneg(s: Seq<char>, from: int, to: int)
    requires
        from <= to,
    ensures
        gas_run_value(s, from, to) >= 0,
    decreases to - from,
{
    if to > from {
        lemma_gas_run_value_nonneg(s, from, to - 1);
        assert(gas_run_value(s, from, to - 1) * 10 >= 0) by (nonlinear_arith)
            requires
                gas_run_value(s, from, to - 1) >= 0,
        ;
    }
}

/// Reading further digits never shrinks the value.
proof fn lemma_gas_run_value_monotone(s: Seq<char>, from: int, a: int, b: int)
    requires
        from <= a <= b,
    ensures
        gas_run_value(s, from, a) <= gas_run_value(s, from, b),
    decreases b - a,
{
    if a < b {
        lemma_gas_run_value_monotone(s, from, a, b - 1);
        lemma_gas_run_value_nonneg(s, from, b - 1);
        if s[b - 1] != '_' {
            assert(gas_run_value(s, from, b - 1) * 10 + digit_val_c(s[b - 1]) >= gas_run_value(
                s,
                from,
                b - 1,
            )) by (nonlinear_arith)
                requires
                    gas_run_value(s, from, b - 1) >= 0,
                    digit_val_c(s[b - 1]) >= 0,
            ;
        }
    }
}

/// The numeric value of a decimal digit character, or ten for any other.
fn digit_value(c: char) -> (r: u64)
    ensures
        r <= 10,
        r < 10 <==> is_digit_c(c),
        is_digit_c(c) ==> r == digit_val_c(c),
{
    if c == '0' {
        0
    } else if c == '1' {
        1
    } else if c == '2' {
        2
    } else if c == '3' {
        3
    } else if c == '4' {
        4
    } else if c == '5' {
        5
    } else if c == '6' {
        6
    } else if c == '7' {
        7
    } else if c == '8' {
        8
    } else if c == '9' {
        9
    } else {
        10
    }
}

/// Finds the end of the digit run starting at `from`.
fn scan_run(s: &str, from: usize) -> (r: usize)
    requires
        from <= s@.len(),
    ensures
        from <= r <= s@.len(),
        r == gas_run_end(s@, from as int),
{
    let n = s.unicode_len();
    let mut i = from;
    while i < n
        invariant
            from <= i <= n,
            n == s@.len(),
            gas_run_end(s@, from as int) == gas_run_end(s@, i as int),
        decreases n - i,
    {
        let c = s.get_char(i);
        let d = digit_value(c);
        if !(d < 10 || c == '_') {
            return i;
        }
        i = i + 1;
    }
    i
}

/// Parses the digit run starting at `from`, allowing `_` separators:
/// exactly the specification-level run value, nothing without a digit or
/// on overflow.
fn parse_gas_number(s: &str, from: usize) -> (r: Option<u64>)
    requires
        from <= s@.len(),
    ensures
        r == ({
            let end = gas_run_end(s@, from as int);
            if gas_digit_count(s@, from as int, end) > 0 && gas_run_value(s@, from as int, end)
                <= 0xffffffffffffffff {
                Some(gas_run_value(s@, from as int, end) as u64)
            } else {
                None::<u64>
            }
        }),
{
    proof {
        lemma_gas_run_shape(s@, from as int);
    }
    let run_end = scan_run(s, from);
    let mut i = from;
    let mut value: u64 = 0;
    let mut saw_digit = false;
    while i < run_end
        invariant
            from <= i <= run_end <= s@.len(),
            run_end == gas_run_end(s@, from as int),
            forall|j: int| from <= j < run_end ==> is_gas_run_c(s@[j]),
            value == gas_run_value(s@, from as int, i as int),
            gas_digit_count(s@, from as int, i as int) >= 0,
            saw_digit == (gas_digit_count(s@, from as int, i as int) > 0),
        decreases run_end - i,
    {
        let c = s.get_char(i);
        if c != '_' {
            proof {
                assert(is_gas_run_c(s@[i as int]));
                lemma_gas_run_value_nonneg(s@, from as int, i as int);
            }
            let d = digit_value(c);
            if value > (0xffffffffffffffffu64 - d) / 10 {
                proof {
                    let v = gas_run_value(s@, from as int, i as int);
                    assert(v * 10 + digit_val_c(s@[i as int]) > 0xffffffffffffffff) by (
                    nonlinear_arith)
                        requires
                            v > (0xffffffffffffffff - digit_val_c(s@[i as int])) / 10,
                            0 <= digit_val_c(s@[i as int]) < 10,
                            v >= 0,
                    ;
                    assert(gas_run_value(s@, from as int, i + 1) > 0xffffffffffffffff);
                    lemma_gas_run_value_monotone(s@, from as int, i + 1, run_end as int);
                }
                return None;
            }
            proof {
                let v = gas_run_value(s@, from as int, i as int);
                assert(v * 10 + digit_val_c(s@[i as int]) <= 0xffffffffffffffff) by (
                nonlinear_arith)
                    requires
                        v <= (0xffffffffffffffff - digit_val_c(s@[i as int])) / 10,
                        0 <= digit_val_c(s@[i as int]) < 10,
                        v >= 0,
                ;
            }
            value = value * 10 + d;
            saw_digit = true;
        }
        i = i + 1;
    }
    if saw_digit {
        Some(value)
    } else {
        None
    }
}

/// Skips whitespace starting at `from`: exactly to the end of the leading
/// whitespace.
fn skip_ws(s: &str, from: usize) -> (r: usize)
    requires
        from <= s@.len(),
    ensures
        from <= r <= s@.len(),
        r == ws_end(s@, from as int),
{
    let n = s.unicode_len();
    let mut i = from;
    while i < n
        invariant
            from <= i <= n,
            n == s@.len(),
            ws_end(s@, from as int) == ws_end(s@, i as int),
        decreases n - i,
    {
        let c = s.get_char(i);
        if !(c == ' ' || c == '\t' || c == '\n' || c == '\r') {
            return i;
        }
        i = i + 1;
    }
    i
}

/// Extracts the gas figure from verifier stdout: the valued digit run
/// after the first `gas:` marker, with `_` separators allowed.  Nothing
/// without the marker, without a digit after it, or when the figure does
/// not fit.
pub fn read_gas_from_stdout(stdout: &str) -> (r: Option<u64>)
    ensures
        r == gas_of_stdout(stdout@),
        r is Some ==> contains_seq(stdout@, "gas:"@),
{
    let marker = "gas:";
    let total = stdout.unicode_len();
    match find_sub(stdout, marker) {
        Some(idx) => {
            proof {
                assert(idx + marker@.len() <= total);
            }
            let after = idx + marker.unicode_len();
            let start = skip_ws(stdout, after);
            parse_gas_number(stdout, start)
        },
        None => None,
    }
}

/// What one snapshot line yields under the pattern filter: the figure
/// after the first `(gas:` marker of a line that holds the pattern (when
/// one is given).
pub open spec fn gas_of_line(line: Seq<char>, match_pattern: Option<String>) -> Option<u64> {
    let considered = match match_pattern {
        Option::Some(pat) => contains_seq(line, pat@),
        Option::None => true,
    };
    if considered && contains_seq(line, "(gas:"@) {
        gas_after(line, first_occurrence(line, "(gas:"@) + "(gas:"@.len())
    } else {
        None
    }
}

/// Extracts the gas figure from a gas-snapshot file's text: the first line
/// that matches the pattern (when one is given) and yields a figure after
/// its `(gas:` marker wins.
pub fn read_gas_from_snapshot_text(contents: &str, match_pattern: &Option<String>) -> (r: Option<
    u64,
>)
    ensures
        r is Some ==> contains_seq(contents@, "(gas:"@),
{
    let n = contents.unicode_len();
    let mut line_start: usize = 0;
    let mut i: usize = 0;
    while i < n
        invariant
            line_start <= i <= n,
            n == contents@.len(),
        decreases n - i,
    {
        if contents.get_char(i) == '\n' {
            if line_start < i {
                let line = contents.substring_char(line_start, i);
                match gas_from_line(line, match_pattern) {
                    Some(v) => {
                        proof {
                            lemma_contains_in_slice(contents@, line_start as int, i as int, "(gas:"@);
                        }
                        return Some(v);
                    },
                    None => {},
                }
            }
            line_start = i + 1;
        }
        i = i + 1;
    }
    if line_start < n {
        let line = contents.substring_char(line_start, n);
        match gas_from_line(line, match_pattern) {
            Some(v) => {
                proof {
                    lemma_contains_in_slice(contents@, line_start as int, n as int, "(gas:"@);
                }
                return Some(v);
            },
            None => {},
        }
    }
    None
}

/// A marker found inside a slice of `s` is found in `s`.
proof fn lemma_contains_in_slice(s: Seq<char>, from: int, to: int, sub: Seq<char>)
    requires
        0 <= from <= to <= s.len(),
        contains_seq(s.subrange(from, to), sub),
    ensures
        contains_seq(s, sub),
{
    let slice = s.subrange(from, to);
    let i = choose|i: int| occurs_at(slice, sub, i);
    assert(slice.subrange(i, i + sub.len() as int) =~= s.subrange(from + i, from + i + sub.len()));
    assert(occurs_at(s, sub, from + i));
}

/// Extracts the gas figure of one snapshot line, honouring the pattern
/// filter: exactly the valued digit run after the line's first `(gas:`
/// marker.
fn gas_from_line(line: &str, match_pattern: &Option<String>) -> (r: Option<u64>)
    ensures
        r == gas_of_line(line@, *match_pattern),
        r is Some ==> contains_seq(line@, "(gas:"@),
{
    let considered = match match_pattern {
        Some(pat) => crate::strutil::str_contains(line, pat.as_str()),
        None => true,
    };
    if !considered {
        return None;
    }
    let total = line.unicode_len();
    match find_sub(line, "(gas:") {
        Some(idx) => {
            proof {
                assert(idx + "(gas:"@.len() <= total);
            }
            let after = idx + "(gas:".unicode_len();
            let start = skip_ws(line, after);
            parse_gas_number(line, start)
        },
        None => None,
    }
}

/// Estimates verification latency in milliseconds from gas used and a
/// gas-per-second rate: `gas · 1000 / rate`, rounded to nearest and
/// saturating at the integer limit; a zero rate estimates zero.
pub fn estimate_latency_ms(gas_used: u64, gas_per_second: u64) -> (r: u64)
    ensures
        gas_per_second == 0 ==> r == 0,
        gas_per_second > 0 ==> r as int == {
            let exact = ((gas_used as int) * 1000 + (gas_per_second as int) / 2) / (
            gas_per_second as int);
            if exact > 0xffffffffffffffff {
                0xffffffffffffffff
            } else {
                exact
            }
        },
{
    if gas_per_second == 0 {
        return 0;
    }
    let wide: u128 = ((gas_used as u128) * 1000 + (gas_per_second as u128) / 2) / (
    gas_per_second as u128);
    if wide > 0xffffffffffffffff {
        0xffffffffffffffff
    } else {
        wide as u64
    }
}

} // verus!
