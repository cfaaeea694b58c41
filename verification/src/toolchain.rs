//! Toolchain bootstrap decisions: whether the build tool that prepares the
//! backend's standard library must be (re)installed, and the parsing of the
//! tool's version banner.
//!
//! The host runs the tool and hands its raw output here; deciding what that
//! output means is verified logic. A banner's first line looks like
//! `xargo 0.3.12 (b004f1c 2018-12-13)`: the first word must name the tool,
//! the second must be a dotted triple of decimal numbers.

use vstd::prelude::*;

use crate::transform::first_line;
use crate::transform::is_break;
use crate::transform::line_break_at;

verus! {

/// Why the bootstrap of the execution backend failed.
#[derive(Debug, Copy, Clone, PartialEq, Eq, Structural)]
pub enum SetupError {
    FailedToInstallXargo,
    FailedToInstallRustSrc,
    FailedToRunXargo,
}

/// The oldest tool version the bootstrap accepts.
pub open spec fn minimum_tool_version() -> (u32, u32, u32) {
    (0u32, 3u32, 13u32)
}

/// Lexicographic order on version triples.
pub open spec fn version_lt(a: (u32, u32, u32), b: (u32, u32, u32)) -> bool {
    a.0 < b.0 || (a.0 == b.0 && (a.1 < b.1 || (a.1 == b.1 && a.2 < b.2)))
}

/// Whether the build tool must be installed: it is missing, or older than
/// the minimum version the bootstrap needs.
pub fn needs_install(v: Option<(u32, u32, u32)>) -> (r: bool)
    ensures
        r == match v {
            None => true,
            Some(t) => version_lt(t, minimum_tool_version()),
        },
{
    match v {
        None => true,
        Some((major, minor, patch)) => major == 0 && (minor < 3 || (minor == 3 && patch < 13)),
    }
}

/// A decimal digit.
pub open spec fn is_digit(c: char) -> bool {
    48 <= c as u32 <= 57
}

/// The value of one decimal digit.
pub open spec fn digit_val(c: char) -> int {
    c as u32 - 48
}

/// The value of a string of decimal digits.
pub open spec fn digits_val(s: Seq<char>) -> int
    decreases s.len(),
{
    if s.len() == 0 {
        0
    } else {
        digits_val(s.drop_last()) * 10 + digit_val(s.last())
    }
}

/// The number a token denotes: defined exactly when the token is a
/// non-empty string of decimal digits whose value fits.
pub open spec fn u32_of_digits(s: Seq<char>) -> Option<u32> {
    if s.len() > 0 && (forall|i: int| 0 <= i < s.len() ==> is_digit(s[i])) && digits_val(s)
        <= u32::MAX {
        Some(digits_val(s) as u32)
    } else {
        None
    }
}

/// The first position at or after `from` holding `c`, or the length of `s`.
pub open spec fn find_from(s: Seq<char>, from: int, c: char) -> int
    decreases s.len() - from,
{
    if from < 0 || from >= s.len() {
        s.len() as int
    } else if s[from] == c {
        from
    } else {
        find_from(s, from + 1, c)
    }
}

/// A version triple token: three dot-separated decimal numbers, no more.
pub open spec fn triple_spec(v: Seq<char>) -> Option<(u32, u32, u32)> {
    let d1 = find_from(v, 0, '.');
    if d1 == v.len() {
        None
    } else {
        let d2 = find_from(v, d1 + 1, '.');
        if d2 == v.len() {
            None
        } else if find_from(v, d2 + 1, '.') != v.len() {
            None
        } else {
            match (
                u32_of_digits(v.subrange(0, d1)),
                u32_of_digits(v.subrange(d1 + 1, d2)),
                u32_of_digits(v.subrange(d2 + 1, v.len() as int)),
            ) {
                (Some(a), Some(b), Some(c)) => Some((a, b, c)),
                _ => None,
            }
        }
    }
}

/// The version a banner line reports: its first word must be `xargo`, its
/// second word a version triple.
pub open spec fn version_spec(line: Seq<char>) -> Option<(u32, u32, u32)> {
    let sp1 = find_from(line, 0, ' ');
    if line.subrange(0, sp1) != "xargo"@ {
        None
    } else if sp1 == line.len() {
        None
    } else {
        triple_spec(line.subrange(sp1 + 1, find_from(line, sp1 + 1, ' ')))
    }
}

/// The first position at or after `from` holding `c`, or the length of `s`.
fn find_char(s: &str, from: usize, c: char) -> (r: usize)
    requires
        from <= s@.len(),
    ensures
        r == find_from(s@, from as int, c),
        from <= r <= s@.len(),
        r < s@.len() ==> s@[r as int] == c,
{
    let n = s.unicode_len();
    let mut i: usize = from;
    while i < n && s.get_char(i) != c
        invariant
            from <= i <= n,
            n == s@.len(),
            find_from(s@, from as int, c) == find_from(s@, i as int, c),
        decreases n - i,
    {
        i = i + 1;
    }
    i
}

/// Whether the characters of `s` in `[from, to)` are exactly `lit`.
fn region_eq(s: &str, from: usize, to: usize, lit: &str) -> (r: bool)
    requires
        from <= to <= s@.len(),
    ensures
        r == (s@.subrange(from as int, to as int) == lit@),
{
    let m = lit.unicode_len();
    if to - from != m {
        proof {
            assert(s@.subrange(from as int, to as int).len() != lit@.len());
        }
        return false;
    }
    let mut k: usize = 0;
    while k < m
        invariant
            k <= m,
            m == lit@.len(),
            from + m <= to <= s@.len(),
            to - from == m,
            forall|j: int| 0 <= j < k ==> s@[from + j] == lit@[j],
        decreases m - k,
    {
        if s.get_char(from + k) != lit.get_char(k) {
            proof {
                assert(s@.subrange(from as int, to as int)[k as int] != lit@[k as int]);
            }
            return false;
        }
        k = k + 1;
    }
    proof {
        assert(s@.subrange(from as int, to as int) =~= lit@);
    }
    true
}

/// Appending digits never shrinks the value of a digit string.
proof fn lemma_digits_val_grows(s: Seq<char>, j: int)
    requires
        0 <= j <= s.len(),
        digits_val(s.take(j)) >= 0,
        forall|k: int| j <= k < s.len() ==> is_digit(s[k]),
    ensures
        digits_val(s) >= digits_val(s.take(j)),
    decreases s.len() - j,
{
    if j == s.len() {
        assert(s.take(j) =~= s);
    } else {
        assert(s.take(j + 1).drop_last() =~= s.take(j));
        assert(s.take(j + 1).last() == s[j]);
        assert(digits_val(s.take(j + 1)) == digits_val(s.take(j)) * 10 + digit_val(s[j]));
        assert(digits_val(s.take(j + 1)) >= digits_val(s.take(j)));
        lemma_digits_val_grows(s, j + 1);
    }
}

/// Parse the characters of `s` in `[from, to)` as a decimal number.
fn parse_u32(s: &str, from: usize, to: usize) -> (r: Option<u32>)
    requires
        from <= to <= s@.len(),
    ensures
        r == u32_of_digits(s@.subrange(from as int, to as int)),
{
    let ghost sub = s@.subrange(from as int, to as int);
    if from == to {
        return None;
    }
    let mut acc: u64 = 0;
    let mut i: usize = from;
    while i < to
        invariant
            from <= i <= to <= s@.len(),
            sub == s@.subrange(from as int, to as int),
            from < to,
            forall|k: int| from <= k < i ==> is_digit(s@[k]),
            acc == digits_val(s@.subrange(from as int, i as int)),
            acc <= u32::MAX,
        decreases to - i,
    {
        let c = s.get_char(i);
        let u = c as u32;
        if u < 48 || u > 57 {
            proof {
                assert(sub[i - from] == s@[i as int]);
                assert(!is_digit(sub[i - from]));
            }
            return None;
        }
        let d: u64 = (u - 48) as u64;
        let next: u64 = acc * 10 + d;
        proof {
            assert(s@.subrange(from as int, i + 1).drop_last() =~= s@.subrange(
                from as int,
                i as int,
            ));
            assert(s@.subrange(from as int, i + 1).last() == s@[i as int]);
        }
        if next > 0xFFFF_FFFF {
            proof {
                let whole = sub;
                if whole.len() > 0 && (forall|k: int| 0 <= k < whole.len() ==> is_digit(whole[k]))
                    && digits_val(whole) <= u32::MAX {
                    assert(forall|k: int| i + 1 <= k < to ==> is_digit(#[trigger] s@[k])) by {
                        assert(forall|k: int|
                            i + 1 <= k < to ==> whole[k - from] == #[trigger] s@[k]);
                    }
                    assert(whole.take(i + 1 - from) =~= s@.subrange(from as int, i + 1));
                    assert(digits_val(whole.take(i + 1 - from)) == next);
                    lemma_digits_val_grows(whole, i + 1 - from);
                    assert(false);
                }
            }
            return None;
        }
        acc = next;
        i = i + 1;
    }
    proof {
        assert(sub =~= s@.subrange(from as int, to as int));
        assert(forall|k: int| 0 <= k < sub.len() ==> is_digit(sub[k])) by {
            assert(forall|k: int| 0 <= k < sub.len() ==> sub[k] == #[trigger] s@[from + k]);
        }
        assert(digits_val(sub) == acc);
    }
    Some(acc as u32)
}

/// Parse a dotted version triple token.
fn parse_triple(v: &str) -> (r: Option<(u32, u32, u32)>)
    ensures
        r == triple_spec(v@),
{
    let m = v.unicode_len();
    let d1 = find_char(v, 0, '.');
    if d1 == m {
        return None;
    }
    let d2 = find_char(v, d1 + 1, '.');
    if d2 == m {
        return None;
    }
    let d3 = find_char(v, d2 + 1, '.');
    if d3 != m {
        return None;
    }
    let a = parse_u32(v, 0, d1);
    let b = parse_u32(v, d1 + 1, d2);
    let c = parse_u32(v, d2 + 1, m);
    match (a, b, c) {
        (Some(x), Some(y), Some(z)) => Some((x, y, z)),
        _ => None,
    }
}

/// Parse the version banner the build tool prints: the first line must be
/// the tool's name, a space, and a dotted version triple. Anything after
/// the triple's word is ignored; any malformation yields `None` rather
/// than aborting the host.
pub fn parse_version_output(out: &str) -> (r: Option<(u32, u32, u32)>)
    ensures
        r == version_spec(first_line(out@)),
{
    let n = out.unicode_len();
    let mut i: usize = 0;
    while i < n && !is_break(out, i)
        invariant
            i <= n,
            n == out@.len(),
            forall|k: int| 0 <= k < i ==> !line_break_at(out@, k),
        decreases n - i,
    {
        i = i + 1;
    }
    proof {
        crate::transform::lemma_first_line_run(out@, i as int);
        if i < n {
            assert(out@.skip(i as int)[0] == out@[i as int]);
            assert(first_line(out@.skip(i as int)) =~= Seq::<char>::empty());
        } else {
            assert(out@.skip(i as int) =~= Seq::<char>::empty());
        }
        assert(first_line(out@) =~= out@.subrange(0, i as int));
    }
    let line = out.substring_char(0, i);
    let ln = i;
    let sp1 = find_char(line, 0, ' ');
    if !region_eq(line, 0, sp1, "xargo") {
        return None;
    }
    if sp1 == ln {
        return None;
    }
    let sp2 = find_char(line, sp1 + 1, ' ');
    let ver = line.substring_char(sp1 + 1, sp2);
    parse_triple(ver)
}

} // verus!
