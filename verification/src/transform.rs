//! Source transformation: wrapping a raw snippet into a runnable unit.
//!
//! Each line of the snippet is indented with a tab and placed, joined by
//! CRLF, between a synthetic entry-point preamble and a closing brace.
//! No escaping or sanitization is performed: malformed code passes through
//! and fails later, during evaluation.

use vstd::prelude::*;

verus! {

/// A line break starts at position `i` of `s`: either a bare LF, or a CR
/// immediately followed by an LF.
pub open spec fn line_break_at(s: Seq<char>, i: int) -> bool {
    s[i] == '\n' || (s[i] == '\r' && i + 1 < s.len() && s[i + 1] == '\n')
}

/// What a line break inserts between two lines of the compiled unit:
/// a CRLF terminator and the next line's indentation.
pub open spec fn break_glue() -> Seq<char> {
    seq!['\r', '\n', '\t']
}

/// The indented snippet body after its leading tab: every character is kept
/// as it is, except that each line break (LF or CRLF) becomes CRLF followed
/// by a tab, and a line break that ends the snippet produces nothing (the
/// snippet's final line needs no terminator inside the unit).
pub open spec fn indented_tail(s: Seq<char>) -> Seq<char>
    decreases s.len(),
{
    if s.len() == 0 {
        Seq::empty()
    } else if s[0] == '\n' {
        if s.len() == 1 {
            Seq::empty()
        } else {
            break_glue() + indented_tail(s.skip(1))
        }
    } else if s[0] == '\r' && s.len() >= 2 && s[1] == '\n' {
        if s.len() == 2 {
            Seq::empty()
        } else {
            break_glue() + indented_tail(s.skip(2))
        }
    } else {
        seq![s[0]] + indented_tail(s.skip(1))
    }
}

/// The snippet body of the compiled unit: empty for an empty snippet,
/// otherwise a tab followed by the indented tail.
pub open spec fn indented_body(s: Seq<char>) -> Seq<char> {
    if s.len() == 0 {
        Seq::empty()
    } else {
        seq!['\t'] + indented_tail(s)
    }
}

/// The complete compiled unit for a snippet: the entry-point preamble,
/// the indented body, and the closing brace.
pub open spec fn transformed(s: Seq<char>) -> Seq<char> {
    "fn main() {\r\n"@ + indented_body(s) + "\r\n}"@
}

/// The first line of a text: its characters up to (and not including) the
/// first line break, LF or CRLF.
pub open spec fn first_line(s: Seq<char>) -> Seq<char>
    decreases s.len(),
{
    if s.len() == 0 {
        Seq::empty()
    } else if s[0] == '\n' {
        Seq::empty()
    } else if s[0] == '\r' && s.len() >= 2 && s[1] == '\n' {
        Seq::empty()
    } else {
        seq![s[0]] + first_line(s.skip(1))
    }
}

/// A run of ordinary characters is an initial segment of the first line.
pub proof fn lemma_first_line_run(s: Seq<char>, i: int)
    requires
        0 <= i <= s.len(),
        forall|k: int| 0 <= k < i ==> !line_break_at(s, k),
    ensures
        first_line(s) == s.subrange(0, i) + first_line(s.skip(i)),
    decreases i,
{
    if i == 0 {
        assert(s.skip(0) =~= s);
        assert(first_line(s) =~= s.subrange(0, 0) + first_line(s.skip(0)));
    } else {
        lemma_first_line_run(s, i - 1);
        assert(!line_break_at(s, i - 1));
        let t = s.skip(i - 1);
        assert(t[0] == s[i - 1]);
        assert(t[0] != '\n');
        assert(!(t[0] == '\r' && t.len() >= 2 && t[1] == '\n'));
        assert(t.skip(1) =~= s.skip(i));
        assert(first_line(t) == seq![s[i - 1]] + first_line(s.skip(i)));
        assert(s.subrange(0, i) =~= s.subrange(0, i - 1) + seq![s[i - 1]]);
        assert(first_line(s) =~= s.subrange(0, i) + first_line(s.skip(i)));
    }
}

/// The lines of a text, split at each LF or CRLF; a terminator that ends
/// the text produces no further line.
pub open spec fn split_lines(s: Seq<char>) -> Seq<Seq<char>>
    decreases s.len(),
{
    if s.len() == 0 {
        Seq::empty()
    } else if s[0] == '\n' {
        seq![Seq::<char>::empty()] + split_lines(s.skip(1))
    } else if s[0] == '\r' && s.len() >= 2 && s[1] == '\n' {
        seq![Seq::<char>::empty()] + split_lines(s.skip(2))
    } else {
        let rest = split_lines(s.skip(1));
        if rest.len() == 0 {
            seq![seq![s[0]]]
        } else {
            seq![seq![s[0]] + rest[0]] + rest.skip(1)
        }
    }
}

/// Each line prefixed with a tab, all joined with CRLF.
pub open spec fn indent_join(lines: Seq<Seq<char>>) -> Seq<char>
    decreases lines.len(),
{
    if lines.len() == 0 {
        Seq::empty()
    } else if lines.len() == 1 {
        seq!['\t'] + lines[0]
    } else {
        seq!['\t'] + lines[0] + seq!['\r', '\n'] + indent_join(lines.skip(1))
    }
}

proof fn lemma_split_lines_nonempty(s: Seq<char>)
    requires
        s.len() > 0,
    ensures
        split_lines(s).len() >= 1,
{
}

/// Two sequences with the same head element prepended are equal only if
/// they are equal themselves.
proof fn lemma_cancel_head(c: char, a: Seq<char>, b: Seq<char>)
    requires
        seq![c] + a == seq![c] + b,
    ensures
        a == b,
{
    assert((seq![c] + a).len() == 1 + a.len());
    assert((seq![c] + b).len() == 1 + b.len());
    assert(a.len() == b.len());
    assert forall|i: int| 0 <= i < a.len() implies a[i] == b[i] by {
        assert((seq![c] + a)[i + 1] == a[i]);
        assert((seq![c] + b)[i + 1] == b[i]);
    }
    assert(a =~= b);
}

/// Law: the body of a compiled unit is exactly the snippet split into
/// lines, each line indented with a tab, all joined with CRLF — the
/// character-level definition and the line-level description coincide.
pub proof fn lemma_body_is_indented_lines(s: Seq<char>)
    ensures
        indented_body(s) == indent_join(split_lines(s)),
    decreases s.len(),
{
    if s.len() == 0 {
        assert(indented_body(s) =~= indent_join(split_lines(s)));
    } else if s[0] == '\n' || (s[0] == '\r' && s.len() >= 2 && s[1] == '\n') {
        let w: int = if s[0] == '\n' {
            1
        } else {
            2
        };
        let rest = s.skip(w);
        let lrest = split_lines(rest);
        assert(split_lines(s) == seq![Seq::<char>::empty()] + lrest);
        if s.len() == w {
            assert(rest =~= Seq::<char>::empty());
            assert(lrest =~= Seq::<Seq<char>>::empty());
            assert(split_lines(s) =~= seq![Seq::<char>::empty()]);
            assert(indent_join(split_lines(s)) =~= seq!['\t']);
            assert(indented_tail(s) =~= Seq::<char>::empty());
            assert(indented_body(s) =~= seq!['\t']);
        } else {
            lemma_body_is_indented_lines(rest);
            lemma_split_lines_nonempty(rest);
            let ls = split_lines(s);
            assert(ls.len() >= 2);
            assert(ls[0] =~= Seq::<char>::empty());
            assert(ls.skip(1) =~= lrest);
            assert(indent_join(ls) == seq!['\t'] + ls[0] + seq!['\r', '\n'] + indent_join(lrest));
            assert(indented_tail(s) == break_glue() + indented_tail(rest));
            assert(indented_body(rest) == seq!['\t'] + indented_tail(rest));
            assert(indented_body(s) =~= indent_join(ls));
        }
    } else {
        let rest = s.skip(1);
        let lrest = split_lines(rest);
        lemma_body_is_indented_lines(rest);
        assert(indented_tail(s) == seq![s[0]] + indented_tail(rest));
        if rest.len() == 0 {
            assert(lrest =~= Seq::<Seq<char>>::empty());
            assert(split_lines(s) =~= seq![seq![s[0]]]);
            assert(indented_tail(rest) =~= Seq::<char>::empty());
            assert(indented_body(s) =~= indent_join(split_lines(s)));
        } else {
            lemma_split_lines_nonempty(rest);
            assert(indented_body(rest) == seq!['\t'] + indented_tail(rest));
            let ls = split_lines(s);
            assert(ls == seq![seq![s[0]] + lrest[0]] + lrest.skip(1));
            if lrest.len() == 1 {
                assert(indent_join(lrest) == seq!['\t'] + lrest[0]);
                lemma_cancel_head('\t', indented_tail(rest), lrest[0]);
                assert(ls =~= seq![seq![s[0]] + lrest[0]]);
                assert(indent_join(ls) == seq!['\t'] + ls[0]);
                assert(indented_body(s) =~= indent_join(ls));
            } else {
                assert(indent_join(lrest) == seq!['\t'] + lrest[0] + seq!['\r', '\n']
                    + indent_join(lrest.skip(1)));
                assert(seq!['\t'] + (lrest[0] + seq!['\r', '\n'] + indent_join(lrest.skip(1)))
                    =~= seq!['\t'] + lrest[0] + seq!['\r', '\n'] + indent_join(lrest.skip(1)));
                lemma_cancel_head(
                    '\t',
                    indented_tail(rest),
                    lrest[0] + seq!['\r', '\n'] + indent_join(lrest.skip(1)),
                );
                assert(ls.len() >= 2);
                assert(ls[0] == seq![s[0]] + lrest[0]);
                assert(ls.skip(1) =~= lrest.skip(1));
                assert(indent_join(ls) == seq!['\t'] + ls[0] + seq!['\r', '\n'] + indent_join(
                    ls.skip(1),
                ));
                assert(indented_body(s) =~= indent_join(ls));
            }
        }
    }
}

/// Law: transformation is a pure function of the snippet's structure, so
/// transforming the same snippet twice yields byte-identical compiled units.
pub proof fn lemma_transform_deterministic(s1: Seq<char>, s2: Seq<char>)
    requires
        s1 == s2,
    ensures
        transformed(s1) == transformed(s2),
{
}

/// Whether a line break starts at position `i` of `s`.
pub(crate) fn is_break(s: &str, i: usize) -> (r: bool)
    requires
        i < s@.len(),
    ensures
        r == line_break_at(s@, i as int),
{
    let n = s.unicode_len();
    let c = s.get_char(i);
    if c == '\n' {
        true
    } else if c == '\r' {
        i + 1 < n && s.get_char(i + 1) == '\n'
    } else {
        false
    }
}

/// A run of ordinary characters contributes itself, verbatim, to the
/// indented tail of the suffix it starts.
proof fn lemma_tail_run(s: Seq<char>, i: int, j: int)
    requires
        0 <= i <= j <= s.len(),
        forall|k: int| i <= k < j ==> !line_break_at(s, k),
    ensures
        indented_tail(s.skip(i)) == s.subrange(i, j) + indented_tail(s.skip(j)),
    decreases j - i,
{
    if i == j {
        assert(s.subrange(i, j) =~= Seq::empty());
        assert(indented_tail(s.skip(i)) =~= s.subrange(i, j) + indented_tail(s.skip(j)));
    } else {
        assert(!line_break_at(s, i));
        let t = s.skip(i);
        assert(t[0] == s[i]);
        assert(t[0] != '\n');
        assert(!(t[0] == '\r' && t.len() >= 2 && t[1] == '\n'));
        assert(t.skip(1) =~= s.skip(i + 1));
        assert(indented_tail(t) == seq![s[i]] + indented_tail(s.skip(i + 1)));
        lemma_tail_run(s, i + 1, j);
        assert(s.subrange(i, j) =~= seq![s[i]] + s.subrange(i + 1, j));
        assert(indented_tail(s.skip(i)) =~= s.subrange(i, j) + indented_tail(s.skip(j)));
    }
}

/// Wrap a raw snippet into a runnable unit: each of its lines is indented
/// with a tab and inserted, CRLF-joined, between `fn main() {` and `}`.
/// A pure function of the snippet text, so two transformations of the same
/// snippet yield identical compiled units.
pub fn fixup_code(input: String) -> (r: String)
    ensures
        r@ == transformed(input@),
{
    let s = input.as_str();
    let n = s.unicode_len();
    let mut out = String::from_str("fn main() {\r\n");
    if n > 0 {
        out.append("\t");
    }
    proof {
        reveal_strlit("\t");
        assert(s@.skip(0) =~= s@);
        if n > 0 {
            assert("\t"@ =~= seq!['\t']);
        }
        assert("fn main() {\r\n"@ + indented_body(s@) =~= out@ + indented_tail(s@));
    }
    let mut i: usize = 0;
    while i < n
        invariant
            i <= n,
            n == s@.len(),
            "fn main() {\r\n"@ + indented_body(s@) =~= out@ + indented_tail(s@.skip(i as int)),
        decreases n - i,
    {
        let mut j: usize = i;
        while j < n && !is_break(s, j)
            invariant
                i <= j <= n,
                n == s@.len(),
                forall|k: int| i <= k < j ==> !line_break_at(s@, k),
            decreases n - j,
        {
            j = j + 1;
        }
        proof {
            lemma_tail_run(s@, i as int, j as int);
        }
        out.append(s.substring_char(i, j));
        if j < n {
            let ghost t = s@.skip(j as int);
            proof {
                assert(t[0] == s@[j as int]);
            }
            let w: usize = if s.get_char(j) == '\n' {
                1
            } else {
                proof {
                    assert(line_break_at(s@, j as int));
                    assert(t[0] == '\r' && t.len() >= 2 && t[1] == '\n');
                }
                2
            };
            if j + w < n {
                out.append("\r\n\t");
            }
            proof {
                assert(t.skip(w as int) =~= s@.skip(j + w));
                if j + w < n {
                    assert(indented_tail(t) == break_glue() + indented_tail(s@.skip(j + w)));
                    assert(break_glue() =~= "\r\n\t"@) by {
                        reveal_strlit("\r\n\t");
                    }
                } else {
                    assert(t.len() == w);
                    assert(indented_tail(t) =~= Seq::<char>::empty());
                    assert(s@.skip(j + w) =~= Seq::<char>::empty());
                }
                assert("fn main() {\r\n"@ + indented_body(s@) =~= out@ + indented_tail(
                    s@.skip(j + w),
                ));
            }
            i = j + w;
        } else {
            proof {
                assert(s@.skip(j as int) =~= Seq::<char>::empty());
            }
            i = j;
        }
    }
    proof {
        assert(s@.skip(n as int) =~= Seq::<char>::empty());
        assert(indented_tail(Seq::<char>::empty()) =~= Seq::<char>::empty());
    }
    out.append("\r\n}");
    proof {
        assert(out@ =~= transformed(input@));
    }
    out
}

} // verus!
