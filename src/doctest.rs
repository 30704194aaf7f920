//! Hidden doctest lines: inside an example code block, a line that starts
//! with `# ` is setup that compiles under test but is not shown to readers.
use vstd::prelude::*;
use vstd::string::*;
use itertools::Itertools;

verus! {

/// The line starting at `i`, when `i` is in range, ends at the result:
/// the first `'\n'` at or after `i`, or the end of `s`.
pub open spec fn next_newline(s: Seq<char>, i: int) -> int
    decreases s.len() - i,
{
    if i >= s.len() {
        s.len() as int
    } else if s[i] == '\n' {
        i
    } else {
        next_newline(s, i + 1)
    }
}

/// A line ended by `"\r\n"` loses its `'\r'` as well as its `'\n'`.
pub open spec fn trim_cr(line: Seq<char>) -> Seq<char> {
    if line.len() > 0 && line.last() == '\r' {
        line.drop_last()
    } else {
        line
    }
}

/// The lines of `s` from position `i` on, as `str::lines` splits them: at
/// each `'\n'` (a `'\r'` just before it is dropped too); a last line that
/// has no `'\n'` is kept as it is, and a final `'\n'` opens no empty line.
pub open spec fn lines_from(s: Seq<char>, i: int) -> Seq<Seq<char>>
    decreases s.len() - i,
{
    if i < 0 || i >= s.len() {
        seq![]
    } else {
        let j = next_newline(s, i);
        if j >= s.len() || j < i {
            seq![s.subrange(i, s.len() as int)]
        } else {
            seq![trim_cr(s.subrange(i, j))] + lines_from(s, j + 1)
        }
    }
}

pub open spec fn lines(s: Seq<char>) -> Seq<Seq<char>> {
    lines_from(s, 0)
}

/// A hidden line starts with the two characters `'#'` and `' '`; a line
/// that is exactly `"#"` is not hidden.
pub open spec fn is_hidden(line: Seq<char>) -> bool {
    line.len() >= 2 && line[0] == '#' && line[1] == ' '
}

/// The lines joined with one `'\n'` between each two of them.
pub open spec fn join_lines(ls: Seq<Seq<char>>) -> Seq<char>
    decreases ls.len(),
{
    if ls.len() == 0 {
        seq![]
    } else if ls.len() == 1 {
        ls[0]
    } else {
        join_lines(ls.drop_last()) + seq!['\n'] + ls.last()
    }
}

/// The lines that are shown to readers, in their order.
pub open spec fn shown(ls: Seq<Seq<char>>) -> Seq<Seq<char>> {
    ls.filter(|l: Seq<char>| !is_hidden(l))
}

/// The text with every hidden line removed, the other lines rejoined.
pub open spec fn strip_hidden(text: Seq<char>) -> Seq<char> {
    join_lines(shown(lines(text)))
}

pub open spec fn views(v: Seq<String>) -> Seq<Seq<char>> {
    v.map_values(|l: String| l@)
}

/// Skipping characters that are not newlines does not move the line's end.
proof fn lemma_next_newline_skip(s: Seq<char>, start: int, i: int)
    requires
        0 <= start <= i <= s.len(),
        forall|k: int| start <= k < i ==> s[k] != '\n',
    ensures
        next_newline(s, start) == next_newline(s, i),
    decreases i - start,
{
    if start < i {
        lemma_next_newline_skip(s, start + 1, i);
    }
}

proof fn lemma_shown_cons(l: Seq<char>, rest: Seq<Seq<char>>)
    ensures
        shown(seq![l] + rest) == (if is_hidden(l) {
            shown(rest)
        } else {
            seq![l] + shown(rest)
        }),
{
    Seq::filter_distributes_over_add(seq![l], rest, |l: Seq<char>| !is_hidden(l));
    reveal_with_fuel(Seq::filter, 2);
    assert(seq![l].drop_last() =~= Seq::<Seq<char>>::empty());
}

fn is_hidden_line(line: &str) -> (r: bool)
    ensures
        r == is_hidden(line@),
{
    let n = line.unicode_len();
    n >= 2 && line.get_char(0) == '#' && line.get_char(1) == ' '
}

/// Relies on itertools' `Itertools::join`: each item written in turn, the
/// separator `"\n"` between each two, and an empty string for no items.
#[verifier::external_body]
fn join_with_newlines(ls: &Vec<String>) -> (r: String)
    ensures
        r@ == join_lines(views(ls@)),
{
    ls.iter().join("\n")
}

/// The lines of `text` that are shown to readers, in order.
fn shown_lines(text: &str) -> (r: Vec<String>)
    ensures
        views(r@) == shown(lines(text@)),
{
    let ghost s = text@;
    let n = text.unicode_len();
    let mut out: Vec<String> = Vec::new();
    let mut start: usize = 0;
    let mut i: usize = 0;
    while i < n
        invariant
            n == s.len(),
            text@ == s,
            start <= i <= n,
            forall|k: int| start <= k < i ==> s[k] != '\n',
            views(out@) + shown(lines_from(s, start as int)) == shown(lines(s)),
        decreases n - i,
    {
        if text.get_char(i) == '\n' {
            proof {
                lemma_next_newline_skip(s, start as int, i as int);
            }
            let end: usize = if i > start && text.get_char(i - 1) == '\r' {
                i - 1
            } else {
                i
            };
            let line = text.substring_char(start, end);
            proof {
                assert(line@ == trim_cr(s.subrange(start as int, i as int)));
                assert(lines_from(s, start as int) == seq![line@] + lines_from(s, i + 1));
                lemma_shown_cons(line@, lines_from(s, i + 1));
            }
            if !is_hidden_line(line) {
                let ghost before = out@;
                out.push(line.to_string());
                proof {
                    assert(views(out@) =~= views(before) + seq![line@]);
                }
            }
            start = i + 1;
        }
        i = i + 1;
    }
    proof {
        lemma_next_newline_skip(s, start as int, n as int);
    }
    if start < n {
        let line = text.substring_char(start, n);
        proof {
            assert(lines_from(s, start as int) == seq![line@]);
            lemma_shown_cons(line@, seq![]);
            assert(seq![line@] + Seq::<Seq<char>>::empty() =~= seq![line@]);
        }
        if !is_hidden_line(line) {
            let ghost before = out@;
            out.push(line.to_string());
            proof {
                assert(views(out@) =~= views(before) + seq![line@]);
            }
        }
    }
    proof {
        assert(views(out@) + Seq::<Seq<char>>::empty() =~= views(out@));
    }
    out
}

/// Removes the hidden lines of a code block's text: the text is split into
/// lines, each line that starts with `"# "` is dropped, and the rest are
/// joined again with `'\n'`.
pub fn strip_hidden_lines(text: &str) -> (r: String)
    ensures
        r@ == strip_hidden(text@),
{
    let kept = shown_lines(text);
    join_with_newlines(&kept)
}

} // verus!
