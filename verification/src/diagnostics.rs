//! The diagnostic-extraction heuristic shared by both backends.
//!
//! External tools print verbose logs. When a tool fails, the concise error
//! message is isolated as follows: prefer stdout when it is non-empty, else
//! stderr; when the chosen text contains a `!` (the typesetter's error
//! marker), keep only the contiguous run of non-blank lines that starts
//! there; otherwise hand the text back whole.

use vstd::prelude::*;
use vstd::string::*;

use crate::strutil::{find_char, lemma_find_char_props, spec_find_char};

verus! {

/// The ASCII whitespace characters: space, tab, line feed, form feed,
/// carriage return.
pub open spec fn spec_is_ascii_whitespace(c: char) -> bool {
    c == ' ' || c == '\t' || c == '\n' || c == '\u{0c}' || c == '\r'
}

fn is_ascii_ws(c: char) -> (r: bool)
    ensures
        r == spec_is_ascii_whitespace(c),
{
    c == ' ' || c == '\t' || c == '\n' || c == '\u{0c}' || c == '\r'
}

/// A line is blank when every character on it is ASCII whitespace; the
/// empty line is blank.
pub open spec fn spec_is_blank_line(l: Seq<char>) -> bool {
    forall|j: int| 0 <= j < l.len() ==> spec_is_ascii_whitespace(l[j])
}

fn is_blank(l: &str) -> (r: bool)
    ensures
        r == spec_is_blank_line(l@),
{
    let n = l.unicode_len();
    let mut k: usize = 0;
    while k < n
        invariant
            0 <= k <= n,
            n == l@.len(),
            forall|j: int| 0 <= j < k ==> spec_is_ascii_whitespace(l@[j]),
        decreases n - k,
    {
        if !is_ascii_ws(l.get_char(k)) {
            return false;
        }
        k = k + 1;
    }
    true
}

/// A line with its trailing carriage return removed, if it has one.
pub open spec fn spec_strip_cr(l: Seq<char>) -> Seq<char> {
    if l.len() > 0 && l[l.len() - 1] == '\r' {
        l.drop_last()
    } else {
        l
    }
}

/// The lines of a text: split at each line feed, dropping a carriage
/// return that stands just before it; the final line needs no terminator,
/// and a terminator on the last line adds no empty line after it.
pub open spec fn spec_lines(s: Seq<char>) -> Seq<Seq<char>>
    decreases s.len(),
{
    if s.len() == 0 {
        Seq::empty()
    } else {
        match spec_find_char(s, '\n') {
            None => seq![s],
            Some(k) => if 0 <= k < s.len() {
                seq![spec_strip_cr(s.subrange(0, k))] + spec_lines(s.skip(k + 1))
            } else {
                seq![s]
            },
        }
    }
}

/// Split a text into its lines.
pub fn lines_of<'a>(s: &'a str) -> (r: Vec<&'a str>)
    ensures
        r.deep_view() == spec_lines(s@),
{
    let n = s.unicode_len();
    let mut out: Vec<&'a str> = Vec::new();
    let mut pos: usize = 0;
    proof {
        assert(s@.skip(0) =~= s@);
        assert(out.deep_view() + spec_lines(s@.skip(0)) =~= spec_lines(s@));
    }
    while pos < n
        invariant
            0 <= pos <= n,
            n == s@.len(),
            out.deep_view() + spec_lines(s@.skip(pos as int)) =~= spec_lines(s@),
        decreases n - pos,
    {
        let ghost suffix = s@.skip(pos as int);
        let ghost out0 = out.deep_view();
        let rest = s.substring_char(pos, n);
        proof {
            assert(rest@ =~= suffix);
            lemma_find_char_props(suffix, '\n');
        }
        match find_char(rest, '\n') {
            None => {
                out.push(rest);
                proof {
                    assert(spec_lines(suffix) =~= seq![suffix]);
                    assert(out.deep_view() =~= out0 + seq![suffix]);
                    assert(s@.skip(n as int) =~= Seq::<char>::empty());
                    assert(out.deep_view() + spec_lines(s@.skip(n as int)) =~= spec_lines(s@));
                }
                pos = n;
            },
            Some(k) => {
                let ghost whole_line = suffix.subrange(0, k as int);
                let line: &str = if k > 0 && rest.get_char(k - 1) == '\r' {
                    rest.substring_char(0, k - 1)
                } else {
                    rest.substring_char(0, k)
                };
                proof {
                    if k > 0 && suffix[k - 1] == '\r' {
                        assert(line@ =~= whole_line.drop_last());
                    } else {
                        assert(line@ =~= whole_line);
                    }
                    assert(line@ == spec_strip_cr(whole_line));
                }
                out.push(line);
                proof {
                    assert(out.deep_view() =~= out0 + seq![line@]);
                    assert(suffix.skip(k + 1) =~= s@.skip(pos + k + 1));
                    assert(spec_lines(suffix) == seq![spec_strip_cr(whole_line)] + spec_lines(
                        suffix.skip(k + 1),
                    ));
                    assert(out.deep_view() + spec_lines(s@.skip(pos + k + 1)) =~= spec_lines(s@));
                }
                pos = pos + k + 1;
            },
        }
    }
    proof {
        assert(s@.skip(n as int) =~= Seq::<char>::empty());
        assert(out.deep_view() =~= spec_lines(s@));
    }
    out
}

/// The longest prefix of wholly non-blank lines.
pub open spec fn spec_take_nonblank(ls: Seq<Seq<char>>) -> Seq<Seq<char>>
    decreases ls.len(),
{
    if ls.len() == 0 {
        ls
    } else if spec_is_blank_line(ls[0]) {
        Seq::empty()
    } else {
        seq![ls[0]] + spec_take_nonblank(ls.drop_first())
    }
}

/// Keep the contiguous run of non-blank lines at the front.
pub fn take_nonblank<'a>(ls: &Vec<&'a str>) -> (r: Vec<&'a str>)
    ensures
        r.deep_view() == spec_take_nonblank(ls.deep_view()),
{
    let mut out: Vec<&'a str> = Vec::new();
    let mut i: usize = 0;
    let mut stop = false;
    proof {
        assert(ls.deep_view().skip(0) =~= ls.deep_view());
        assert(out.deep_view() + spec_take_nonblank(ls.deep_view().skip(0)) =~= spec_take_nonblank(
            ls.deep_view(),
        ));
    }
    while i < ls.len() && !stop
        invariant
            0 <= i <= ls.len(),
            ls.deep_view().len() == ls.len(),
            !stop ==> out.deep_view() + spec_take_nonblank(ls.deep_view().skip(i as int))
                =~= spec_take_nonblank(ls.deep_view()),
            stop ==> out.deep_view() == spec_take_nonblank(ls.deep_view()),
        decreases ls.len() - i + if stop {
            0int
        } else {
            1int
        },
    {
        let ghost rest = ls.deep_view().skip(i as int);
        let ghost out0 = out.deep_view();
        let line = ls[i];
        proof {
            assert(line@ == rest[0]);
        }
        if is_blank(line) {
            proof {
                assert(spec_take_nonblank(rest) =~= Seq::<Seq<char>>::empty());
                assert(out.deep_view() =~= spec_take_nonblank(ls.deep_view()));
            }
            stop = true;
        } else {
            out.push(line);
            proof {
                assert(out.deep_view() =~= out0 + seq![line@]);
                assert(rest.drop_first() =~= ls.deep_view().skip(i + 1));
                assert(spec_take_nonblank(rest) == seq![rest[0]] + spec_take_nonblank(
                    rest.drop_first(),
                ));
                assert(out.deep_view() + spec_take_nonblank(ls.deep_view().skip(i + 1))
                    =~= spec_take_nonblank(ls.deep_view()));
            }
            i = i + 1;
        }
    }
    proof {
        if !stop {
            assert(ls.deep_view().skip(i as int) =~= Seq::<Seq<char>>::empty());
            assert(out.deep_view() =~= spec_take_nonblank(ls.deep_view()));
        }
    }
    out
}

/// The lines, written in order with the separator between each adjacent
/// pair; no separator leads or trails.
pub open spec fn spec_join(ls: Seq<Seq<char>>, sep: Seq<char>) -> Seq<char>
    decreases ls.len(),
{
    if ls.len() == 0 {
        Seq::empty()
    } else if ls.len() == 1 {
        ls[0]
    } else {
        ls[0] + sep + spec_join(ls.drop_first(), sep)
    }
}

/// Relies on itertools' `Itertools::join`: it writes the elements in
/// order with the separator between each adjacent pair, and gives an
/// empty string for an empty iterator.
#[verifier::external_body]
fn join_with(lines: &Vec<&str>, sep: &str) -> (r: String)
    ensures
        r@ == spec_join(lines.deep_view(), sep@),
{
    itertools::Itertools::join(&mut lines.iter(), sep)
}

/// The heuristic applied to the chosen text: when it holds a `!`, only
/// the run of non-blank lines that starts at the first one, joined back
/// with line feeds; otherwise the text whole.
pub open spec fn spec_extract_from(chosen: Seq<char>) -> Seq<char> {
    match spec_find_char(chosen, '!') {
        None => chosen,
        Some(i) => spec_join(spec_take_nonblank(spec_lines(chosen.skip(i))), seq!['\n']),
    }
}

/// The diagnostic text extracted from a failed tool's output: the
/// heuristic applied to stdout when stdout is non-empty, else to stderr.
pub open spec fn spec_extract(stdout: Seq<char>, stderr: Seq<char>) -> Seq<char> {
    if stdout.len() == 0 {
        spec_extract_from(stderr)
    } else {
        spec_extract_from(stdout)
    }
}

/// Extract a concise diagnostic message from a failed tool's stdout and
/// stderr.
pub fn extract_message(stdout: &str, stderr: &str) -> (r: String)
    ensures
        r@ == spec_extract(stdout@, stderr@),
{
    let chosen: &str = if stdout.is_empty() {
        stderr
    } else {
        stdout
    };
    let n = chosen.unicode_len();
    match find_char(chosen, '!') {
        None => chosen.to_owned(),
        Some(i) => {
            proof {
                lemma_find_char_props(chosen@, '!');
            }
            let tail = chosen.substring_char(i, n);
            proof {
                assert(tail@ =~= chosen@.skip(i as int));
            }
            let ls = lines_of(tail);
            let kept = take_nonblank(&ls);
            let sep = "\n";
            proof {
                reveal_strlit("\n");
                assert(sep@ =~= seq!['\n']);
            }
            join_with(&kept, sep)
        },
    }
}

} // verus!
