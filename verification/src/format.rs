//! Target image formats and the file-name conventions of a cache
//! directory.
//!
//! Inside a cache directory the final colored artifact is named
//! `<color>_eq.<ext>`; the LaTeX backend also keeps a colorless
//! intermediate `eq.svg` beside its source `eq.tex`.

use vstd::prelude::*;
use vstd::string::*;

use crate::strutil::str_concat3;

verus! {

/// The two target image formats.
#[derive(Copy, Clone, Eq, PartialEq, Structural, Debug, Hash)]
pub enum ImageFormat {
    Svg,
    Png,
}

/// The lowercase file extension of a format.
pub open spec fn spec_extension(f: ImageFormat) -> Seq<char> {
    match f {
        ImageFormat::Svg => "svg"@,
        ImageFormat::Png => "png"@,
    }
}

/// The file name used when the user names none.
pub open spec fn spec_default_file_name(f: ImageFormat) -> Seq<char> {
    match f {
        ImageFormat::Svg => "eq.svg"@,
        ImageFormat::Png => "eq.png"@,
    }
}

/// The name of the colored artifact for a color and format:
/// `<color>_eq.<ext>`.
pub open spec fn spec_colored_name(color: Seq<char>, f: ImageFormat) -> Seq<char> {
    color + "_eq."@ + spec_extension(f)
}

impl ImageFormat {
    /// The file name offered when the user has not chosen one.
    pub fn default_file_name(self) -> (r: &'static str)
        ensures
            r@ == spec_default_file_name(self),
    {
        match self {
            Self::Svg => "eq.svg",
            Self::Png => "eq.png",
        }
    }

    /// The format's lowercase file extension.
    pub fn extension(self) -> (r: &'static str)
        ensures
            r@ == spec_extension(self),
    {
        match self {
            Self::Svg => "svg",
            Self::Png => "png",
        }
    }
}

impl Default for ImageFormat {
    /// SVG is the default format.
    fn default() -> (r: Self)
        ensures
            r is Svg,
    {
        Self::Svg
    }
}

/// The colored artifact's file name, `<color>_eq.<ext>`.
pub fn artifact_file_name(color: &str, format: ImageFormat) -> (r: String)
    ensures
        r@ == spec_colored_name(color@, format),
{
    str_concat3(color, "_eq.", format.extension())
}

/// Index of the last occurrence of `c` in `s`, if any.
pub open spec fn spec_rfind_char(s: Seq<char>, c: char) -> Option<int>
    decreases s.len(),
{
    if s.len() == 0 {
        None
    } else if s[s.len() - 1] == c {
        Some(s.len() - 1)
    } else {
        spec_rfind_char(s.drop_last(), c)
    }
}

proof fn lemma_rfind_char_at(s: Seq<char>, c: char, i: int)
    requires
        0 <= i < s.len(),
        s[i] == c,
        forall|j: int| i < j < s.len() ==> s[j] != c,
    ensures
        spec_rfind_char(s, c) == Some(i),
    decreases s.len(),
{
    if i < s.len() - 1 {
        assert(forall|j: int| i < j < s.drop_last().len() ==> s.drop_last()[j] == s[j]);
        lemma_rfind_char_at(s.drop_last(), c, i);
    }
}

proof fn lemma_rfind_char_none(s: Seq<char>, c: char)
    requires
        forall|j: int| 0 <= j < s.len() ==> s[j] != c,
    ensures
        spec_rfind_char(s, c) is None,
    decreases s.len(),
{
    if s.len() != 0 {
        assert(forall|j: int| 0 <= j < s.drop_last().len() ==> s.drop_last()[j] == s[j]);
        lemma_rfind_char_none(s.drop_last(), c);
    }
}

/// Last occurrence of `c` in `s`, scanning right to left.
pub fn rfind_char(s: &str, c: char) -> (r: Option<usize>)
    ensures
        match r {
            Some(i) => i < s@.len() && spec_rfind_char(s@, c) == Some(i as int),
            None => spec_rfind_char(s@, c) is None,
        },
{
    let n = s.unicode_len();
    let mut i: usize = n;
    while i > 0
        invariant
            0 <= i <= n,
            n == s@.len(),
            forall|j: int| i <= j < n ==> s@[j] != c,
        decreases i,
    {
        i = i - 1;
        if s.get_char(i) == c {
            proof {
                lemma_rfind_char_at(s@, c, i as int);
            }
            return Some(i);
        }
    }
    proof {
        lemma_rfind_char_none(s@, c);
    }
    None
}

/// `name` with its extension replaced by `ext`: everything from the last
/// dot on is dropped first, unless that dot opens the name (a dotfile has
/// no extension); then a dot and `ext` are appended.
pub open spec fn spec_with_extension(name: Seq<char>, ext: Seq<char>) -> Seq<char> {
    match spec_rfind_char(name, '.') {
        Some(i) => if i > 0 {
            name.take(i) + seq!['.'] + ext
        } else {
            name + seq!['.'] + ext
        },
        None => name + seq!['.'] + ext,
    }
}

/// Replace the extension of a plain file name.
pub fn with_extension(name: &str, ext: &str) -> (r: String)
    ensures
        r@ == spec_with_extension(name@, ext@),
{
    let dot = ".";
    proof {
        reveal_strlit(".");
        assert(dot@ =~= seq!['.']);
    }
    match rfind_char(name, '.') {
        Some(i) => {
            if i > 0 {
                let stem = name.substring_char(0, i);
                proof {
                    assert(stem@ =~= name@.take(i as int));
                }
                str_concat3(stem, dot, ext)
            } else {
                str_concat3(name, dot, ext)
            }
        },
        None => str_concat3(name, dot, ext),
    }
}

/// The file name that the rendered artifact is copied to: the name the
/// user typed with its extension forced to the chosen format's, or the
/// format's default name when none was typed.
pub open spec fn spec_dest_file_name(name: Option<Seq<char>>, f: ImageFormat) -> Seq<char> {
    match name {
        None => spec_default_file_name(f),
        Some(n) => spec_with_extension(n, spec_extension(f)),
    }
}

/// The destination file name for a user-chosen name and format.
pub fn dest_file_name(name: Option<&str>, format: ImageFormat) -> (r: String)
    ensures
        r@ == spec_dest_file_name(
            match name {
                Some(n) => Some(n@),
                None => None,
            },
            format,
        ),
{
    match name {
        None => format.default_file_name().to_owned(),
        Some(n) => with_extension(n, format.extension()),
    }
}

} // verus!
