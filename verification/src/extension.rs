//! File-extension validation and output-path derivation.
//!
//! The extension of a path string is the substring after its last `.`,
//! taken over the whole string.  Validation is non-destructive: the path
//! itself is never normalized, only the extension is compared, ASCII
//! case-insensitively, against the set allowed for the path's role.

use vstd::prelude::*;
use vstd::string::StrSliceExecFns;
use vstd::string::StringExecFns;

use crate::error::{ConvertError, PathRole};

verus! {

/// The index of the last `.` in `s`, or `-1` when `s` holds no `.`.
pub open spec fn last_dot_idx(s: Seq<char>) -> int
    decreases s.len(),
{
    if s.len() == 0 {
        -1
    } else if s[s.len() - 1] == '.' {
        s.len() - 1
    } else {
        last_dot_idx(s.drop_last())
    }
}

/// Whether `s` holds a `.` at all, so that an extension can be read.
pub open spec fn has_extension(s: Seq<char>) -> bool {
    last_dot_idx(s) >= 0
}

/// The substring after the last `.` of `s` (meaningful only when
/// `has_extension(s)` holds).
pub open spec fn extension_of(s: Seq<char>) -> Seq<char> {
    s.subrange(last_dot_idx(s) + 1, s.len() as int)
}

/// `c` with an ASCII uppercase letter folded to lowercase; any other
/// character is left as it is.
pub open spec fn lower_char(c: char) -> char {
    if 'A' <= c && c <= 'Z' {
        (((c as u32) + 32) as u32) as char
    } else {
        c
    }
}

/// `s` with every ASCII uppercase letter folded to lowercase.
pub open spec fn lower_seq(s: Seq<char>) -> Seq<char> {
    s.map_values(|c: char| lower_char(c))
}

/// The extension sets: a raster input may be jpg, jpeg, png or webp in
/// any ASCII case; an output must be svg in any ASCII case.
pub open spec fn is_image_extension(e: Seq<char>) -> bool {
    ||| lower_seq(e) == "jpg"@
    ||| lower_seq(e) == "jpeg"@
    ||| lower_seq(e) == "png"@
    ||| lower_seq(e) == "webp"@
}

/// The singleton extension set allowed for the SVG output.
pub open spec fn is_svg_extension(e: Seq<char>) -> bool {
    lower_seq(e) == "svg"@
}

/// `s` with its extension replaced by `svg`: everything up to and
/// including the last `.` is kept and `svg` follows it.  A string
/// without a `.` gets `.svg` appended.
pub open spec fn with_svg_extension(s: Seq<char>) -> Seq<char> {
    if has_extension(s) {
        s.subrange(0, last_dot_idx(s) + 1) + "svg"@
    } else {
        s + ".svg"@
    }
}

/// The last-dot index always lies strictly below the string's length.
proof fn lemma_last_dot_idx_bounds(s: Seq<char>)
    ensures
        -1 <= last_dot_idx(s) < s.len(),
    decreases s.len(),
{
    if s.len() == 0 {
    } else if s[s.len() - 1] == '.' {
    } else {
        lemma_last_dot_idx_bounds(s.drop_last());
    }
}

/// Lowercasing a string that holds no ASCII uppercase letter leaves it
/// unchanged.
proof fn lemma_lower_seq_id(e: Seq<char>)
    requires
        forall|i: int| 0 <= i < e.len() ==> !('A' <= e[i] && e[i] <= 'Z'),
    ensures
        lower_seq(e) == e,
{
    assert(lower_seq(e) =~= e);
}

/// The four image extension literals and the svg literal are already
/// lowercase.
proof fn lemma_allowed_literals_lower()
    ensures
        lower_seq("jpg"@) == "jpg"@,
        lower_seq("jpeg"@) == "jpeg"@,
        lower_seq("png"@) == "png"@,
        lower_seq("webp"@) == "webp"@,
        lower_seq("svg"@) == "svg"@,
{
    reveal_strlit("jpg");
    reveal_strlit("jpeg");
    reveal_strlit("png");
    reveal_strlit("webp");
    reveal_strlit("svg");
    lemma_lower_seq_id("jpg"@);
    lemma_lower_seq_id("jpeg"@);
    lemma_lower_seq_id("png"@);
    lemma_lower_seq_id("webp"@);
    lemma_lower_seq_id("svg"@);
}

/// When `s` holds a `.` at all, the character at the last-dot index is
/// indeed a `.`.
proof fn lemma_last_dot_is_dot(s: Seq<char>)
    requires
        has_extension(s),
    ensures
        0 <= last_dot_idx(s) < s.len(),
        s[last_dot_idx(s)] == '.',
    decreases s.len(),
{
    lemma_last_dot_idx_bounds(s);
    if s.len() == 0 {
    } else if s[s.len() - 1] == '.' {
    } else {
        lemma_last_dot_is_dot(s.drop_last());
    }
}

/// A `.` with no later `.` after it is the last dot.
proof fn lemma_last_dot_from_suffix(t: Seq<char>, k: int)
    requires
        0 <= k < t.len(),
        t[k] == '.',
        forall|j: int| k < j < t.len() ==> t[j] != '.',
    ensures
        last_dot_idx(t) == k,
    decreases t.len(),
{
    if k == t.len() - 1 {
    } else {
        assert(t.drop_last() =~= t.take(t.len() - 1));
        lemma_last_dot_from_suffix(t.drop_last(), k);
    }
}

/// Output-path derivation closes the loop with output validation: the
/// string `with_svg_extension` yields always holds an extension, and
/// that extension is exactly `svg`, so it would itself be accepted as
/// an output path.
pub proof fn lemma_derived_output_is_svg(s: Seq<char>)
    ensures
        has_extension(with_svg_extension(s)),
        is_svg_extension(extension_of(with_svg_extension(s))),
{
    reveal_strlit("svg");
    reveal_strlit(".svg");
    lemma_allowed_literals_lower();
    let w = with_svg_extension(s);
    if has_extension(s) {
        let d = last_dot_idx(s);
        lemma_last_dot_is_dot(s);
        assert(w[d] == '.');
        lemma_last_dot_from_suffix(w, d);
        assert(extension_of(w) =~= "svg"@);
    } else {
        let k = s.len() as int;
        assert(w[k] == ".svg"@[0]);
        lemma_last_dot_from_suffix(w, k);
        assert(extension_of(w) =~= "svg"@);
    }
}

/// The position of the last `.` of `s`, scanning from the end.
fn find_last_dot(s: &str) -> (r: Option<usize>)
    ensures
        r matches Some(i) ==> i == last_dot_idx(s@),
        r is None <==> last_dot_idx(s@) == -1,
{
    let n = s.unicode_len();
    let mut i = n;
    proof {
        assert(s@.take(n as int) =~= s@);
    }
    while i > 0
        invariant
            i <= n,
            n == s@.len(),
            last_dot_idx(s@) == last_dot_idx(s@.take(i as int)),
        decreases i,
    {
        let c = s.get_char(i - 1);
        if c == '.' {
            proof {
                assert(s@.take(i as int)[i - 1] == '.');
            }
            return Some(i - 1);
        }
        proof {
            assert(s@.take(i as int)[i - 1] != '.');
            assert(s@.take(i as int).drop_last() =~= s@.take(i as int - 1));
        }
        i = i - 1;
    }
    proof {
        assert(s@.take(0).len() == 0);
    }
    None
}

/// `c` folded to ASCII lowercase.
fn ascii_lower(c: char) -> (r: char)
    ensures
        r == lower_char(c),
{
    if 'A' <= c && c <= 'Z' {
        ((c as u8) + 32) as char
    } else {
        c
    }
}

/// Whether `a` and `b` are equal up to ASCII case.
fn eq_ignore_case(a: &str, b: &str) -> (r: bool)
    ensures
        r == (lower_seq(a@) == lower_seq(b@)),
{
    let na = a.unicode_len();
    let nb = b.unicode_len();
    if na != nb {
        proof {
            assert(lower_seq(a@).len() != lower_seq(b@).len());
        }
        return false;
    }
    let mut i: usize = 0;
    while i < na
        invariant
            i <= na,
            na == a@.len(),
            nb == b@.len(),
            na == nb,
            forall|j: int| 0 <= j < i ==> lower_char(a@[j]) == lower_char(b@[j]),
        decreases na - i,
    {
        let ca = a.get_char(i);
        let cb = b.get_char(i);
        if ascii_lower(ca) != ascii_lower(cb) {
            proof {
                assert(lower_seq(a@)[i as int] != lower_seq(b@)[i as int]);
            }
            return false;
        }
        i = i + 1;
    }
    proof {
        assert(lower_seq(a@) =~= lower_seq(b@));
    }
    true
}

/// Checks that `s` names a supported raster image: it must hold a `.`
/// and the substring after the last `.` must be jpg, jpeg, png or webp
/// up to ASCII case.  On success the path is returned unchanged; on
/// failure the error names the rejected extension, or says that none was
/// present.
pub fn validate_image_extension(s: &str) -> (r: Result<String, ConvertError>)
    ensures
        r is Ok <==> has_extension(s@) && is_image_extension(extension_of(s@)),
        r matches Ok(p) ==> p@ == s@,
        !has_extension(s@) ==> r == Err::<String, ConvertError>(
            ConvertError::MissingExtension { role: PathRole::Input },
        ),
        has_extension(s@) && !is_image_extension(extension_of(s@)) ==> (r matches Err(e)
            && e matches ConvertError::InvalidExtension { role, extension } && role
            == PathRole::Input && extension@ == extension_of(s@)),
{
    match find_last_dot(s) {
        None => Err(ConvertError::MissingExtension { role: PathRole::Input }),
        Some(i) => {
            proof {
                lemma_last_dot_idx_bounds(s@);
                lemma_allowed_literals_lower();
            }
            let n = s.unicode_len();
            let ext = s.substring_char(i + 1, n);
            proof {
                assert(ext@ == extension_of(s@));
            }
            if eq_ignore_case(ext, "jpg") || eq_ignore_case(ext, "jpeg") || eq_ignore_case(
                ext,
                "png",
            ) || eq_ignore_case(ext, "webp") {
                Ok(s.to_owned())
            } else {
                Err(
                    ConvertError::InvalidExtension {
                        role: PathRole::Input,
                        extension: ext.to_owned(),
                    },
                )
            }
        },
    }
}

/// Checks that `s` names an SVG output: it must hold a `.` and the
/// substring after the last `.` must be svg up to ASCII case.  On
/// success the path is returned unchanged; on failure the error names
/// the rejected extension, or says that none was present.
pub fn validate_svg_extension(s: &str) -> (r: Result<String, ConvertError>)
    ensures
        r is Ok <==> has_extension(s@) && is_svg_extension(extension_of(s@)),
        r matches Ok(p) ==> p@ == s@,
        !has_extension(s@) ==> r == Err::<String, ConvertError>(
            ConvertError::MissingExtension { role: PathRole::Output },
        ),
        has_extension(s@) && !is_svg_extension(extension_of(s@)) ==> (r matches Err(e)
            && e matches ConvertError::InvalidExtension { role, extension } && role
            == PathRole::Output && extension@ == extension_of(s@)),
{
    match find_last_dot(s) {
        None => Err(ConvertError::MissingExtension { role: PathRole::Output }),
        Some(i) => {
            proof {
                lemma_last_dot_idx_bounds(s@);
                lemma_allowed_literals_lower();
            }
            let n = s.unicode_len();
            let ext = s.substring_char(i + 1, n);
            proof {
                assert(ext@ == extension_of(s@));
            }
            if eq_ignore_case(ext, "svg") {
                Ok(s.to_owned())
            } else {
                Err(
                    ConvertError::InvalidExtension {
                        role: PathRole::Output,
                        extension: ext.to_owned(),
                    },
                )
            }
        },
    }
}

/// `s` with its extension replaced by `svg`; a string without a `.`
/// gets `.svg` appended instead.
pub fn derive_svg_path(s: &str) -> (r: String)
    ensures
        r@ == with_svg_extension(s@),
{
    match find_last_dot(s) {
        Some(i) => {
            proof {
                lemma_last_dot_idx_bounds(s@);
            }
            let n = s.unicode_len();
            let prefix = s.substring_char(0, i + 1);
            let owned: String = prefix.to_owned();
            owned.concat("svg")
        },
        None => {
            let owned: String = s.to_owned();
            owned.concat(".svg")
        },
    }
}

} // verus!
