//! Paths are carried as text; the few path operations the tool needs are
//! those of `std::path`, whose results depend on the platform the tool was
//! built for. What holds on every platform is stated; the rest is not.

use vstd::prelude::*;

verus! {

/// `s` ends with `tail`.
pub open spec fn ends_with(s: Seq<char>, tail: Seq<char>) -> bool {
    tail.len() <= s.len() && s.subrange(s.len() - tail.len(), s.len() as int) == tail
}

/// `c` occurs in `s`.
pub open spec fn has_char(s: Seq<char>, c: char) -> bool {
    exists|i: int| 0 <= i < s.len() && #[trigger] s[i] == c
}

/// A single file-name component on every platform: not empty, not `.` or
/// `..`, and free of separators (`/`, `\`) and drive markers (`:`).
pub open spec fn plain_file_name(s: Seq<char>) -> bool {
    &&& s.len() > 0
    &&& s != seq!['.']
    &&& s != seq!['.', '.']
    &&& forall|i: int| 0 <= i < s.len() ==> #[trigger] s[i] != '/' && s[i] != '\\' && s[i] != ':'
}

/// A relative path on every platform: not empty, not starting with a
/// separator, and without drive markers.
pub open spec fn relative_text(t: Seq<char>) -> bool {
    t.len() > 0 && t[0] != '/' && t[0] != '\\' && !has_char(t, ':')
}

/// A single file-name component is a relative path.
pub proof fn lemma_plain_is_relative(t: Seq<char>)
    requires
        plain_file_name(t),
    ensures
        relative_text(t),
{
    assert(t[0] != '/' && t[0] != '\\');
    assert(!has_char(t, ':')) by {
        if has_char(t, ':') {
            let i = choose|i: int| 0 <= i < t.len() && #[trigger] t[i] == ':';
            assert(t[i] != ':');
        }
    }
}

/// A Windows verbatim path (`\\?\...`).
pub open spec fn verbatim(base: Seq<char>) -> bool {
    base.len() >= 4 && base[0] == '\\' && base[1] == '\\' && base[2] == '?' && base[3] == '\\'
}

/// `tail` adjoined to `base`, with or without one separator between them.
pub open spec fn joined_form(r: Seq<char>, base: Seq<char>, tail: Seq<char>) -> bool {
    ||| r == base + tail
    ||| r == base + seq!['/'] + tail
    ||| r == base + seq!['\\'] + tail
}

/// What `Path::join` gives on every platform: a plain file name ends the
/// result, and outside verbatim paths a relative path is adjoined to the
/// base with at most one separator.
pub open spec fn join_ok(base: Seq<char>, tail: Seq<char>, r: Seq<char>) -> bool {
    &&& plain_file_name(tail) ==> ends_with(r, tail)
    &&& relative_text(tail) && !verbatim(base) ==> joined_form(r, base, tail)
}

/// The text after the last `/`.
pub open spec fn last_segment(p: Seq<char>) -> Seq<char>
    decreases p.len(),
{
    if p.len() == 0 {
        p
    } else if p.last() == '/' {
        Seq::empty()
    } else {
        last_segment(p.drop_last()).push(p.last())
    }
}

/// The text after the last `/`, `\` or `:`: the end of the file name on
/// every platform.
pub open spec fn final_name(p: Seq<char>) -> Seq<char>
    decreases p.len(),
{
    if p.len() == 0 {
        p
    } else if p.last() == '/' || p.last() == '\\' || p.last() == ':' {
        Seq::empty()
    } else {
        final_name(p.drop_last()).push(p.last())
    }
}

/// Not a network share or device path: the path does not start with two
/// separators.
pub open spec fn no_share(p: Seq<char>) -> bool {
    !(p.len() >= 2 && (p[0] == '/' || p[0] == '\\') && (p[1] == '/' || p[1] == '\\'))
}

/// A file name with an extension: a `.` after its first character, and not
/// `..`.
pub open spec fn dotted_name(seg: Seq<char>) -> bool {
    seg != seq!['.', '.'] && exists|i: int| 0 < i < seg.len() && #[trigger] seg[i] == '.'
}

/// What `Path::extension` tells on every platform: a path without any `.`
/// has none; nor has a path that ends in a file name with no `.` after its
/// last `/`; a path whose file name ends in a dotted name has one.
pub open spec fn has_extension_ok(p: Seq<char>, b: bool) -> bool {
    &&& !has_char(p, '.') ==> !b
    &&& no_share(p) && final_name(p).len() > 0 && !has_char(last_segment(p), '.') ==> !b
    &&& no_share(p) && dotted_name(final_name(p)) ==> b
}

/// What `Path::with_extension` gives on every platform: a path that ends in
/// a file name, with no `.` after its last `/`, gets `.` and the extension
/// appended.
pub open spec fn with_extension_ok(p: Seq<char>, ext: Seq<char>, r: Seq<char>) -> bool {
    no_share(p) && final_name(p).len() > 0 && !has_char(last_segment(p), '.') && ext.len() > 0
        ==> r == p + seq!['.'] + ext
}

/// What `Path::parent` gives on every platform: a non-empty path without
/// separators or drive markers has the empty parent.
pub open spec fn parent_ok(p: Seq<char>, r: Option<Seq<char>>) -> bool {
    p.len() > 0 && !has_char(p, '/') && !has_char(p, '\\') && !has_char(p, ':') ==> r == Some(
        Seq::<char>::empty(),
    )
}

/// What `Path::is_relative` tells on every platform: a path that starts
/// with no separator and has no drive marker is relative.
pub open spec fn relative_ok(p: Seq<char>, b: bool) -> bool {
    (p.len() == 0 || (p[0] != '/' && p[0] != '\\')) && !has_char(p, ':') ==> b
}

/// Printable ASCII that `Debug` writes unescaped on every platform.
pub open spec fn debug_plain(p: Seq<char>) -> bool {
    forall|i: int|
        0 <= i < p.len() ==> ' ' <= #[trigger] p[i] && p[i] <= '~' && p[i] != '"' && p[i] != '\\'
            && p[i] != '\''
}

/// What `Debug` writes for a path on every platform: plain printable text
/// in double quotes.
pub open spec fn debug_ok(p: Seq<char>, r: Seq<char>) -> bool {
    debug_plain(p) ==> r == seq!['"'] + p + seq!['"']
}

/// `Path::join`, as text. Where the separator goes and what happens to
/// absolute paths, drive prefixes and verbatim bases differs between
/// platforms and is left unsaid beyond `join_ok`.
#[verifier::external_body]
pub(crate) fn path_join(base: &str, tail: &str) -> (r: String)
    ensures
        join_ok(base@, tail@, r@),
{
    std::path::Path::new(base).join(tail).to_string_lossy().into_owned()
}

/// Whether `Path::extension` finds an extension; beyond `has_extension_ok`,
/// where the file name starts differs between platforms and is left
/// unsaid.
#[verifier::external_body]
pub(crate) fn path_has_extension(p: &str) -> (r: bool)
    ensures
        has_extension_ok(p@, r),
{
    std::path::Path::new(p).extension().is_some()
}

/// `Path::with_extension`, as text. An extension with a separator makes it
/// panic, so none is admitted; beyond `with_extension_ok`, where the file
/// name starts differs between platforms and is left unsaid.
#[verifier::external_body]
pub(crate) fn path_with_extension(p: &str, ext: &str) -> (r: String)
    requires
        !has_char(ext@, '/'),
        !has_char(ext@, '\\'),
    ensures
        with_extension_ok(p@, ext@, r@),
{
    std::path::Path::new(p).with_extension(ext).to_string_lossy().into_owned()
}

/// `Path::parent`, as text. Beyond `parent_ok`, which component is the last
/// differs between platforms and is left unsaid.
#[verifier::external_body]
pub(crate) fn path_parent(p: &str) -> (r: Option<String>)
    ensures
        parent_ok(
            p@,
            match r {
                Some(s) => Some(s@),
                None => None,
            },
        ),
{
    match std::path::Path::new(p).parent() {
        Some(parent) => Some(parent.to_string_lossy().into_owned()),
        None => None,
    }
}

/// `Path::is_relative`. Beyond `relative_ok`, what counts as absolute
/// differs between platforms and is left unsaid.
#[verifier::external_body]
pub(crate) fn path_is_relative(p: &str) -> (r: bool)
    ensures
        relative_ok(p@, r),
{
    std::path::Path::new(p).is_relative()
}

/// The `Debug` rendering of a path (quoted, with escapes). Beyond
/// `debug_ok`, which characters are escaped differs between platforms and
/// is left unsaid.
#[verifier::external_body]
pub(crate) fn path_debug_text(p: &str) -> (r: String)
    ensures
        debug_ok(p@, r@),
{
    format!("{:?}", std::path::Path::new(p))
}

} // verus!
