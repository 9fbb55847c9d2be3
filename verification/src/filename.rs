//! Timestamped screenshot file names.

use vstd::prelude::*;
use crate::paths::{
    ends_with, joined_form, lemma_plain_is_relative, path_join, plain_file_name, verbatim,
};
use crate::text::{
    all_digits, chars_of, is_digit, is_unicode_digit, lemma_ascii_digit_is_unicode_digit, push_char,
    unicode_digit,
};

verus! {

/// Characters that cannot appear in a file name on Windows.
pub open spec fn invalid_filename_char(c: char) -> bool {
    c == '/' || c == '\\' || c == ':' || c == '*' || c == '?' || c == '"' || c == '<' || c == '>'
        || c == '|'
}

/// `name` with every character that is invalid in a file name replaced by
/// `_`.
pub open spec fn sanitized(name: Seq<char>) -> Seq<char> {
    name.map_values(|c: char| if invalid_filename_char(c) { '_' } else { c })
}

/// The file name for an optional suffix and a date prefix.
pub open spec fn filename_for(suffix: Option<Seq<char>>, date_prefix: Seq<char>) -> Seq<char> {
    match suffix {
        Some(s) => date_prefix + "_"@ + sanitized(s) + ".png"@,
        None => date_prefix + ".png"@,
    }
}

/// The view of an optional string.
pub open spec fn optional_text(o: Option<String>) -> Option<Seq<char>> {
    match o {
        Some(s) => Some(s@),
        None => None,
    }
}

/// `YYYY.MM.DD_HHMMSS` at the start of `s`, with decimal digits of any
/// script.
pub open spec fn stamp_at_start(s: Seq<char>) -> bool {
    &&& s.len() >= 17
    &&& forall|k: int|
        0 <= k < 17 ==> if k == 4 || k == 7 {
            #[trigger] s[k] == '.'
        } else if k == 10 {
            s[k] == '_'
        } else {
            unicode_digit(s[k])
        }
}

/// No line break in `s`.
pub open spec fn single_line(s: Seq<char>) -> bool {
    forall|i: int| 0 <= i < s.len() ==> #[trigger] s[i] != '\n'
}

/// The accepted file-name shapes: `YYYY.MM.DD_HHMMSS.png`, or
/// `YYYY.MM.DD_HHMMSS_<suffix>.png` with a suffix of at least one character
/// and no line break.
pub open spec fn filename_format_ok(s: Seq<char>) -> bool {
    ||| s.len() == 21 && stamp_at_start(s) && s.subrange(17, 21) == ".png"@
    ||| s.len() >= 23 && stamp_at_start(s) && s[17] == '_' && ends_with(s, ".png"@)
        && single_line(s.subrange(18, s.len() - 4))
}

/// What `%Y.%m.%d_%H%M%S` writes: a year of four digits (with a sign and
/// more digits outside 0..=9999), then `.MM.DD_HHMMSS`.
pub open spec fn is_timestamp(s: Seq<char>) -> bool {
    &&& s.len() >= 17
    &&& {
        let year = s.subrange(0, s.len() - 13);
        ||| year.len() == 4 && all_digits(year)
        ||| year.len() >= 5 && (year[0] == '+' || year[0] == '-') && all_digits(year.drop_first())
    }
    &&& {
        let t = s.subrange(s.len() - 13, s.len() as int);
        &&& t[0] == '.' && is_digit(t[1]) && is_digit(t[2])
        &&& t[3] == '.' && is_digit(t[4]) && is_digit(t[5])
        &&& t[6] == '_'
        &&& is_digit(t[7]) && is_digit(t[8]) && is_digit(t[9])
        &&& is_digit(t[10]) && is_digit(t[11]) && is_digit(t[12])
    }
}

/// Check if a character is invalid for filenames.
pub fn is_invalid_filename_char(c: char) -> (r: bool)
    ensures
        r == invalid_filename_char(c),
{
    c == '/' || c == '\\' || c == ':' || c == '*' || c == '?' || c == '"' || c == '<' || c == '>'
        || c == '|'
}

/// Sanitize a filename by replacing invalid characters with `_`.
pub fn sanitize_filename(name: &str) -> (r: String)
    ensures
        r@ == sanitized(name@),
{
    let v = chars_of(name);
    let mut out = String::new();
    let mut i: usize = 0;
    while i < v.len()
        invariant
            v@ == name@,
            i <= v.len(),
            out@ == sanitized(name@.subrange(0, i as int)),
        decreases v.len() - i,
    {
        let c = v[i];
        if is_invalid_filename_char(c) {
            push_char(&mut out, '_');
        } else {
            push_char(&mut out, c);
        }
        i = i + 1;
        assert(out@ =~= sanitized(name@.subrange(0, i as int)));
    }
    assert(name@.subrange(0, v.len() as int) =~= name@);
    out
}

/// Sanitizing keeps the length, replaces exactly the invalid characters,
/// leaves no invalid character behind, and changes nothing when repeated.
pub proof fn law_sanitized_is_clean(name: Seq<char>)
    ensures
        sanitized(name).len() == name.len(),
        forall|i: int| 0 <= i < name.len() ==> !invalid_filename_char(#[trigger] sanitized(name)[i]),
        forall|i: int| 0 <= i < name.len() ==> (#[trigger] sanitized(name)[i] == name[i]
            <==> !invalid_filename_char(name[i])),
        sanitized(sanitized(name)) == sanitized(name),
{
    assert(sanitized(sanitized(name)) =~= sanitized(name));
}

/// Generate a filename with a given date prefix.
pub fn generate_filename_with_datetime(suffix: &Option<String>, date_prefix: String) -> (r: String)
    ensures
        r@ == filename_for(optional_text(*suffix), date_prefix@),
{
    let mut out = date_prefix;
    match suffix {
        Some(s) => {
            out.append("_");
            let clean = sanitize_filename(s.as_str());
            out.append(clean.as_str());
            out.append(".png");
        },
        None => {
            out.append(".png");
        },
    }
    out
}

/// Whether the characters start with `YYYY.MM.DD_HHMMSS`.
fn stamp_at_start_of(v: &Vec<char>) -> (r: bool)
    ensures
        r == stamp_at_start(v@),
{
    if v.len() < 17 {
        return false;
    }
    let mut i: usize = 0;
    while i < 17
        invariant
            v.len() >= 17,
            i <= 17,
            forall|k: int| 0 <= k < i ==> if k == 4 || k == 7 {
                #[trigger] v@[k] == '.'
            } else if k == 10 {
                v@[k] == '_'
            } else {
                unicode_digit(v@[k])
            },
        decreases 17 - i,
    {
        let c = v[i];
        let ok = if i == 4 || i == 7 {
            c == '.'
        } else if i == 10 {
            c == '_'
        } else {
            is_unicode_digit(c)
        };
        if !ok {
            return false;
        }
        i = i + 1;
    }
    true
}

/// Validate that a filename matches the expected date format pattern:
/// `YYYY.MM.DD_HHMMSS.png` or `YYYY.MM.DD_HHMMSS_<suffix>.png`.
pub fn validate_filename_format(filename: &str) -> (r: bool)
    ensures
        r == filename_format_ok(filename@),
{
    proof {
        reveal_strlit(".png");
    }
    let v = chars_of(filename);
    let n = v.len();
    if n < 21 || !stamp_at_start_of(&v) {
        return false;
    }
    if !(v[n - 4] == '.' && v[n - 3] == 'p' && v[n - 2] == 'n' && v[n - 1] == 'g') {
        assert(!ends_with(filename@, ".png"@)) by {
            if ends_with(filename@, ".png"@) {
                let e = filename@.subrange(n - 4, n as int);
                assert(e[0] == v@[n - 4] && e[1] == v@[n - 3] && e[2] == v@[n - 2] && e[3] == v@[n - 1]);
            }
        }
        assert(n == 21 ==> filename@.subrange(17, 21) != ".png"@) by {
            if n == 21 {
                assert(filename@.subrange(17, 21) == filename@.subrange(n - 4, n as int));
                let e = filename@.subrange(17, 21);
                assert(e[0] == v@[n - 4] && e[1] == v@[n - 3] && e[2] == v@[n - 2] && e[3] == v@[n - 1]);
            }
        }
        return false;
    }
    assert(filename@.subrange(n - 4, n as int) =~= ".png"@);
    if n == 21 {
        assert(filename@.subrange(17, 21) =~= ".png"@);
        return true;
    }
    if n < 23 || v[17] != '_' {
        return false;
    }
    let mut i: usize = 18;
    while i < n - 4
        invariant
            v@ == filename@,
            n == v.len(),
            n >= 23,
            18 <= i <= n - 4,
            forall|k: int| 18 <= k < i ==> v@[k] != '\n',
        decreases n - 4 - i,
    {
        if v[i] == '\n' {
            assert(!single_line(filename@.subrange(18, n - 4))) by {
                assert(filename@.subrange(18, n - 4)[i - 18] == v@[i as int]);
            }
            return false;
        }
        i = i + 1;
    }
    assert(single_line(filename@.subrange(18, n - 4))) by {
        assert forall|k: int| 0 <= k < n - 22 implies #[trigger] filename@.subrange(18, n - 4)[k] != '\n' by {
            assert(filename@.subrange(18, n - 4)[k] == v@[k + 18]);
        }
    }
    true
}

/// A generated file name has the accepted shape whenever the year has four
/// digits and the suffix, if any, is a non-empty single line.
pub proof fn law_generated_names_validate(suffix: Option<Seq<char>>, stamp: Seq<char>)
    requires
        is_timestamp(stamp),
        stamp.len() == 17,
        suffix matches Some(s) ==> s.len() > 0 && single_line(s),
    ensures
        filename_format_ok(filename_for(suffix, stamp)),
{
    reveal_strlit(".png");
    reveal_strlit("_");
    let f = filename_for(suffix, stamp);
    let year = stamp.subrange(0, 4);
    let t = stamp.subrange(4, 17);
    assert(year.len() == 4 && all_digits(year));
    assert forall|i: int| 0 <= i < 17 implies #[trigger] f[i] == stamp[i] by {}
    assert forall|i: int| 0 <= i < 4 implies #[trigger] is_digit(stamp[i]) by {
        assert(stamp[i] == year[i]);
    }
    assert forall|i: int| 4 <= i < 17 implies #[trigger] stamp[i] == t[i - 4] by {}
    assert forall|k: int| 0 <= k < 17 && k != 4 && k != 7 && k != 10 implies unicode_digit(
        #[trigger] f[k],
    ) by {
        assert(is_digit(stamp[k]));
        lemma_ascii_digit_is_unicode_digit(f[k]);
    }
    assert(stamp_at_start(f));
    assert(f.subrange(f.len() - 4, f.len() as int) =~= ".png"@);
    match suffix {
        Some(s) => {
            let body = f.subrange(18, f.len() - 4);
            assert(body =~= sanitized(s));
            assert forall|k: int| 0 <= k < body.len() implies #[trigger] body[k] != '\n' by {
                assert(s[k] != '\n');
            }
        },
        None => {
            assert(f.subrange(17, 21) =~= ".png"@);
        },
    }
}

#[verifier::external_type_specification]
#[verifier::external_body]
pub struct ExNaiveDateTime(chrono::NaiveDateTime);

/// The current local wall-clock time, as chrono's `DateTime<Local>` made
/// from `SystemTime::now` gives it; clocks before 1970 are taken as they
/// read. Nothing is stated of it. Chrono panics only where the clock reads
/// an instant outside the range of its dates (about 262,000 years either
/// side of year 0) or the local time-zone data cannot place the instant;
/// no argument can rule that out.
#[verifier::external_body]
fn local_now() -> chrono::NaiveDateTime {
    chrono::DateTime::<chrono::Local>::from(std::time::SystemTime::now()).naive_local()
}

/// `NaiveDateTime::format`, written out as a string, for the one pattern the
/// tool uses. As chrono documents it, `%Y` is the year zero-padded to four
/// digits (with a sign outside 0..=9999) and the other fields are two-digit
/// numbers, so the result has the shape of `is_timestamp`; which instant it
/// shows is left unsaid.
#[verifier::external_body]
fn format_datetime(t: &chrono::NaiveDateTime, pattern: &str) -> (s: String)
    requires
        pattern@ == "%Y.%m.%d_%H%M%S"@,
    ensures
        is_timestamp(s@),
{
    t.format(pattern).to_string()
}

/// Generate a filename with a `YYYY.MM.DD_HHMMSS` prefix taken from the
/// current local time.
pub fn generate_filename(suffix: &Option<String>) -> (r: String)
    ensures
        exists|stamp: Seq<char>|
            is_timestamp(stamp) && r@ == filename_for(optional_text(*suffix), stamp),
{
    let now = local_now();
    let stamp = format_datetime(&now, "%Y.%m.%d_%H%M%S");
    let ghost g = stamp@;
    let r = generate_filename_with_datetime(suffix, stamp);
    assert(is_timestamp(g) && r@ == filename_for(optional_text(*suffix), g));
    r
}

/// Build the full output path from a directory and a generated filename:
/// the result ends with the name, and outside verbatim directories it is the
/// directory adjoined with the name, with at most one separator between.
pub fn build_output_path(output_dir: &str, suffix: &Option<String>) -> (r: String)
    ensures
        exists|stamp: Seq<char>|
            #![trigger filename_for(optional_text(*suffix), stamp)]
            is_timestamp(stamp) && ends_with(r@, filename_for(optional_text(*suffix), stamp)) && (
            !verbatim(output_dir@) ==> joined_form(
                r@,
                output_dir@,
                filename_for(optional_text(*suffix), stamp),
            )),
{
    let filename = generate_filename(suffix);
    let ghost stamp = choose|stamp: Seq<char>|
        is_timestamp(stamp) && filename@ == filename_for(optional_text(*suffix), stamp);
    proof {
        lemma_generated_name_is_plain(optional_text(*suffix), stamp);
        lemma_plain_is_relative(filename@);
    }
    path_join(output_dir, filename.as_str())
}

/// A generated file name is a single path component on every platform.
pub proof fn lemma_generated_name_is_plain(suffix: Option<Seq<char>>, stamp: Seq<char>)
    requires
        is_timestamp(stamp),
    ensures
        plain_file_name(filename_for(suffix, stamp)),
{
    reveal_strlit(".png");
    reveal_strlit("_");
    let f = filename_for(suffix, stamp);
    let n = stamp.len();
    let year = stamp.subrange(0, n - 13);
    let t = stamp.subrange(n - 13, n as int);
    assert forall|i: int| 0 <= i < n implies #[trigger] stamp[i] != '/' && stamp[i] != '\\'
        && stamp[i] != ':' by {
        if i < n - 13 {
            assert(stamp[i] == year[i]);
            if i > 0 {
                assert(year[i] == year.drop_first()[i - 1]);
            }
        } else {
            assert(stamp[i] == t[i - (n - 13)]);
        }
    }
    match suffix {
        Some(s) => {
            assert forall|i: int| 0 <= i < f.len() implies #[trigger] f[i] != '/' && f[i] != '\\'
                && f[i] != ':' by {
                if i < n {
                    assert(f[i] == stamp[i]);
                } else if i == n {
                } else if i < n + 1 + s.len() {
                    assert(f[i] == sanitized(s)[i - n - 1]);
                } else {
                }
            }
            assert(f.len() > 2);
        },
        None => {
            assert forall|i: int| 0 <= i < f.len() implies #[trigger] f[i] != '/' && f[i] != '\\'
                && f[i] != ':' by {
                if i < n {
                    assert(f[i] == stamp[i]);
                }
            }
            assert(f.len() > 2);
        },
    }
}

} // verus!
