//! File names: the collision-resistant name of a stored upload, and the
//! name of a processed image, derived from its source, operation and parameters.

use vstd::prelude::*;
use vstd::string::*;
use crate::operation::{params_view, text_view};
use crate::text::{join_with_underscore, joined, same_text};

verus! {

/// A character of a hyphenated lower-case unique token.
pub open spec fn is_token_char(c: char) -> bool {
    ('0' <= c && c <= '9') || ('a' <= c && c <= 'f') || c == '-'
}

/// The text holds no path separator.
pub open spec fn has_no_slash(s: Seq<char>) -> bool {
    forall|i: int| 0 <= i < s.len() ==> s[i] != '/'
}

/// A stored name: the token, a hyphen, the cleaned original name.
pub open spec fn stored_name_of(token: Seq<char>, safe_name: Seq<char>) -> Seq<char> {
    token + seq!['-'] + safe_name
}

/// A file inside a directory.
pub open spec fn path_in(dir: Seq<char>, name: Seq<char>) -> Seq<char> {
    dir + seq!['/'] + name
}

/// The parameters as they appear in a processed name: joined with
/// underscores, or "default" when no list was given at all.
pub open spec fn params_label(params: Option<Seq<Seq<char>>>) -> Seq<char> {
    match params {
        Some(p) => joined(p),
        None => "default"@,
    }
}

/// `<stem>_<operation>_<parameters>.<extension>`
pub open spec fn output_name_of(
    stem: Seq<char>,
    operation: Seq<char>,
    params: Option<Seq<Seq<char>>>,
    extension: Seq<char>,
) -> Seq<char> {
    stem + seq!['_'] + operation + seq!['_'] + params_label(params) + seq!['.'] + extension
}

/// Relies on `Uuid::new_v4` and its `Display`, which writes the random token
/// in the hyphenated form: 36 characters, lower-case hex digits and hyphens.
#[verifier::external_body]
fn fresh_token() -> (r: String)
    ensures
        r@.len() == 36,
        forall|i: int| 0 <= i < r@.len() ==> is_token_char(#[trigger] r@[i]),
{
    uuid::Uuid::new_v4().to_string()
}

/// A character that a cleaned file name never holds: a separator, a
/// wildcard, a quote, a pipe, or a control character.
pub open spec fn is_unsafe_name_char(c: char) -> bool {
    c == '/' || c == '?' || c == '<' || c == '>' || c == '\\' || c == ':' || c == '*' || c == '|'
        || c == '"' || (c as u32) <= 0x1f || (0x80 <= (c as u32) && (c as u32) <= 0x9f)
}

pub open spec fn has_no_unsafe_char(s: Seq<char>) -> bool {
    forall|i: int| 0 <= i < s.len() ==> !is_unsafe_name_char(#[trigger] s[i])
}

/// `s` is `t` with some characters left out.
pub open spec fn is_subsequence(s: Seq<char>, t: Seq<char>) -> bool
    decreases t.len(),
{
    if s.len() == 0 {
        true
    } else if t.len() == 0 {
        false
    } else if s.last() == t.last() {
        is_subsequence(s.drop_last(), t.drop_last())
    } else {
        is_subsequence(s, t.drop_last())
    }
}

/// The characters before the first `.`.
pub open spec fn name_base(n: Seq<char>) -> Seq<char>
    decreases n.len(),
{
    if n.len() == 0 || n[0] == '.' {
        Seq::empty()
    } else {
        seq![n[0]] + name_base(n.drop_first())
    }
}

/// The first three characters spell `lower` or its upper-case form, letter by letter.
pub open spec fn starts_with_either_case(b: Seq<char>, lower: Seq<char>, upper: Seq<char>) -> bool {
    b.len() >= 3 && forall|i: int| 0 <= i < 3 ==> b[i] == lower[i] || b[i] == upper[i]
}

/// A name that some systems could take for a device (`con`, `nul`,
/// `com1`, `lpt1.txt` and so on).
pub open spec fn may_be_device_name(n: Seq<char>) -> bool {
    let b = name_base(n);
    (b.len() == 3 || b.len() == 4) && (starts_with_either_case(b, seq!['c', 'o', 'n'], seq!['C', 'O', 'N'])
        || starts_with_either_case(b, seq!['p', 'r', 'n'], seq!['P', 'R', 'N'])
        || starts_with_either_case(b, seq!['a', 'u', 'x'], seq!['A', 'U', 'X'])
        || starts_with_either_case(b, seq!['n', 'u', 'l'], seq!['N', 'U', 'L'])
        || starts_with_either_case(b, seq!['c', 'o', 'm'], seq!['C', 'O', 'M'])
        || starts_with_either_case(b, seq!['l', 'p', 't'], seq!['L', 'P', 'T']))
}

/// A name that cleaning leaves as it is, on every system: no unsafe
/// character, not dots only, short, not ending in a dot or a space, and not
/// a device name.
pub open spec fn is_clean_name(n: Seq<char>) -> bool {
    &&& has_no_unsafe_char(n)
    &&& n.len() <= 63
    &&& n.len() == 0 || (exists|i: int| 0 <= i < n.len() && n[i] != '.')
    &&& n.len() == 0 || (n.last() != '.' && n.last() != ' ')
    &&& !may_be_device_name(n)
}

/// `out` is what cleaning may make of `input`: some of its characters, none
/// unsafe, and all of it when it was clean already.
pub open spec fn is_cleaned_from(out: Seq<char>, input: Seq<char>) -> bool {
    &&& is_subsequence(out, input)
    &&& has_no_unsafe_char(out)
    &&& is_clean_name(input) ==> out == input
}

/// The name given to an upload whose field named the file `original`: a
/// 36-character token, a hyphen, then the cleaned name (or placeholder).
pub open spec fn is_stored_name_for(n: Seq<char>, original: Option<Seq<char>>) -> bool {
    &&& n.len() > 36
    &&& forall|i: int| 0 <= i < 36 ==> is_token_char(#[trigger] n[i])
    &&& n[36] == '-'
    &&& is_cleaned_from(
        n.subrange(37, n.len() as int),
        match original {
            Some(t) => t,
            None => "unknown"@,
        },
    )
    &&& has_no_unsafe_char(n)
}

/// Relies on `sanitize_filename::sanitize`, which removes the characters of
/// `is_unsafe_name_char` and then, only from a name that is dots only, too
/// long, or (on some systems) a device name or ending in a dot or space,
/// more characters; it never adds one.
#[verifier::external_body]
fn sanitize_name(name: &str) -> (r: String)
    ensures
        is_cleaned_from(r@, name@),
{
    sanitize_filename::sanitize(name)
}

/// Position of the last `c` in `s`, or -1 when there is none.
pub open spec fn last_index_of(s: Seq<char>, c: char) -> int
    decreases s.len(),
{
    if s.len() == 0 {
        -1
    } else if s.last() == c {
        s.len() - 1
    } else {
        last_index_of(s.drop_last(), c)
    }
}

pub proof fn last_index_of_bounds(s: Seq<char>, c: char)
    ensures
        -1 <= last_index_of(s, c) < s.len(),
        last_index_of(s, c) >= 0 ==> s[last_index_of(s, c)] == c,
        (forall|i: int| 0 <= i < s.len() ==> s[i] != c) ==> last_index_of(s, c) == -1,
    decreases s.len(),
{
    if s.len() > 0 && s.last() != c {
        last_index_of_bounds(s.drop_last(), c);
    }
}

/// What follows the last `/` of a path.
pub open spec fn last_segment(p: Seq<char>) -> Seq<char> {
    p.subrange(last_index_of(p, '/') + 1, p.len() as int)
}

/// The text holds no backslash and no colon, which some systems read as
/// separators or drive prefixes.
pub open spec fn has_no_system_separator(s: Seq<char>) -> bool {
    forall|i: int| 0 <= i < s.len() ==> s[i] != '\\' && s[i] != ':'
}

/// A path whose components are separated by `/` alone, ending in a file name.
pub open spec fn is_plain_path(p: Seq<char>) -> bool {
    has_no_system_separator(p) && last_segment(p).len() > 0 && last_segment(p) != "."@
        && last_segment(p) != ".."@
}

/// A file name without its extension: all before the last `.`, or the
/// whole name when the only `.` leads it or there is none.
pub open spec fn stem_of(name: Seq<char>) -> Seq<char> {
    let i = last_index_of(name, '.');
    if i <= 0 {
        name
    } else {
        name.subrange(0, i)
    }
}

/// What follows the last `.` of a file name, unless that `.` leads it.
pub open spec fn extension_of(name: Seq<char>) -> Option<Seq<char>> {
    let i = last_index_of(name, '.');
    if i <= 0 {
        None
    } else {
        Some(name.subrange(i + 1, name.len() as int))
    }
}

/// The processed name for the file at a plain path.
pub open spec fn processed_name_for(
    path: Seq<char>,
    operation: Seq<char>,
    params: Option<Seq<Seq<char>>>,
) -> Seq<char> {
    let name = last_segment(path);
    output_name_of(
        stem_of(name),
        operation,
        params,
        match extension_of(name) {
            Some(e) => e,
            None => Seq::empty(),
        },
    )
}

/// Relies on `Path::file_stem`: a stem never holds a path separator; on a
/// plain path it is the stem of the last component.
#[verifier::external_body]
fn path_file_stem(path: &str) -> (r: Option<String>)
    ensures
        r matches Some(s) ==> has_no_slash(s@),
        is_plain_path(path@) ==> text_view(r) == Some(stem_of(last_segment(path@))),
{
    std::path::Path::new(path).file_stem().map(|s| s.to_string_lossy().into_owned())
}

/// Relies on `Path::extension`: an extension never holds a path separator;
/// on a plain path it is the extension of the last component.
#[verifier::external_body]
fn path_extension(path: &str) -> (r: Option<String>)
    ensures
        r matches Some(s) ==> has_no_slash(s@),
        is_plain_path(path@) ==> text_view(r) == extension_of(last_segment(path@)),
{
    std::path::Path::new(path).extension().map(|s| s.to_string_lossy().into_owned())
}

/// The name of an uploaded file when the upload gave none.
pub fn original_or_placeholder(original: Option<&str>) -> (r: String)
    ensures
        r@ == match original {
            Some(t) => t@,
            None => "unknown"@,
        },
{
    match original {
        Some(t) => t.to_owned(),
        None => "unknown".to_owned(),
    }
}

/// The stored name made of a token and an already cleaned name.
pub fn stored_name(token: &str, safe_name: &str) -> (r: String)
    ensures
        r@ == stored_name_of(token@, safe_name@),
{
    let mut r = token.to_owned();
    r.append("-");
    proof {
        reveal_strlit("-");
    }
    r.append(safe_name);
    r
}

/// A fresh name for an upload: a new random token, a hyphen, and the original
/// name (or a placeholder) cleaned of unsafe characters. It never holds a
/// path separator, so the file stays in the upload directory.
pub fn generate_stored_name(original: Option<&str>) -> (r: String)
    ensures
        is_stored_name_for(
            r@,
            match original {
                Some(t) => Some(t@),
                None => None,
            },
        ),
        has_no_slash(r@),
{
    let token = fresh_token();
    let name = original_or_placeholder(original);
    let safe = sanitize_name(name.as_str());
    let r = stored_name(token.as_str(), safe.as_str());
    assert(r@.subrange(37, r@.len() as int) =~= safe@);
    assert forall|i: int| 0 <= i < r@.len() implies !is_unsafe_name_char(#[trigger] r@[i]) by {
        if i < 36 {
            assert(is_token_char(token@[i]));
        } else if i > 36 {
            assert(r@[i] == safe@[i - 37]);
        }
    }
    r
}

/// The path of a file inside a directory.
pub fn join_path(dir: &str, name: &str) -> (r: String)
    ensures
        r@ == path_in(dir@, name@),
{
    let mut r = dir.to_owned();
    r.append("/");
    proof {
        reveal_strlit("/");
    }
    r.append(name);
    r
}

/// The processed name for a source stem and extension, an operation name and
/// the parameters as they were given.
pub fn output_filename(
    stem: &str,
    operation: &str,
    params: &Option<Vec<String>>,
    extension: &str,
) -> (r: String)
    ensures
        r@ == output_name_of(stem@, operation@, params_view(*params), extension@),
{
    let label = match params {
        Some(p) => join_with_underscore(p),
        None => "default".to_owned(),
    };
    proof {
        reveal_strlit("_");
        reveal_strlit(".");
    }
    let mut r = stem.to_owned();
    r.append("_");
    r.append(operation);
    r.append("_");
    r.append(label.as_str());
    r.append(".");
    r.append(extension);
    r
}

/// The processed name for the file at `input_path`: its stem and extension
/// (each empty when the path has none), the operation and the parameters.
pub fn derive_output_filename(input_path: &str, operation: &str, params: &Option<Vec<String>>) -> (r:
    String)
    ensures
        exists|stem: Seq<char>, extension: Seq<char>|
            has_no_slash(stem) && has_no_slash(extension) && r@ == output_name_of(
                stem,
                operation@,
                params_view(*params),
                extension,
            ),
        is_plain_path(input_path@) ==> r@ == processed_name_for(
            input_path@,
            operation@,
            params_view(*params),
        ),
{
    let stem = match path_file_stem(input_path) {
        Some(s) => s,
        None => String::new(),
    };
    let extension = match path_extension(input_path) {
        Some(e) => e,
        None => String::new(),
    };
    let r = output_filename(stem.as_str(), operation, params, extension.as_str());
    assert(has_no_slash(stem@) && has_no_slash(extension@));
    r
}

/// A name that an upload can have been stored under: not empty, not `.` or
/// `..`, and without `/`, backslash or colon.
pub open spec fn is_storable_name(n: Seq<char>) -> bool {
    n.len() > 0 && has_no_slash(n) && has_no_system_separator(n) && n != "."@ && n != ".."@
}

/// Whether `name` can be the name of a stored upload.
pub fn storable_name(name: &str) -> (r: bool)
    ensures
        r == is_storable_name(name@),
{
    let n = name.unicode_len();
    if n == 0 || same_text(name, ".") || same_text(name, "..") {
        return false;
    }
    let mut i: usize = 0;
    while i < n
        invariant
            n == name@.len(),
            i <= n,
            forall|k: int| 0 <= k < i ==> name@[k] != '/' && name@[k] != '\\' && name@[k] != ':',
        decreases n - i,
    {
        let c = name.get_char(i);
        if c == '/' || c == '\\' || c == ':' {
            return false;
        }
        i = i + 1;
    }
    true
}

/// A stored name inside a directory without backslash or colon makes a plain
/// path whose last component is that name.
pub proof fn stored_name_path_is_plain(dir: Seq<char>, name: Seq<char>)
    requires
        has_no_system_separator(dir),
        is_storable_name(name),
    ensures
        is_plain_path(path_in(dir, name)),
        last_segment(path_in(dir, name)) == name,
{
    let p = path_in(dir, name);
    last_index_of_suffix(dir + seq!['/'], name, '/');
    assert((dir + seq!['/']).last() == '/');
    assert(last_index_of(dir + seq!['/'], '/') == dir.len());
    assert(p.subrange(dir.len() as int + 1, p.len() as int) =~= name);
}

/// The last `c` of `a + b`, where `b` holds no `c`, is the last of `a`.
proof fn last_index_of_suffix(a: Seq<char>, b: Seq<char>, c: char)
    requires
        forall|i: int| 0 <= i < b.len() ==> b[i] != c,
    ensures
        last_index_of(a + b, c) == last_index_of(a, c),
    decreases b.len(),
{
    if b.len() > 0 {
        assert((a + b).drop_last() =~= a + b.drop_last());
        last_index_of_suffix(a, b.drop_last(), c);
    } else {
        assert(a + b =~= a);
    }
}

/// Two requests for the same stored name, operation and parameters are given
/// the same processed name, so the second write replaces the first.
pub proof fn same_request_same_output_name(
    dir: Seq<char>,
    filename: Seq<char>,
    operation: Seq<char>,
    params: Option<Seq<Seq<char>>>,
    first: Seq<char>,
    second: Seq<char>,
)
    requires
        has_no_system_separator(dir),
        is_storable_name(filename),
        is_plain_path(path_in(dir, filename)) ==> first == processed_name_for(
            path_in(dir, filename),
            operation,
            params,
        ),
        is_plain_path(path_in(dir, filename)) ==> second == processed_name_for(
            path_in(dir, filename),
            operation,
            params,
        ),
    ensures
        first == second,
        first == output_name_of(
            stem_of(filename),
            operation,
            params,
            match extension_of(filename) {
                Some(e) => e,
                None => Seq::empty(),
            },
        ),
{
    stored_name_path_is_plain(dir, filename);
}

} // verus!
