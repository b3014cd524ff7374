//! Texts: decimal numbers, leading letters, and the parts of the standard
//! library that the rest of the crate needs on strings and paths.

use vstd::prelude::*;

verus! {

/// The character of a decimal digit.
pub open spec fn digit_char(d: nat) -> char {
    (48 + d) as char
}

/// The decimal text of a number, without leading zeros.
pub open spec fn decimal(n: nat) -> Seq<char>
    decreases n,
{
    if n < 10 {
        seq![digit_char(n)]
    } else {
        decimal(n / 10).push(digit_char(n % 10))
    }
}

/// The decimal text of a number that may be negative.
pub open spec fn signed_decimal(n: int) -> Seq<char> {
    if n < 0 {
        seq!['-'] + decimal((-n) as nat)
    } else {
        decimal(n as nat)
    }
}

fn digit_text(d: u64) -> (text: &'static str)
    requires
        d < 10,
    ensures
        text@ == seq![digit_char(d as nat)],
{
    proof {
        reveal_strlit("0");
        reveal_strlit("1");
        reveal_strlit("2");
        reveal_strlit("3");
        reveal_strlit("4");
        reveal_strlit("5");
        reveal_strlit("6");
        reveal_strlit("7");
        reveal_strlit("8");
        reveal_strlit("9");
    }
    let text = match d {
        0 => "0",
        1 => "1",
        2 => "2",
        3 => "3",
        4 => "4",
        5 => "5",
        6 => "6",
        7 => "7",
        8 => "8",
        _ => "9",
    };
    assert(text@ =~= seq![digit_char(d as nat)]);
    text
}

/// Writes a number in decimal.
pub fn decimal_text(n: u64) -> (text: String)
    ensures
        text@ == decimal(n as nat),
    decreases n,
{
    if n < 10 {
        digit_text(n).to_string()
    } else {
        let digit = digit_text(n % 10);
        let text = decimal_text(n / 10).concat(digit);
        assert(text@ =~= decimal(n as nat));
        text
    }
}

/// Writes a number that may be negative in decimal.
pub fn signed_decimal_text(n: i64) -> (text: String)
    ensures
        text@ == signed_decimal(n as int),
{
    if n < 0 {
        proof {
            reveal_strlit("-");
        }
        let magnitude: u64 = ((-(n + 1)) as u64) + 1;
        let text = "-".to_string().concat(decimal_text(magnitude).as_str());
        assert(text@ =~= signed_decimal(n as int));
        text
    } else {
        decimal_text(n as u64)
    }
}

/// Whether a text reads like another.
pub fn text_is(text: &str, other: &str) -> (same: bool)
    ensures
        same == (text@ == other@),
{
    text.to_string() == other.to_string()
}

/// A text without the letters `lead` that it begins with.
pub open spec fn without_leading(text: Seq<char>, lead: char) -> Seq<char>
    decreases text.len(),
{
    if text.len() > 0 && text[0] == lead {
        without_leading(text.skip(1), lead)
    } else {
        text
    }
}

/// Drops the letters `lead` that a text begins with.
pub fn trim_leading(text: &str, lead: char) -> (rest: &str)
    ensures
        rest@ == without_leading(text@, lead),
{
    let len: usize = text.unicode_len();
    let mut from: usize = 0;
    proof {
        assert(text@.skip(0) =~= text@);
    }
    while from < len && text.get_char(from) == lead
        invariant
            len == text@.len(),
            from <= len,
            without_leading(text@, lead) == without_leading(text@.skip(from as int), lead),
        decreases len - from,
    {
        proof {
            assert(text@.skip(from as int).skip(1) =~= text@.skip(from + 1));
        }
        from = from + 1;
    }
    let rest = text.substring_char(from, len);
    assert(rest@ =~= text@.skip(from as int));
    rest
}

/// Whether a text holds another as a part.
pub open spec fn has_part(text: Seq<char>, part: Seq<char>) -> bool {
    exists|i: int|
        0 <= i <= text.len() - part.len() && #[trigger] text.subrange(i, i + part.len()) == part
}

/// Looks for a text in another.
pub fn contains(text: &str, part: &str) -> (found: bool)
    ensures
        found == has_part(text@, part@),
{
    let len: usize = text.unicode_len();
    let part_len: usize = part.unicode_len();
    if part_len > len {
        return false;
    }
    let end: usize = len - part_len;
    let mut from: usize = 0;
    while from < end && !text_is(text.substring_char(from, from + part_len), part)
        invariant
            len == text@.len(),
            part_len == part@.len(),
            end == len - part_len,
            from <= end,
            forall|i: int| 0 <= i < from ==> #[trigger] text@.subrange(i, i + part@.len()) != part@,
        decreases end - from,
    {
        from = from + 1;
    }
    let found = text_is(text.substring_char(from, from + part_len), part);
    assert(found ==> text@.subrange(from as int, from + part@.len()) == part@);
    found
}

/// Whether a text is made of decimal digits, at least one.
pub open spec fn all_digits(text: Seq<char>) -> bool {
    text.len() > 0 && forall|i: int| 0 <= i < text.len() ==> '0' <= #[trigger] text[i] <= '9'
}

/// The number that a text of decimal digits writes.
pub open spec fn digits_value(text: Seq<char>) -> nat
    decreases text.len(),
{
    if text.len() == 0 {
        0
    } else {
        (10 * digits_value(text.drop_last()) + (text.last() as nat - 48)) as nat
    }
}

/// The number that a text writes: digits, after a `+` or not, that a `u64`
/// can hold.
pub open spec fn parsed_u64(text: Seq<char>) -> Option<u64> {
    let digits = if text.len() > 0 && text[0] == '+' {
        text.skip(1)
    } else {
        text
    };
    if all_digits(digits) && digits_value(digits) <= u64::MAX {
        Some(digits_value(digits) as u64)
    } else {
        None
    }
}

/// What `ParseIntError` says of a text that is no `u64`.
pub uninterp spec fn parse_u64_error(text: Seq<char>) -> Seq<char>;

/// `str::parse::<u64>`: the number, where the text is an optional `+` and
/// decimal digits that fit; else the error's own words, which are a function
/// of the text and are not stated further.
#[verifier::external_body]
pub(crate) fn parse_u64(text: &str) -> (parsed: Result<u64, String>)
    ensures
        match parsed {
            Ok(n) => parsed_u64(text@) == Some(n),
            Err(e) => parsed_u64(text@) is None && e@ == parse_u64_error(text@),
        },
{
    match text.parse::<u64>() {
        Ok(n) => Ok(n),
        Err(e) => Err(e.to_string()),
    }
}

/// A bare file name: no separator, no drive, and neither the directory itself
/// nor the one above it.
pub open spec fn is_file_name(name: Seq<char>) -> bool {
    &&& name.len() > 0
    &&& name != seq!['.']
    &&& name != seq!['.', '.']
    &&& forall|i: int|
        0 <= i < name.len() ==> #[trigger] name[i] != '/' && name[i] != '\\' && name[i] != ':'
}

/// Whether a character separates the parts of a path on some platform.
pub open spec fn is_slash(c: char) -> bool {
    c == '/' || c == '\\'
}

/// Whether a name may follow a character without a separator between them.
pub open spec fn ends_a_prefix(c: char) -> bool {
    is_slash(c) || c == ':'
}

/// What stands between a directory and a name in it: a separator of the
/// platform, or nothing where the directory needs none. The empty directory,
/// and one that ends in a slash, need none on any platform.
pub open spec fn is_separator(dir: Seq<char>, text: Seq<char>) -> bool {
    if dir.len() == 0 || dir.last() == '/' {
        text == Seq::<char>::empty()
    } else {
        ||| text == seq!['/']
        ||| text == seq!['\\']
        ||| text == Seq::<char>::empty() && ends_a_prefix(dir.last())
    }
}

/// Whether a directory is a verbatim one: it begins with `\\?\`.
pub open spec fn is_verbatim(dir: Seq<char>) -> bool {
    dir.len() >= 4 && dir[0] == '\\' && dir[1] == '\\' && dir[2] == '?' && dir[3] == '\\'
}

/// Whether a verbatim directory is written as it would be written anew: it
/// has no slash, and no part of it is empty or begins with a dot.
pub open spec fn is_tidy(dir: Seq<char>) -> bool {
    &&& dir.len() > 4
    &&& forall|i: int|
        4 <= i < dir.len() ==> #[trigger] dir[i] != '/' && (dir[i - 1] == '\\' ==> dir[i] != '.'
            && dir[i] != '\\')
}

/// `joined` is the path of `name` in the directory `dir`.
///
/// Of a verbatim directory that is not tidy only the end of the path is
/// stated: one platform writes such a directory anew.
pub open spec fn is_path_in(joined: Seq<char>, dir: Seq<char>, name: Seq<char>) -> bool {
    &&& name.is_suffix_of(joined)
    &&& (!is_verbatim(dir) || is_tidy(dir)) ==> exists|sep: Seq<char>| #[trigger]
        is_separator(dir, sep) && joined == dir + sep + name
}

/// `Path::join` with a bare file name: the directory, a separator of the
/// platform where one is needed, and the name.
#[verifier::external_body]
pub(crate) fn path_join(dir: &str, name: &str) -> (joined: String)
    requires
        is_file_name(name@),
    ensures
        is_path_in(joined@, dir@, name@),
{
    std::path::Path::new(dir).join(name).to_string_lossy().into_owned()
}

/// The path of a file in a directory.
pub open spec fn file_path(dir: Seq<char>, separator: char, name: Seq<char>) -> Seq<char> {
    dir + seq![separator] + name
}

/// Whether a directory has nothing at its end that a path could do without:
/// neither a separator nor a part that is a dot alone.
pub open spec fn ends_plainly(dir: Seq<char>) -> bool {
    dir.len() > 0 ==> {
        &&& !is_slash(dir.last())
        &&& !(dir.last() == '.' && dir.len() > 1 && ends_a_prefix(dir[dir.len() - 2]))
    }
}

/// Whether a path begins as the name of a server could.
pub open spec fn names_server(path: Seq<char>) -> bool {
    path.len() > 1 && is_slash(path[0]) && is_slash(path[1])
}

/// A directory that every platform reads as one, and that ends in a name.
pub open spec fn is_plain_dir(dir: Seq<char>) -> bool {
    dir.len() > 0 && ends_plainly(dir) && dir.last() != ':' && !names_server(dir)
}

/// Whether the name of a server, where a directory begins with one, is
/// complete: a share follows the server, and a drive the verbatim sign.
pub open spec fn has_whole_prefix(dir: Seq<char>) -> bool {
    if is_verbatim(dir) {
        dir.len() >= 6 && dir[5] == ':' && (dir.len() == 6 || dir[6] == '\\')
    } else {
        names_server(dir) ==> exists|i: int| 3 <= i < dir.len() && #[trigger] dir[i] == '\\'
    }
}

/// The parent of a file whose last separator is a slash.
pub open spec fn is_slash_parent(parent: Option<Seq<char>>, dir: Seq<char>) -> bool {
    if dir.len() == 0 {
        parent == Some(seq!['/'])
    } else {
        parent == Some(dir) || (dir.last() == ':' && parent == Some(dir.push('/')))
    }
}

/// The parent of a file whose one kind of separator is the backslash: its
/// directory, with the separator where that belongs to a root, or nothing
/// on a platform on which a backslash is part of a name.
pub open spec fn is_backslash_parent(parent: Option<Seq<char>>, dir: Seq<char>) -> bool {
    ||| parent == Some(Seq::<char>::empty())
    ||| parent == Some(dir)
    ||| !is_plain_dir(dir) && parent == Some(dir.push('\\'))
}

/// Whether a text is a directory but for separators and dots at its end.
pub open spec fn is_trimmed(text: Seq<char>, dir: Seq<char>) -> bool {
    forall|i: int| text.len() <= i < dir.len() ==> is_slash(#[trigger] dir[i]) || dir[i] == '.'
}

/// What may be said of the parent of a path on any platform: it is a proper
/// beginning of the path, the empty path has none, a bare name has the empty
/// one, and a file in a directory has that directory, without what a path
/// could do without at its end. Of a file behind a slash and a backslash it
/// is what comes before the one or the other.
pub open spec fn is_parent(parent: Option<Seq<char>>, path: Seq<char>) -> bool {
    &&& match parent {
        Some(p) => p.len() < path.len() && p.is_prefix_of(path),
        None => true,
    }
    &&& path.len() == 0 ==> parent is None
    &&& is_file_name(path) ==> parent == Some(Seq::<char>::empty())
    &&& forall|dir: Seq<char>, name: Seq<char>|
        path == #[trigger] file_path(dir, '/', name) && is_file_name(name) && ends_plainly(dir)
            && !names_server(dir) ==> is_slash_parent(parent, dir)
    &&& forall|dir: Seq<char>, name: Seq<char>|
        path == #[trigger] file_path(dir, '\\', name) && is_file_name(name) && ends_plainly(dir)
            && !dir.contains('/') && has_whole_prefix(dir) ==> is_backslash_parent(parent, dir)
    &&& forall|dir: Seq<char>, name: Seq<char>|
        path == #[trigger] file_path(dir, '/', name) && is_file_name(name) && !names_server(path)
            ==> parent is Some && is_trimmed(parent->0, dir)
    &&& forall|dir: Seq<char>, name: Seq<char>|
        path == #[trigger] file_path(dir, '\\', name) && is_file_name(name) && !names_server(path)
            ==> parent is Some
    &&& forall|above: Seq<char>, below: Seq<char>, name: Seq<char>|
        path == #[trigger] file_path(file_path(above, '/', below), '\\', name) && is_file_name(name)
            && !below.contains('/') && ends_plainly(above) && ends_plainly(
            file_path(above, '/', below),
        ) && !names_server(path) ==> parent == Some(file_path(above, '/', below))
            || is_slash_parent(parent, above)
}

/// `Path::parent`: the path without its last part, where it has one. Where
/// the last part begins is the platform's matter; [`is_parent`] states what
/// holds on each.
#[verifier::external_body]
pub(crate) fn path_parent(path: &str) -> (parent: Option<String>)
    ensures
        is_parent(
            match parent {
                Some(p) => Some(p@),
                None => None,
            },
            path@,
        ),
{
    match std::path::Path::new(path).parent() {
        Some(p) => Some(p.to_string_lossy().into_owned()),
        None => None,
    }
}

} // verus!
