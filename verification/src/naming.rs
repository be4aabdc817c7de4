//! From the name a user gives a toolchain to the name of its directory.

use regex::Regex;
use vstd::prelude::*;

verus! {

/// The characters that cannot stand in the name of a directory.
pub open spec fn is_path_hostile(c: char) -> bool {
    c == ':' || c == '/'
}

/// A name with each path-hostile character replaced by a hyphen.
pub open spec fn sanitized(raw: Seq<char>) -> Seq<char> {
    Seq::new(raw.len(), |i: int| if is_path_hostile(raw[i]) { '-' } else { raw[i] })
}

/// A text that names one entry of a directory: it is not empty and holds no
/// path-hostile character.
pub open spec fn is_path_segment(name: Seq<char>) -> bool {
    &&& name.len() > 0
    &&& forall|i: int| 0 <= i < name.len() ==> !is_path_hostile(#[trigger] name[i])
}

/// The character class that matches exactly the path-hostile characters.
pub open spec fn hostile_class() -> Seq<char> {
    seq!['[', ':', '/', ']']
}

/// Compiles `class` with `regex::Regex::new` and replaces every match in
/// `text` with `Regex::replace_all`.
///
/// Trusted: for the class of the colon and the slash, each match is one such
/// character, and a replacement without `$` is inserted as it stands; so the
/// result is `text` with `with` in place of every colon and slash.
#[verifier::external_body]
fn replace_class(class: &str, text: &str, with: &str) -> (out: String)
    requires
        class@ == hostile_class(),
        with@.len() == 1,
        with@[0] != '$',
    ensures
        out@ == Seq::new(
            text@.len(),
            |i: int| if is_path_hostile(text@[i]) { with@[0] } else { text@[i] },
        ),
{
    Regex::new(class).unwrap().replace_all(text, with).into_owned()
}

/// The directory name of the toolchain that the user calls `raw`.
pub fn sanitize(raw: &str) -> (name: String)
    ensures
        name@ == sanitized(raw@),
{
    proof {
        reveal_strlit("[:/]");
        reveal_strlit("-");
        assert("[:/]"@ =~= hostile_class());
    }
    let name = replace_class("[:/]", raw, "-");
    assert(name@ =~= sanitized(raw@));
    name
}

/// Sanitizing keeps the length of a name and every character that is not
/// path-hostile, and leaves no path-hostile character behind.
pub proof fn lemma_sanitized_is_clean(raw: Seq<char>)
    ensures
        sanitized(raw).len() == raw.len(),
        !sanitized(raw).contains(':'),
        !sanitized(raw).contains('/'),
        forall|i: int| 0 <= i < raw.len() && !is_path_hostile(raw[i]) ==> sanitized(raw)[i] == raw[i],
        forall|i: int| 0 <= i < raw.len() && is_path_hostile(raw[i]) ==> sanitized(raw)[i] == '-',
{
}

/// A name that holds a colon or a slash is sanitized to a single path segment
/// that holds neither.
pub proof fn lemma_sanitized_is_segment(raw: Seq<char>)
    requires
        raw.contains(':') || raw.contains('/'),
    ensures
        !sanitized(raw).contains(':'),
        !sanitized(raw).contains('/'),
        is_path_segment(sanitized(raw)),
{
    lemma_sanitized_is_clean(raw);
}

/// A name that is already a path segment is left as it is.
pub proof fn lemma_segment_is_kept(raw: Seq<char>)
    requires
        is_path_segment(raw),
    ensures
        sanitized(raw) == raw,
{
    assert(sanitized(raw) =~= raw);
}

} // verus!
