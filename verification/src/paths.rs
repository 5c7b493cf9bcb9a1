//! Paths, held as text, and the few questions the launcher asks of them.
//!
//! How a path falls into directory, file name and extension is the
//! platform's business: the answers come from `std::path`. Each has a name
//! here, for what it is on the platform that the program is built for; what
//! is claimed of the names is only the shape of the answers, which is the
//! same on every platform.

use crate::text::has_char;
use vstd::prelude::*;
use vstd::string::*;

verus! {

/// Extension of the descriptor that belongs to an alias.
pub const DESCRIPTOR_EXTENSION: &'static str = "meta";

/// Whether `text` holds a character that separates path components on some
/// platform.
pub open spec fn has_separator(text: Seq<char>) -> bool {
    text.contains('/') || text.contains('\\')
}

/// Whether `text` holds a character that separates path components on some
/// platform.
pub fn contains_separator(text: &str) -> (found: bool)
    ensures
        found == has_separator(text@),
{
    has_char(text, '/') || has_char(text, '\\')
}

/// `std::path::MAIN_SEPARATOR`: the character that separates the components
/// of a path on this platform.
#[verifier::external_body]
pub(crate) fn main_separator() -> (c: char) {
    std::path::MAIN_SEPARATOR
}

/// A dot and the extension, or nothing for the empty extension.
pub open spec fn dotted(extension: Seq<char>) -> Seq<char> {
    if extension.len() == 0 {
        Seq::empty()
    } else {
        seq!['.'] + extension
    }
}

/// Whether `replaced` can be `path` with `extension` for an extension: the
/// path itself, where it names no file; else what is left of the path when
/// its own extension goes, followed by a dot and the new one.
pub open spec fn is_with_extension(path: Seq<char>, extension: Seq<char>, replaced: Seq<char>) -> bool {
    replaced == path || exists|n: int|
        0 <= n <= path.len() && replaced == #[trigger] path.take(n) + dotted(extension)
}

/// Whether `text` ends with `tail`.
pub open spec fn ends_with(text: Seq<char>, tail: Seq<char>) -> bool {
    tail.len() <= text.len() && text.skip(text.len() - tail.len()) == tail
}

/// Whether `text` begins with `head`.
pub open spec fn begins_with(text: Seq<char>, head: Seq<char>) -> bool {
    head.len() <= text.len() && text.take(head.len() as int) == head
}

/// Whether `found` can be the extension of `path`: a part of it that follows
/// a dot and holds none.
pub open spec fn is_extension_of(found: Seq<char>, path: Seq<char>) -> bool {
    !found.contains('.') && exists|i: int|
        1 <= i && i + found.len() <= path.len() && path[i - 1] == '.' && #[trigger] path.subrange(
            i,
            i + found.len(),
        ) == found
}

/// Whether `name` can stand as a file name on every platform: it holds no
/// path separator and no colon, and is neither `.` nor `..`.
pub open spec fn is_plain_name(name: Seq<char>) -> bool {
    &&& !has_separator(name)
    &&& !name.contains(':')
    &&& name != seq!['.']
    &&& name != seq!['.', '.']
}

/// What `std::path::Path::with_extension` makes of a path and an extension
/// on the platform that the program is built for.
pub uninterp spec fn with_extension_of(path: Seq<char>, extension: Seq<char>) -> Seq<char>;

/// What `std::path::Path::extension` finds in a path on the platform that
/// the program is built for.
pub uninterp spec fn extension_of(path: Seq<char>) -> Option<Seq<char>>;

/// What `std::path::Path::with_file_name` makes of a path and a file name on
/// the platform that the program is built for.
pub uninterp spec fn with_file_name_of(path: Seq<char>, name: Seq<char>) -> Seq<char>;

/// What `std::path::Path::parent` finds in a path on the platform that the
/// program is built for.
pub uninterp spec fn parent_of(path: Seq<char>) -> Option<Seq<char>>;

/// `std::path::Path::with_extension`: the path with its extension replaced
/// by `extension`, or with `extension` added where it had none; a path that
/// names no file comes back as it is. The call panics on an extension that
/// holds a path separator, so none is let in. Where the old extension begins
/// the platform says: the result has a name, and of the name only the shape
/// is claimed.
#[verifier::external_body]
pub(crate) fn with_extension(path: &str, extension: &str) -> (replaced: String)
    requires
        !has_separator(extension@),
    ensures
        replaced@ == with_extension_of(path@, extension@),
        is_with_extension(path@, extension@, replaced@),
{
    std::path::Path::new(path).with_extension(extension).to_string_lossy().into_owned()
}

/// `std::path::Path::extension`: the part of the file name after its last
/// dot, if the path has a file name with such a part. Which part is the file
/// name the platform says: the result has a name, and of the name it is
/// claimed that an extension follows a dot of the path and holds none.
#[verifier::external_body]
pub(crate) fn extension(path: &str) -> (found: Option<String>)
    ensures
        found.deep_view() == extension_of(path@),
        found matches Some(ext) ==> is_extension_of(ext@, path@),
{
    std::path::Path::new(path).extension().map(|e| e.to_string_lossy().into_owned())
}

/// `std::path::Path::with_file_name`: the path with `name` in place of its
/// last component. The result has a name, and of the name it is claimed that
/// a plain name ends the result.
#[verifier::external_body]
pub(crate) fn with_file_name(path: &str, name: &str) -> (replaced: String)
    ensures
        replaced@ == with_file_name_of(path@, name@),
        is_plain_name(name@) ==> ends_with(replaced@, name@),
{
    std::path::Path::new(path).with_file_name(name).to_string_lossy().into_owned()
}

/// `std::path::Path::parent`: the path without its last component, if it has
/// one to lose. The result has a name, and of the name it is claimed that
/// what is left begins the path.
#[verifier::external_body]
pub(crate) fn parent(path: &str) -> (found: Option<String>)
    ensures
        found.deep_view() == parent_of(path@),
        found matches Some(dir) ==> begins_with(path@, dir@),
{
    std::path::Path::new(path).parent().map(|p| p.to_string_lossy().into_owned())
}

/// Where the descriptor of the alias `exe` lies: beside it, under the same
/// name, with [`DESCRIPTOR_EXTENSION`] as its extension.
pub fn metadata_path(exe: &str) -> (path: String)
    ensures
        path@ == with_extension_of(exe@, DESCRIPTOR_EXTENSION@),
        is_with_extension(exe@, DESCRIPTOR_EXTENSION@, path@),
{
    proof {
        reveal_strlit("meta");
        assert(!has_separator(DESCRIPTOR_EXTENSION@));
    }
    with_extension(exe, DESCRIPTOR_EXTENSION)
}

} // verus!
