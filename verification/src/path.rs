//! Paths of files: carried as the platform gives them, and shown as text.

use vstd::prelude::*;
use std::path::PathBuf;

verus! {

/// `std::path::PathBuf`, an owned path as the platform holds it, which
/// need not be UTF-8. It is carried through as it is; nothing is read from
/// it but the text to show.
#[verifier::external_type_specification]
#[verifier::external_body]
pub struct ExPathBuf(PathBuf);

/// `<PathBuf as Clone>::clone` gives a path equal to the one cloned.
pub assume_specification[ <PathBuf as Clone>::clone ](path: &PathBuf) -> (copy: PathBuf)
    ensures
        copy == *path,
;

/// The path that `PathBuf::from` makes of a text.
pub uninterp spec fn path_of(text: Seq<char>) -> PathBuf;

/// The text that `Path::display` writes for a path.
pub uninterp spec fn display_text(path: PathBuf) -> Seq<char>;

/// `PathBuf::from` on a `String`. Nothing is claimed of the path but that
/// the same text gives the same path.
#[verifier::external_body]
pub(crate) fn path_from_string(text: String) -> (path: PathBuf)
    ensures
        path == path_of(text@),
{
    PathBuf::from(text)
}

/// `Path::display`, written out. Nothing is claimed of the text but that
/// the same path gives the same text.
#[verifier::external_body]
pub(crate) fn path_display(path: &PathBuf) -> (text: String)
    ensures
        text@ == display_text(*path),
{
    format!("{}", path.display())
}

} // verus!
