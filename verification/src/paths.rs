//! Paths of the file system, and the text they are shown as.
use std::path::PathBuf;
use vstd::prelude::*;

verus! {

/// `std::path::PathBuf`: a path.
#[verifier::external_type_specification]
#[verifier::external_body]
pub struct ExPathBuf(PathBuf);

/// `PathBuf::clone`: the same path.
pub assume_specification[ <PathBuf as Clone>::clone ](path: &PathBuf) -> (copy: PathBuf)
    ensures
        copy == *path,
;

/// A path as text, where it is Unicode.
pub uninterp spec fn path_text(path: PathBuf) -> Option<Seq<char>>;

/// `Path::to_str`: the path as text, where it is Unicode.
#[verifier::external_body]
pub(crate) fn to_str(path: &PathBuf) -> (text: Option<String>)
    ensures
        match text {
            Some(text) => path_text(*path) == Some(text@),
            None => path_text(*path) is None,
        },
{
    path.to_str().map(|text| text.to_owned())
}

/// A path as text, with what is no Unicode replaced.
pub uninterp spec fn lossy_path_text(path: PathBuf) -> Seq<char>;

/// `Path::to_string_lossy`: the path as text; where it is Unicode, that text itself.
#[verifier::external_body]
pub(crate) fn to_string_lossy(path: &PathBuf) -> (text: String)
    ensures
        text@ == lossy_path_text(*path),
        path_text(*path) is Some ==> path_text(*path) == Some(text@),
{
    path.to_string_lossy().into_owned()
}

/// The last component of a path, where it is a name.
pub uninterp spec fn last_component(path: PathBuf) -> Option<PathBuf>;

/// `Path::file_name`: the last component of the path, where it is a name.
#[verifier::external_body]
pub(crate) fn file_name(path: &PathBuf) -> (name: Option<PathBuf>)
    ensures
        name == last_component(*path),
{
    path.file_name().map(PathBuf::from)
}

} // verus!
