//! Taking a file path apart and putting one together. Where a path is cut is
//! the platform's business, so this is the work of `std::path`; the module
//! names what it returns and builds the destination of a rename from it.

use crate::result::optional_text;
use vstd::prelude::*;

verus! {

/// What `Path::file_name` returns for a path, as text: its final component,
/// or nothing where it has none. The value is the one of the platform that
/// the library is built for.
pub uninterp spec fn base_name(path: Seq<char>) -> Option<Seq<char>>;

/// What `Path::parent` returns for a path, as text: the path without its
/// final component, or nothing where there is nothing to cut. The value is
/// the one of the platform that the library is built for.
pub uninterp spec fn parent_directory(path: Seq<char>) -> Option<Seq<char>>;

/// What `Path::join` returns, as text: `name` as a path below `directory`.
/// The value is the one of the platform that the library is built for.
pub uninterp spec fn joined_path(directory: Seq<char>, name: Seq<char>) -> Seq<char>;

/// Where a file goes that is renamed to `new_name`: into the directory it is
/// in, which is the empty path for a file without a parent directory.
pub open spec fn destination_spec(file_path: Seq<char>, new_name: Seq<char>) -> Seq<char> {
    joined_path(
        match parent_directory(file_path) {
            Some(directory) => directory,
            None => Seq::empty(),
        },
        new_name,
    )
}

/// `Path::file_name` on the path, with the component copied into a string.
/// The result depends on the text of the path alone, so the contract gives
/// it a name and claims no more.
#[verifier::external_body]
pub(crate) fn file_name(path: &str) -> (name: Option<String>)
    ensures
        optional_text(name) == base_name(path@),
{
    std::path::Path::new(path).file_name().map(|name| name.to_string_lossy().into_owned())
}

/// `Path::parent` on the path, with the parent copied into a string. The
/// result depends on the text of the path alone, so the contract gives it a
/// name and claims no more.
#[verifier::external_body]
fn parent(path: &str) -> (directory: Option<String>)
    ensures
        optional_text(directory) == parent_directory(path@),
{
    std::path::Path::new(path).parent().map(|directory| directory.to_string_lossy().into_owned())
}

/// `Path::join` on a directory and a name, copied into a string. The result
/// depends on the two texts alone, so the contract gives it a name and claims
/// no more.
#[verifier::external_body]
fn join(directory: &str, name: &str) -> (joined: String)
    ensures
        joined@ == joined_path(directory@, name@),
{
    std::path::Path::new(directory).join(name).to_string_lossy().into_owned()
}

/// The path under which the file at `file_path` is found once it is renamed
/// to `new_name` in its directory.
pub fn rename_destination(file_path: &str, new_name: &str) -> (destination: String)
    ensures
        destination@ == destination_spec(file_path@, new_name@),
{
    match parent(file_path) {
        Some(directory) => join(directory.as_str(), new_name),
        None => {
            proof {
                reveal_strlit("");
                assert(""@ =~= Seq::<char>::empty());
            }
            join("", new_name)
        },
    }
}

} // verus!
