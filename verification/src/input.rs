//! The answer to the path of the image that is to be read.

use vstd::prelude::*;

verus! {

/// What a path at which nothing exists is answered with.
pub open spec fn not_found(path: Seq<char>) -> Seq<char> {
    "File not found: "@ + path
}

/// Accepts the path of the image where the path exists, and names the path
/// in an error where it does not.
pub fn check_file(path: &str, exists: bool) -> (checked: Result<String, String>)
    ensures
        exists ==> (checked matches Ok(accepted) && accepted@ == path@),
        !exists ==> (checked matches Err(message) && message@ == not_found(path@)),
{
    if exists {
        Ok(path.to_owned())
    } else {
        Err(String::from_str("File not found: ").concat(path))
    }
}

} // verus!
