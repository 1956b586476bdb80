//! Request targets of the remote object service.  Every exchange with the
//! service is a GET against one of three paths: the base tree of a
//! repository, the subtree below one directory, or the content of one object.
//! The transport sends these paths verbatim, so their text is pinned here.

use vstd::prelude::*;
use vstd::string::StringExecFns;

verus! {

/// Target of the listing request for the base tree of `repo`.
pub fn base_tree_path(repo: &str) -> (r: String)
    ensures
        r@ == "/api/v1/tree?repo_path=/projects/"@ + repo@,
{
    let mut s = String::from_str("/api/v1/tree?repo_path=/projects/");
    s.append(repo);
    s
}

/// Target of the listing request for the directory addressed by `id`
/// within `repo`.
pub fn sub_tree_path(repo: &str, id: &str) -> (r: String)
    ensures
        r@ == "/api/v1/tree?object_id="@ + id@ + "&repo_path=/projects/"@ + repo@,
{
    let mut s = String::from_str("/api/v1/tree?object_id=");
    s.append(id);
    s.append("&repo_path=/projects/");
    s.append(repo);
    s
}

/// Target of the content request for the object addressed by `id`
/// within `repo`.
pub fn file_content_path(repo: &str, id: &str) -> (r: String)
    ensures
        r@ == "/api/v1/object?object_id="@ + id@ + "&repo_path=/projects/"@ + repo@,
{
    let mut s = String::from_str("/api/v1/object?object_id=");
    s.append(id);
    s.append("&repo_path=/projects/");
    s.append(repo);
    s
}

} // verus!
