//! Derivation of the two paths implied by the brick's linking
//! convention: the hash-index path of a directory's identifier under
//! the brick root, and the relative target its index symlink is
//! expected to hold.  Both are plain string concatenations; the caller
//! hands in the root without a trailing separator, as it was given on
//! the command line.

use vstd::prelude::*;

verus! {

/// The hash-index path of identifier `id` under `root`:
/// `<root>/.glusterfs/<id[0:2]>/<id[2:4]>/<id>`.
pub open spec fn index_path_spec(root: Seq<char>, id: Seq<char>) -> Seq<char>
    recommends
        id.len() >= 4,
{
    root + "/.glusterfs/"@ + id.subrange(0, 2) + "/"@ + id.subrange(2, 4) + "/"@ + id
}

/// The target the hash-index symlink of a directory is expected to
/// hold, given the parent's identifier `pid` and the directory's base
/// name: `../../<pid[0:2]>/<pid[2:4]>/<pid>/<name>`.
pub open spec fn expected_target_spec(pid: Seq<char>, name: Seq<char>) -> Seq<char>
    recommends
        pid.len() >= 4,
{
    "../../"@ + pid.subrange(0, 2) + "/"@ + pid.subrange(2, 4) + "/"@ + pid + "/"@ + name
}

/// Builds the hash-index path of identifier `id` under `root`.
pub fn hash_index_path(root: &str, id: &str) -> (r: String)
    requires
        id@.len() >= 4,
    ensures
        r@ == index_path_spec(root@, id@),
{
    let mut out = root.to_owned();
    out.append("/.glusterfs/");
    out.append(id.substring_char(0, 2));
    out.append("/");
    out.append(id.substring_char(2, 4));
    out.append("/");
    out.append(id);
    proof {
        assert(out@ =~= index_path_spec(root@, id@));
    }
    out
}

/// Builds the relative link target expected for a directory named
/// `name` whose parent has identifier `pid`.
pub fn expected_link_target(pid: &str, name: &str) -> (r: String)
    requires
        pid@.len() >= 4,
    ensures
        r@ == expected_target_spec(pid@, name@),
{
    let mut out = String::new();
    out.append("../../");
    out.append(pid.substring_char(0, 2));
    out.append("/");
    out.append(pid.substring_char(2, 4));
    out.append("/");
    out.append(pid);
    out.append("/");
    out.append(name);
    proof {
        assert(out@ =~= expected_target_spec(pid@, name@));
    }
    out
}

} // verus!
