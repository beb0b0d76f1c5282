use vstd::prelude::*;
use crate::error::BuildError;

verus! {

/// The path `a/b`.
pub open spec fn joined(a: Seq<char>, b: Seq<char>) -> Seq<char> {
    a + seq!['/'] + b
}

pub open spec fn manifest_file_id() -> Seq<char> {
    seq!['c', 'e', 'd', 'a', 'r', '.', 't', 'o', 'm', 'l']
}

pub open spec fn src_id() -> Seq<char> {
    seq!['s', 'r', 'c']
}

pub open spec fn include_id() -> Seq<char> {
    seq!['i', 'n', 'c', 'l', 'u', 'd', 'e']
}

pub open spec fn build_dir_id() -> Seq<char> {
    seq!['b', 'u', 'i', 'l', 'd']
}

/// The four paths a project root must hold, in the order they are checked:
/// the manifest, `src`, `include` and `build`.
pub open spec fn required_paths(root: Seq<char>) -> Seq<Seq<char>> {
    seq![
        joined(root, manifest_file_id()),
        joined(root, src_id()),
        joined(root, include_id()),
        joined(root, build_dir_id()),
    ]
}

/// Whether a check of the required paths found every one of them.
pub open spec fn all_present(found: Seq<bool>) -> bool {
    found.len() == 4 && forall|i: int| 0 <= i < 4 ==> #[trigger] found[i]
}

/// The path `a/b`.
pub fn join(a: &str, b: &str) -> (r: String)
    ensures
        r@ == joined(a@, b@),
{
    proof {
        reveal_strlit("/");
    }
    let r = a.to_owned().concat("/").concat(b);
    assert(r@ =~= joined(a@, b@));
    r
}

/// The path of the manifest under a project root.
pub fn manifest_path(root: &str) -> (r: String)
    ensures
        r@ == joined(root@, manifest_file_id()),
{
    proof {
        reveal_strlit("cedar.toml");
        assert("cedar.toml"@ =~= manifest_file_id());
    }
    join(root, "cedar.toml")
}

/// The paths that a project root must hold.
pub fn layout_paths(root: &str) -> (r: Vec<String>)
    ensures
        r@.map_values(|p: String| p@) == required_paths(root@),
{
    proof {
        reveal_strlit("src");
        reveal_strlit("include");
        reveal_strlit("build");
        assert("src"@ =~= src_id());
        assert("include"@ =~= include_id());
        assert("build"@ =~= build_dir_id());
    }
    let r = vec![manifest_path(root), join(root, "src"), join(root, "include"), join(root, "build")];
    assert(r@.map_values(|p: String| p@) =~= required_paths(root@));
    r
}

/// Checks the layout of a project root: `found[i]` tells whether the `i`-th
/// path of `layout_paths` exists. Fails with `InvalidDirectory` unless all
/// four do.
pub fn validate_layout(found: &Vec<bool>) -> (r: Result<(), BuildError>)
    ensures
        r is Ok <==> all_present(found@),
        r is Err ==> r matches Err(BuildError::InvalidDirectory),
{
    if found.len() != 4 {
        return Err(BuildError::InvalidDirectory);
    }
    let mut i: usize = 0;
    while i < 4
        invariant
            found@.len() == 4,
            i <= 4,
            forall|j: int| 0 <= j < i ==> #[trigger] found@[j],
        decreases 4 - i,
    {
        if !found[i] {
            return Err(BuildError::InvalidDirectory);
        }
        i = i + 1;
    }
    Ok(())
}

} // verus!
