//! Where the game's resource files are found.

use vstd::prelude::*;

verus! {

/// The path of the resource file `path` inside the directory `resources_dir`:
/// the directory, a slash, then the file's path.
pub fn resource_path(resources_dir: &str, path: &str) -> (full: String)
    ensures
        full@ == resources_dir@ + seq!['/'] + path@,
{
    let mut full = resources_dir.to_owned();
    full.append("/");
    full.append(path);
    proof {
        reveal_strlit("/");
    }
    full
}

} // verus!
