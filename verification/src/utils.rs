//! Where the installer works: the project root and the compose bundle.

use vstd::prelude::*;
use crate::text::{contains_str, contains_text};

verus! {

/// Number of file names under which a compose file is recognised.
pub const COMPOSE_CANDIDATE_COUNT: usize = 4;

/// The file names under which a compose file is recognised, in order.
pub open spec fn compose_candidate_name(i: int) -> Seq<char> {
    if i == 0 {
        "docker-compose.yaml"@
    } else if i == 1 {
        "docker-compose.yml"@
    } else if i == 2 {
        "compose.yaml"@
    } else {
        "compose.yml"@
    }
}

/// Compose file name `i` (`docker-compose.yaml`, `docker-compose.yml`,
/// `compose.yaml`, `compose.yml`).
pub fn compose_candidate(i: usize) -> (r: &'static str)
    requires
        i < COMPOSE_CANDIDATE_COUNT,
    ensures
        r@ == compose_candidate_name(i as int),
{
    match i {
        0 => "docker-compose.yaml",
        1 => "docker-compose.yml",
        2 => "compose.yaml",
        _ => "compose.yml",
    }
}

/// The file that a new compose bundle is written to.
pub fn scaffold_compose_file() -> (r: &'static str)
    ensures
        r@ == compose_candidate_name(0),
{
    "docker-compose.yaml"
}

/// A compose file is written only when none of the recognised names exists;
/// `present[i]` tells whether candidate `i` exists.
pub fn needs_compose_scaffold(present: &Vec<bool>) -> (r: bool)
    ensures
        r == (forall|i: int| 0 <= i < present@.len() ==> !#[trigger] present@[i]),
{
    let mut i: usize = 0;
    while i < present.len()
        invariant
            i <= present@.len(),
            forall|j: int| 0 <= j < i ==> !#[trigger] present@[j],
        decreases present@.len() - i,
    {
        if present[i] {
            return false;
        }
        i = i + 1;
    }
    true
}

/// A working directory whose path mentions `target` is a development build,
/// where the project root is looked up above it.
pub open spec fn is_development_path(cwd: Seq<char>) -> bool {
    contains_text(cwd, "target"@)
}

/// Whether the project root must be looked up above the working directory.
pub fn is_development_dir(cwd: &str) -> (r: bool)
    ensures
        r == is_development_path(cwd@),
{
    contains_str(cwd, "target")
}

/// The marker file of the project root.
pub fn project_manifest() -> (r: &'static str)
    ensures
        r@ == "Cargo.toml"@,
{
    "Cargo.toml"
}

/// Among the ancestors of the working directory, nearest first, the project
/// root is the first that holds the manifest; `has_manifest[i]` tells whether
/// ancestor `i` does. `None`: no ancestor does, and the working directory is
/// the root.
pub fn first_manifest_ancestor(has_manifest: &Vec<bool>) -> (r: Option<usize>)
    ensures
        r matches Some(i) ==> i < has_manifest@.len() && has_manifest@[i as int] && forall|j: int|
            0 <= j < i ==> !#[trigger] has_manifest@[j],
        r is None ==> forall|j: int| 0 <= j < has_manifest@.len() ==> !#[trigger] has_manifest@[j],
{
    let mut i: usize = 0;
    while i < has_manifest.len()
        invariant
            i <= has_manifest@.len(),
            forall|j: int| 0 <= j < i ==> !#[trigger] has_manifest@[j],
        decreases has_manifest@.len() - i,
    {
        if has_manifest[i] {
            return Some(i);
        }
        i = i + 1;
    }
    None
}

} // verus!
