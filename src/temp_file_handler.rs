//! Where the rewrite engine places its temporary file: beside the target.
use vstd::prelude::*;
use crate::store_error::StoreError;

verus! {

/// Whether `path` is a single relative component: non-empty, with no
/// separator or prefix character of any platform.
pub open spec fn single_component(path: Seq<char>) -> bool {
    path.len() > 0 && forall|i: int|
        0 <= i < path.len() ==> #[trigger] path[i] != '/' && path[i] != '\\' && path[i] != ':'
}

/// Whether `p` is a leading part of `path`.
pub open spec fn is_prefix_of(p: Seq<char>, path: Seq<char>) -> bool {
    p.len() <= path.len() && p == path.take(p.len() as int)
}

/// Relies on std::path::Path::parent: the path without its final
/// component (a leading slice of it), `None` for an empty path, and an
/// empty parent for a relative path of one component. Where the components
/// split otherwise depends on the platform, so no more is stated.
#[verifier::external_body]
fn path_parent(path: &str) -> (r: Option<String>)
    ensures
        r matches Some(p) ==> is_prefix_of(p@, path@),
        path@.len() == 0 ==> r is None,
        single_component(path@) ==> r is Some && r->Some_0@.len() == 0,
{
    match std::path::Path::new(path).parent() {
        Some(p) => Some(p.to_string_lossy().into_owned()),
        None => None,
    }
}

/// The directory in which a temporary file beside `path` is created: the
/// path's parent (empty for a file named without a directory, which means
/// the current one), or an error when it has none.
pub fn temp_dir_path_from_path(path: &str) -> (r: Result<String, StoreError>)
    ensures
        r matches Ok(d) ==> is_prefix_of(d@, path@),
        single_component(path@) ==> r is Ok && r->Ok_0@.len() == 0,
        path@.len() == 0 ==> r == Err::<String, StoreError>(StoreError::Io),
        r is Err ==> r == Err::<String, StoreError>(StoreError::Io),
{
    match path_parent(path) {
        Some(p) => Ok(p),
        None => Err(StoreError::Io),
    }
}

} // verus!
