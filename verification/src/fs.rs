//! The file service's path guard: client paths are resolved below a root
//! directory, and paths that could leave it are refused.

use vstd::prelude::*;
use camino::{Utf8Component, Utf8Path};

verus! {

/// One component of a path, as the path parser reports it.
#[derive(Debug, Clone, PartialEq, Eq)]
pub enum PathComponent {
    /// A Windows path prefix, such as `C:`
    Prefix(String),
    /// The root directory
    RootDir,
    /// `.`
    CurDir,
    /// `..`
    ParentDir,
    /// A plain name
    Normal(String),
}

/// The components camino's `Utf8Path::components` yields for `path`.
pub uninterp spec fn utf8_path_components(path: Seq<char>) -> Seq<PathComponent>;

/// The path camino's `Utf8Path::join` builds from `base` and `path`.
pub uninterp spec fn utf8_path_join(base: Seq<char>, path: Seq<char>) -> Seq<char>;

/// Whether a component could lead out of the root: `..` or the root itself.
pub open spec fn leaves_root(c: PathComponent) -> bool {
    c is ParentDir || c is RootDir
}

/// Whether a path, given by its components, is relative: it has neither a
/// root nor a prefix component.
pub open spec fn is_relative(components: Seq<PathComponent>) -> bool {
    forall|i: int|
        0 <= i < components.len() ==> !(#[trigger] components[i] is RootDir) && !(
        components[i] is Prefix)
}

/// Whether a path, given by its components, has no prefix component (a
/// Windows drive or share); no path on Unix has one.
pub open spec fn prefix_free(components: Seq<PathComponent>) -> bool {
    forall|i: int| 0 <= i < components.len() ==> !(#[trigger] components[i] is Prefix)
}

/// Whether the path with components `p` lies below the directory with
/// components `root`: it begins with them, and no later component is a `..`
/// or a root.
pub open spec fn stays_below(root: Seq<PathComponent>, p: Seq<PathComponent>) -> bool {
    &&& root.is_prefix_of(p)
    &&& forall|i: int| root.len() <= i < p.len() ==> !leaves_root(#[trigger] p[i])
}

/// Whether a path, given by its components, is refused as a traversal.
pub open spec fn is_traversal(components: Seq<PathComponent>) -> bool {
    exists|i: int| 0 <= i < components.len() && leaves_root(#[trigger] components[i])
}

/// Why a path was refused.
#[derive(Debug, Clone, Copy, PartialEq, Eq)]
pub enum PathError {
    /// The path holds a `..` or a root component.
    Traversal,
}

/// File system service: all paths are taken below a root directory.
#[derive(Debug, Clone)]
pub struct FileService {
    /// Root directory for all file operations
    root: String,
}

impl FileService {
    /// The root directory.
    pub closed spec fn root_path(self) -> Seq<char> {
        self.root@
    }

    /// Creates a file service with the given root directory.
    pub fn new(root: String) -> (s: FileService)
        ensures
            s.root_path() == root@,
    {
        FileService { root }
    }

    /// The root directory.
    pub fn root(&self) -> (r: &str)
        ensures
            r@ == self.root_path(),
    {
        self.root.as_str()
    }

    /// Resolves a path relative to the root, refusing any path with a `..`
    /// or a root component. Where neither the root nor the path has a prefix
    /// component (always so on Unix), the resolved path lies below the root.
    pub fn resolve_path(&self, path: &str) -> (r: Result<String, PathError>)
        ensures
            r is Err <==> is_traversal(utf8_path_components(path@)),
            r matches Ok(p) ==> p@ == utf8_path_join(self.root_path(), path@),
            r matches Ok(p) ==> (prefix_free(utf8_path_components(self.root_path()))
                && prefix_free(utf8_path_components(path@)) ==> {
                &&& self.root_path().is_prefix_of(p@)
                &&& stays_below(utf8_path_components(self.root_path()), utf8_path_components(p@))
            }),
    {
        let components = path_components(path);
        if is_traversal_path(&components) {
            return Err(PathError::Traversal);
        }
        let joined = join_path(self.root.as_str(), path);
        proof {
            let rc = utf8_path_components(self.root_path());
            let pc = utf8_path_components(path@);
            let jc = utf8_path_components(joined@);
            if prefix_free(rc) && prefix_free(pc) {
                assert forall|i: int| 0 <= i < pc.len() implies !(#[trigger] pc[i] is RootDir) && !(
                pc[i] is Prefix) by {
                    assert(!leaves_root(pc[i]));
                }
                assert(is_relative(pc));
                assert forall|i: int| rc.len() <= i < jc.len() implies !leaves_root(#[trigger] jc[i]) by {
                    assert(pc.contains(jc[i]));
                    let j = choose|j: int| 0 <= j < pc.len() && pc[j] == jc[i];
                    assert(!leaves_root(pc[j]));
                }
            }
        }
        Ok(joined)
    }
}

/// A path is refused exactly when one of its components is `..` or the root:
/// a path made only of plain names (whatever their text, dots included),
/// `.` and prefixes is never refused, and joining two component lists gives
/// a traversal exactly when one of them is one.
pub proof fn law_refused_exactly_for_parent_or_root(
    components: Seq<PathComponent>,
    more: Seq<PathComponent>,
)
    ensures
        is_traversal(components) <==> exists|i: int|
            0 <= i < components.len() && (components[i] is ParentDir || components[i] is RootDir),
        (forall|i: int|
            0 <= i < components.len() ==> (#[trigger] components[i] is Normal || components[i] is CurDir
                || components[i] is Prefix)) ==> !is_traversal(components),
        is_traversal(components + more) <==> (is_traversal(components) || is_traversal(more)),
{
    let all = components + more;
    if is_traversal(all) {
        let i = choose|i: int| 0 <= i < all.len() && leaves_root(#[trigger] all[i]);
        if i < components.len() {
            assert(all[i] == components[i]);
        } else {
            assert(all[i] == more[i - components.len()]);
        }
    }
    if is_traversal(components) {
        let i = choose|i: int| 0 <= i < components.len() && leaves_root(#[trigger] components[i]);
        assert(all[i] == components[i]);
    }
    if is_traversal(more) {
        let i = choose|i: int| 0 <= i < more.len() && leaves_root(#[trigger] more[i]);
        assert(all[components.len() + i] == more[i]);
    }
}

/// Whether a path, given by its components, holds a `..` or a root component.
pub fn is_traversal_path(components: &Vec<PathComponent>) -> (r: bool)
    ensures
        r == is_traversal(components@),
{
    let n = components.len();
    let mut i: usize = 0;
    while i < n
        invariant
            n == components@.len(),
            i <= n,
            forall|j: int| 0 <= j < i ==> !leaves_root(#[trigger] components@[j]),
        decreases n - i,
    {
        match &components[i] {
            PathComponent::ParentDir => {
                return true;
            },
            PathComponent::RootDir => {
                return true;
            },
            _ => {},
        }
        i = i + 1;
    }
    false
}

/// Splits `path` into components with camino's `Utf8Path::components`,
/// converting each to a `PathComponent` of the same kind and text. Claimed:
/// the result is `utf8_path_components(path)`.
#[verifier::external_body]
fn path_components(path: &str) -> (r: Vec<PathComponent>)
    ensures
        r@ == utf8_path_components(path@),
{
    let mut v = Vec::new();
    for c in Utf8Path::new(path).components() {
        v.push(match c {
            Utf8Component::Prefix(p) => PathComponent::Prefix(p.as_str().to_string()),
            Utf8Component::RootDir => PathComponent::RootDir,
            Utf8Component::CurDir => PathComponent::CurDir,
            Utf8Component::ParentDir => PathComponent::ParentDir,
            Utf8Component::Normal(s) => PathComponent::Normal(s.to_string()),
        });
    }
    v
}

/// Adjoins `path` to `base` with camino's `Utf8Path::join`, which calls
/// `Utf8PathBuf::push`. Claimed: the result is `utf8_path_join(base, path)`;
/// and where neither has a prefix component and `path` has no root, the
/// result is `base` extended by `path`, as the documentation of `push` says
/// of a relative path (std places a separator between them where `base` does
/// not end in one). So the result begins with `base`, its components begin
/// with those of `base`, and each later component is one of `path`'s. Left
/// unsaid: the result where a prefix component is involved (on Windows a
/// verbatim prefix makes `push` normalize the whole path), and exactly which
/// of `path`'s components remain (a `.` may be dropped).
#[verifier::external_body]
fn join_path(base: &str, path: &str) -> (r: String)
    ensures
        r@ == utf8_path_join(base@, path@),
        prefix_free(utf8_path_components(base@)) && is_relative(utf8_path_components(path@))
            ==> {
            &&& base@.is_prefix_of(r@)
            &&& utf8_path_components(base@).is_prefix_of(utf8_path_components(r@))
            &&& forall|i: int|
                utf8_path_components(base@).len() <= i < utf8_path_components(r@).len()
                    ==> utf8_path_components(path@).contains(
                    #[trigger] utf8_path_components(r@)[i],
                )
        },
{
    Utf8Path::new(base).join(path).into_string()
}

} // verus!
