use camino::{Utf8Component, Utf8Path};
use p2p_claude_daemon::fs::{is_traversal_path, FileService, PathComponent, PathError};

fn service() -> FileService {
    FileService::new("/tmp/p2p-root".to_string())
}

#[test]
fn test_path_traversal_blocked() {
    let service = service();
    // Try to traverse outside root
    let result = service.resolve_path("../etc/passwd");
    assert!(result.is_err());
}

#[test]
fn relative_path_is_joined_to_root() {
    let service = service();
    assert_eq!(service.resolve_path("test.txt"), Ok("/tmp/p2p-root/test.txt".to_string()));
    assert_eq!(service.resolve_path("a/b/c.txt"), Ok("/tmp/p2p-root/a/b/c.txt".to_string()));
    assert_eq!(service.root(), "/tmp/p2p-root");
}

#[test]
fn empty_path_is_the_root() {
    let service = service();
    let resolved = service.resolve_path("").unwrap();
    assert!(resolved.starts_with("/tmp/p2p-root"));
}

#[test]
fn absolute_and_nested_parent_paths_are_refused() {
    let service = service();
    assert_eq!(service.resolve_path("/etc/passwd"), Err(PathError::Traversal));
    assert_eq!(service.resolve_path("a/../../b"), Err(PathError::Traversal));
    assert_eq!(service.resolve_path("a/.."), Err(PathError::Traversal));
}

#[test]
fn dots_inside_names_are_not_traversal() {
    let service = service();
    assert!(service.resolve_path("a..b/c").is_ok());
    assert!(service.resolve_path("./a").is_ok());
}

#[test]
fn traversal_is_found_in_components() {
    assert!(is_traversal_path(&vec![PathComponent::Normal("a".to_string()), PathComponent::ParentDir]));
    assert!(is_traversal_path(&vec![PathComponent::RootDir]));
    assert!(!is_traversal_path(&vec![PathComponent::CurDir, PathComponent::Normal("x".to_string())]));
    assert!(!is_traversal_path(&vec![]));
}

#[test]
fn resolved_paths_begin_with_the_root() {
    let service = service();
    for p in ["x", "a/b", "./c", "d/./e", ""] {
        assert!(service.resolve_path(p).unwrap().starts_with("/tmp/p2p-root"));
    }
}

#[test]
fn resolved_paths_lie_below_the_root_by_components() {
    let service = service();
    let root: Vec<Utf8Component> = Utf8Path::new("/tmp/p2p-root").components().collect();
    for p in ["x", "a/b", "./c", "d/./e", "", "f/"] {
        let resolved = service.resolve_path(p).unwrap();
        let comps: Vec<Utf8Component> = Utf8Path::new(&resolved).components().collect();
        assert_eq!(&comps[..root.len()], &root[..]);
        assert!(comps[root.len()..]
            .iter()
            .all(|c| !matches!(c, Utf8Component::ParentDir | Utf8Component::RootDir)));
    }
    // A sibling whose name extends the root's last name is not below it.
    let sibling: Vec<Utf8Component> = Utf8Path::new("/tmp/p2p-rootx/y").components().collect();
    assert_ne!(&sibling[..root.len()], &root[..]);
}
