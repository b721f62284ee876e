use tftpd::pathguard::{check_path, is_path_prefix};

fn root() -> Vec<Vec<u8>> {
    vec![b"srv".to_vec(), b"tftp".to_vec()]
}

#[test]
fn plain_name_is_admitted_under_the_root() {
    let path = check_path(&root(), b"report.txt").unwrap();
    assert_eq!(path, vec![b"srv".to_vec(), b"tftp".to_vec(), b"report.txt".to_vec()]);
}

#[test]
fn subdirectory_name_is_admitted() {
    let path = check_path(&root(), b"sub/dir/file.bin").unwrap();
    assert_eq!(
        path,
        vec![
            b"srv".to_vec(),
            b"tftp".to_vec(),
            b"sub".to_vec(),
            b"dir".to_vec(),
            b"file.bin".to_vec()
        ]
    );
}

#[test]
fn dot_and_empty_segments_vanish() {
    let path = check_path(&root(), b"./a//b/./c").unwrap();
    assert_eq!(
        path,
        vec![b"srv".to_vec(), b"tftp".to_vec(), b"a".to_vec(), b"b".to_vec(), b"c".to_vec()]
    );
}

#[test]
fn traversal_inside_the_root_is_admitted() {
    let path = check_path(&root(), b"a/../b").unwrap();
    assert_eq!(path, vec![b"srv".to_vec(), b"tftp".to_vec(), b"b".to_vec()]);
}

#[test]
fn single_parent_escape_is_rejected() {
    assert!(check_path(&root(), b"../secret").is_err());
}

#[test]
fn deep_parent_escape_is_rejected() {
    assert!(check_path(&root(), b"../../etc/passwd").is_err());
}

#[test]
fn parent_escape_past_the_filesystem_root_is_rejected() {
    assert!(check_path(&root(), b"../../../../../../etc/passwd").is_err());
}

#[test]
fn absolute_name_outside_the_root_is_rejected() {
    assert!(check_path(&root(), b"/etc/passwd").is_err());
}

#[test]
fn absolute_name_inside_the_root_is_admitted() {
    let path = check_path(&root(), b"/srv/tftp/file").unwrap();
    assert_eq!(path, vec![b"srv".to_vec(), b"tftp".to_vec(), b"file".to_vec()]);
}

#[test]
fn escape_that_reenters_the_root_is_admitted() {
    let path = check_path(&root(), b"../tftp/file").unwrap();
    assert_eq!(path, vec![b"srv".to_vec(), b"tftp".to_vec(), b"file".to_vec()]);
}

#[test]
fn resolved_prefix_check_accepts_contained_paths() {
    let resolved = vec![b"srv".to_vec(), b"tftp".to_vec(), b"data".to_vec()];
    assert!(is_path_prefix(&root(), &resolved));
}

#[test]
fn resolved_prefix_check_rejects_symlink_escapes() {
    // A symlink under the root that points at /etc resolves to a path the
    // root does not prefix.
    let resolved = vec![b"etc".to_vec(), b"passwd".to_vec()];
    assert!(!is_path_prefix(&root(), &resolved));
    let sibling = vec![b"srv".to_vec(), b"other".to_vec(), b"x".to_vec()];
    assert!(!is_path_prefix(&root(), &sibling));
}
