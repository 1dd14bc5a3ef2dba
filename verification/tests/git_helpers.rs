use cofer::git::{branch_ref, ensure_gitignore_has_cofer, gitignore_has_cofer, push_refspec};

#[test]
fn references_are_under_the_cofer_namespace() {
    assert_eq!(branch_ref("feature"), "refs/heads/cofer/feature");
    assert_eq!(branch_ref(""), "refs/heads/cofer/");
    assert_eq!(push_refspec("abc123", "feature"), "+abc123:refs/heads/cofer/feature");
}

#[test]
fn an_ignore_file_names_the_directory_on_a_line_of_its_own() {
    assert!(gitignore_has_cofer(b".cofer"));
    assert!(gitignore_has_cofer(b".cofer/\n"));
    assert!(gitignore_has_cofer(b"target\n.cofer//\r\nnode_modules\n"));
    assert!(gitignore_has_cofer(b"a\n.cofer"));
    assert!(!gitignore_has_cofer(b""));
    assert!(!gitignore_has_cofer(b"target\n"));
    assert!(!gitignore_has_cofer(b" .cofer\n"));
    assert!(!gitignore_has_cofer(b".cofer \n"));
    assert!(!gitignore_has_cofer(b".cofer/x\n"));
    assert!(!gitignore_has_cofer(b"x.cofer\n"));
    assert!(!gitignore_has_cofer(b"/\n"));
}

#[test]
fn the_line_is_added_once() {
    assert_eq!(ensure_gitignore_has_cofer(None), Some(b".cofer/\n".to_vec()));
    assert_eq!(ensure_gitignore_has_cofer(Some(b"")), Some(b".cofer/\n".to_vec()));
    assert_eq!(ensure_gitignore_has_cofer(Some(b"target\n")), Some(b".cofer/\n".to_vec()));
    assert_eq!(ensure_gitignore_has_cofer(Some(b"target\n.cofer/\n")), None);
    let mut file = b"target\n".to_vec();
    file.extend_from_slice(&ensure_gitignore_has_cofer(Some(&file)).unwrap());
    assert_eq!(ensure_gitignore_has_cofer(Some(&file)), None);
}
