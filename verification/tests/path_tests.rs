use chronix::errno::SysError;
use chronix::path::{abs_path_to_name, abs_path_to_parent, rel_path_to_abs, user_path_to_string};

#[test]
fn names_of_paths() {
    assert_eq!(abs_path_to_name("a/b/c"), Some("c".to_string()));
    assert_eq!(abs_path_to_name("/a/b/c/"), Some("c".to_string()));
    assert_eq!(abs_path_to_name("c"), Some("c".to_string()));
    assert_eq!(abs_path_to_name("/"), Some("".to_string()));
    assert_eq!(abs_path_to_name(""), None);
}

#[test]
fn parents_of_paths() {
    assert_eq!(abs_path_to_parent("/a/b/c"), Some("/a/b".to_string()));
    assert_eq!(abs_path_to_parent("/a/b/c//"), Some("/a/b".to_string()));
    assert_eq!(abs_path_to_parent("/a"), Some("/".to_string()));
    assert_eq!(abs_path_to_parent("a"), None);
}

#[test]
fn relative_paths_are_joined() {
    assert_eq!(rel_path_to_abs("/a/b", "c"), Some("/a/b/c".to_string()));
    assert_eq!(rel_path_to_abs("/a/b/", "./c"), Some("/a/b/c".to_string()));
    assert_eq!(rel_path_to_abs("/", "c"), Some("/c".to_string()));
    assert_eq!(rel_path_to_abs("/a/b", "././c/d"), Some("/a/b/c/d".to_string()));
    assert_eq!(rel_path_to_abs("/a/b", "."), Some("/a/b".to_string()));
    assert_eq!(rel_path_to_abs("/a/b/", ""), Some("/a/b".to_string()));
    assert_eq!(rel_path_to_abs("/", "."), Some("/".to_string()));
    assert_eq!(rel_path_to_abs("/", ""), Some("/".to_string()));
    assert_eq!(rel_path_to_abs("/", "./"), Some("/".to_string()));
    assert_eq!(rel_path_to_abs("a/b", "c"), None);
}

#[test]
fn join_then_name_gives_the_name_back() {
    let p = rel_path_to_abs("/usr/lib", "libc.so").unwrap();
    assert_eq!(abs_path_to_name(&p), Some("libc.so".to_string()));
}

#[test]
fn user_paths() {
    assert_eq!(user_path_to_string(None), Err(SysError::EINVAL));
    assert_eq!(user_path_to_string(Some(Err(SysError::EFAULT))), Err(SysError::EFAULT));
    assert_eq!(user_path_to_string(Some(Ok(vec![]))), Err(SysError::EINVAL));
    assert_eq!(user_path_to_string(Some(Ok(vec![0xff, 0xfe]))), Err(SysError::EINVAL));
    assert_eq!(user_path_to_string(Some(Ok(b"/bin/sh".to_vec()))), Ok("/bin/sh".to_string()));
}
