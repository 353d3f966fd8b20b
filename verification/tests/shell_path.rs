use helide::shell_env::login_shell_path;

#[test]
fn path_is_trimmed_of_the_newline() {
    assert_eq!(login_shell_path(b"/usr/bin:/bin\n"), Some("/usr/bin:/bin".to_string()));
    assert_eq!(login_shell_path(b"  \t/opt/bin \r\n"), Some("/opt/bin".to_string()));
}

#[test]
fn inner_spaces_are_kept() {
    assert_eq!(login_shell_path(b"/a b:/c\n"), Some("/a b:/c".to_string()));
}

#[test]
fn blank_output_gives_no_path() {
    assert_eq!(login_shell_path(b""), None);
    assert_eq!(login_shell_path(b"\n"), None);
    assert_eq!(login_shell_path(" \u{a0}\u{3000}\n".as_bytes()), None);
}

#[test]
fn output_that_is_not_utf8_gives_no_path() {
    assert_eq!(login_shell_path(b"/bin\xff\n"), None);
    assert_eq!(login_shell_path(&[0xc3]), None);
}

#[test]
fn non_ascii_paths_are_kept() {
    assert_eq!(login_shell_path("/home/jürgen/bin\n".as_bytes()), Some("/home/jürgen/bin".to_string()));
}
