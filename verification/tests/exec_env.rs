use devmgr::environment::{
    attach_command, exec_env_from, is_utf8_locale, shell_args_or_default, utf8_locale_or_default,
};

#[test]
fn exec_env_defaults_to_utf8_locale() {
    assert_eq!(
        exec_env_from("/bin/bash", None, None, None, None),
        vec![
            "TERM=xterm-256color",
            "SHELL=/bin/bash",
            "LANG=C.UTF-8",
            "LC_CTYPE=C.UTF-8",
        ]
    );
}

#[test]
fn exec_env_preserves_utf8_locale() {
    assert_eq!(
        exec_env_from(
            "/bin/zsh",
            Some("screen-256color"),
            Some("zh_CN.UTF-8"),
            Some("en_US.utf8"),
            Some("C.UTF-8"),
        ),
        vec![
            "TERM=screen-256color",
            "SHELL=/bin/zsh",
            "LANG=zh_CN.UTF-8",
            "LC_CTYPE=en_US.utf8",
            "LC_ALL=C.UTF-8",
        ]
    );
}

#[test]
fn exec_env_replaces_non_utf8_locale() {
    assert_eq!(
        exec_env_from(
            "/bin/sh",
            Some("xterm"),
            Some("C"),
            Some("POSIX"),
            Some("C"),
        ),
        vec![
            "TERM=xterm",
            "SHELL=/bin/sh",
            "LANG=C.UTF-8",
            "LC_CTYPE=C.UTF-8",
        ]
    );
}

#[test]
fn utf8_locale_detection_ignores_case_and_dash() {
    assert!(is_utf8_locale("en_US.UTF-8"));
    assert!(is_utf8_locale("en_US.utf8"));
    assert!(is_utf8_locale("de_DE.Utf-8@euro"));
    assert!(is_utf8_locale("UTF8"));
    assert!(!is_utf8_locale("C"));
    assert!(!is_utf8_locale("POSIX"));
    assert!(!is_utf8_locale("en_US.ISO-8859-1"));
    assert!(!is_utf8_locale("utf_8"));
    assert!(!is_utf8_locale(""));
}

#[test]
fn locale_choice_keeps_utf8_and_defaults_otherwise() {
    assert_eq!(utf8_locale_or_default(Some("ja_JP.UTF-8")), "ja_JP.UTF-8");
    assert_eq!(utf8_locale_or_default(Some("ja_JP.eucJP")), "C.UTF-8");
    assert_eq!(utf8_locale_or_default(None), "C.UTF-8");
    // Choosing again keeps the chosen locale.
    let once = utf8_locale_or_default(Some("fr_FR"));
    assert_eq!(utf8_locale_or_default(Some(once)), once);
}

#[test]
fn lc_all_is_dropped_when_not_utf8() {
    let env = exec_env_from("/bin/fish", None, Some("en_GB.UTF8"), None, Some("POSIX"));
    assert_eq!(env.len(), 4);
    assert_eq!(env[2], "LANG=en_GB.UTF8");
    assert_eq!(env[3], "LC_CTYPE=C.UTF-8");
}

#[test]
fn attach_command_puts_shell_first() {
    assert_eq!(attach_command("/bin/bash", &["-l", "-i"]), vec!["/bin/bash", "-l", "-i"]);
    assert_eq!(attach_command("/bin/sh", &[]), vec!["/bin/sh"]);
}

#[test]
fn shell_args_default_to_login_interactive() {
    assert_eq!(shell_args_or_default(&[]), vec!["-l", "-i"]);
    assert_eq!(shell_args_or_default(&["-i"]), vec!["-i"]);
    assert_eq!(shell_args_or_default(&["-c", "ls"]), vec!["-c", "ls"]);
}
