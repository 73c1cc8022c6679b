//! Tests of the candidate-path enumeration.

use loadconf::path_list;

/// Test that path list produces the expected path list.
#[test]
fn generate_path_list() {
    let paths = path_list("testcfg", Some("/home/test"));

    let expected: Vec<String> = vec![
        "testcfg",
        "testcfg.toml",
        ".testcfg",
        ".testcfg.toml",
        "/home/test/.testcfg",
        "/home/test/.testcfg.toml",
        "/home/test/.config/testcfg",
        "/home/test/.config/testcfg.toml",
        "/home/test/.config/testcfg/config",
        "/home/test/.config/testcfg/config.toml",
        "/etc/.config/testcfg",
        "/etc/.config/testcfg.toml",
        "/etc/.config/testcfg/config",
        "/etc/.config/testcfg/config.toml",
    ]
    .into_iter()
    .map(|p| p.to_string())
    .collect();

    assert_eq!(paths, expected);
}

/// Path construction is plain concatenation, with no validation of the
/// application name.
#[test]
fn empty_name_is_plain_concatenation() {
    let paths = path_list("", None);
    let expected: Vec<String> = vec![
        "",
        ".toml",
        ".",
        "..toml",
        "/etc/.config/",
        "/etc/.config/.toml",
        "/etc/.config//config",
        "/etc/.config//config.toml",
    ]
    .into_iter()
    .map(|p| p.to_string())
    .collect();
    assert_eq!(paths, expected);
}

/// Without a resolvable home directory the six home entries are omitted
/// entirely and the remaining entries keep their relative order.
#[test]
fn generate_path_list_without_home() {
    let paths = path_list("testcfg", None);

    let expected: Vec<String> = vec![
        "testcfg",
        "testcfg.toml",
        ".testcfg",
        ".testcfg.toml",
        "/etc/.config/testcfg",
        "/etc/.config/testcfg.toml",
        "/etc/.config/testcfg/config",
        "/etc/.config/testcfg/config.toml",
    ]
    .into_iter()
    .map(|p| p.to_string())
    .collect();

    assert_eq!(paths, expected);
}
