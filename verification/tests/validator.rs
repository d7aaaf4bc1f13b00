use image_server::validate::is_valid_folder_name;

#[test]
fn rejects_empty() {
    assert!(!is_valid_folder_name(""));
}

#[test]
fn rejects_dot_dot() {
    assert!(!is_valid_folder_name(".."));
}

#[test]
fn rejects_embedded_dot_dot() {
    assert!(!is_valid_folder_name("a..b"));
    assert!(!is_valid_folder_name("..hidden"));
    assert!(!is_valid_folder_name("trailing.."));
}

#[test]
fn rejects_percent() {
    assert!(!is_valid_folder_name("a%2e"));
    assert!(!is_valid_folder_name("%"));
}

#[test]
fn rejects_backslash() {
    assert!(!is_valid_folder_name("a\\b"));
    assert!(!is_valid_folder_name("\\"));
}

#[test]
fn rejects_separator_and_other_characters() {
    assert!(!is_valid_folder_name("a/b"));
    assert!(!is_valid_folder_name("a b"));
    assert!(!is_valid_folder_name("a:b"));
    assert!(!is_valid_folder_name("caf\u{e9}"));
}

#[test]
fn accepts_plain_names() {
    assert!(is_valid_folder_name("icons"));
    assert!(is_valid_folder_name("logo.png"));
    assert!(is_valid_folder_name("a"));
    assert!(is_valid_folder_name("A-1_b.2"));
}

#[test]
fn accepts_single_dot_uses() {
    assert!(is_valid_folder_name("."));
    assert!(is_valid_folder_name("v1.2.3"));
    assert!(is_valid_folder_name(".hidden"));
}
