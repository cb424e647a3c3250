use freebuff_shell::password::extract_password;

fn pw(line: &str) -> Option<String> {
    extract_password(line)
}

#[test]
fn takes_token_after_label() {
    assert_eq!(pw("  密码:     IT3Z9abcQ"), Some("IT3Z9abcQ".to_string()));
}

#[test]
fn label_inside_longer_word() {
    assert_eq!(pw("管理员密码:  Abc123"), Some("Abc123".to_string()));
}

#[test]
fn no_space_after_label() {
    assert_eq!(pw("密码:abcdef"), Some("abcdef".to_string()));
}

#[test]
fn token_stops_at_white_space() {
    assert_eq!(pw("密码:\tabc123 trailing words"), Some("abc123".to_string()));
}

#[test]
fn too_short_token_is_refused() {
    assert_eq!(pw("密码: abc12"), None);
}

#[test]
fn six_bytes_are_enough() {
    assert_eq!(pw("密码: abc123"), Some("abc123".to_string()));
}

#[test]
fn token_without_letter_or_digit_is_refused() {
    assert_eq!(pw("密码: ------"), None);
    assert_eq!(pw("密码: ------a"), Some("------a".to_string()));
}

#[test]
fn length_counts_bytes_not_characters() {
    // "ééé1" is four characters but seven bytes.
    assert_eq!(pw("密码: ééé1"), Some("ééé1".to_string()));
    // "éé1" is five bytes.
    assert_eq!(pw("密码: éé1"), None);
    assert_eq!(pw("密码: 密码12"), Some("密码12".to_string()));
}

#[test]
fn empty_after_label() {
    assert_eq!(pw("密码:"), None);
    assert_eq!(pw("密码:    "), None);
}

#[test]
fn no_label() {
    assert_eq!(pw("password: abcdef123"), None);
    assert_eq!(pw(""), None);
    assert_eq!(pw("密码：abcdef123"), None);
}

#[test]
fn only_first_label_counts() {
    assert_eq!(pw("密码: x 密码: abcdef"), None);
}

#[test]
fn unicode_white_space_separates() {
    assert_eq!(pw("密码:\u{3000}Abcdef1\u{3000}rest"), Some("Abcdef1".to_string()));
    assert_eq!(pw("密码: ab\u{2003}cdef"), None);
    assert_eq!(pw("密码: ab\u{200B}cdef"), Some("ab\u{200B}cdef".to_string()));
}
