use freebuff_shell::tail::{StderrTail, TAIL_LINES};

#[test]
fn keeps_last_forty_lines() {
    let mut t = StderrTail::new();
    for i in 0..45 {
        t.push(format!("line {}", i));
        assert!(t.len() <= TAIL_LINES);
    }
    assert_eq!(t.len(), 40);
    let expected: Vec<String> = (5..45).map(|i| format!("line {}", i)).collect();
    assert_eq!(t.joined(), expected.join("\n"));
}

#[test]
fn short_history_is_kept_whole() {
    let mut t = StderrTail::new();
    assert_eq!(t.joined(), "");
    t.push("first".to_string());
    assert_eq!(t.joined(), "first");
    t.push("second".to_string());
    assert_eq!(t.len(), 2);
    assert_eq!(t.joined(), "first\nsecond");
}
