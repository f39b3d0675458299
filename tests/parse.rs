use git_iter::{parse_log, parse_log_line};

#[test]
fn log_yields_one_commit_per_line_in_order() {
    let log = "c3c3c3c - 2024-03-03 10:00:00 +0000 - Third\n\
               b2b2b2b - 2024-02-02 10:00:00 +0000 - Second\n\
               a1a1a1a - 2024-01-01 10:00:00 +0000 - First";
    let cs = match parse_log("repo", log) {
        Ok(cs) => cs,
        Err(_) => panic!("log should parse"),
    };
    assert_eq!(cs.len(), 3);
    assert_eq!(cs[0].hash, "c3c3c3c");
    assert_eq!(cs[0].datetime, "2024-03-03 10:00:00 +0000");
    assert_eq!(cs[0].name, "Third");
    assert_eq!(cs[1].hash, "b2b2b2b");
    assert_eq!(cs[2].hash, "a1a1a1a");
    assert_eq!(cs[2].name, "First");
    for c in &cs {
        assert_eq!(c.repo, "repo");
        assert!(!c.hash.is_empty() && !c.datetime.is_empty() && !c.name.is_empty());
    }
}

#[test]
fn trailing_newline_and_carriage_returns_are_not_lines() {
    let cs = match parse_log(".", "abc - d1 - s1\r\ndef - d2 - s2\n") {
        Ok(cs) => cs,
        Err(_) => panic!("log should parse"),
    };
    assert_eq!(cs.len(), 2);
    assert_eq!(cs[0].name, "s1");
    assert_eq!(cs[1].name, "s2");
}

#[test]
fn empty_log_has_no_commits() {
    match parse_log(".", "") {
        Ok(cs) => assert!(cs.is_empty()),
        Err(_) => panic!("an empty log is no error"),
    }
}

#[test]
fn subject_holding_the_separator_is_kept_whole() {
    let c = parse_log_line("r", "abc - 2024 - fix a - b - c").unwrap();
    assert_eq!(c.hash, "abc");
    assert_eq!(c.datetime, "2024");
    assert_eq!(c.name, "fix a - b - c");
}

#[test]
fn empty_subject_is_kept() {
    let c = parse_log_line("r", "abc - 2024 - ").unwrap();
    assert_eq!(c.name, "");
}

#[test]
fn line_with_two_fields_is_malformed() {
    assert!(parse_log_line("r", "abc - 2024").is_none());
    assert!(parse_log_line("r", "").is_none());
}

#[test]
fn line_with_empty_hash_is_malformed() {
    assert!(parse_log_line("r", " - 2024 - subject").is_none());
}

#[test]
fn malformed_line_fails_the_whole_log_with_its_index() {
    match parse_log("r", "abc - d - s\nbroken line\nxyz - d - s") {
        Ok(_) => panic!("log should not parse"),
        Err(e) => assert_eq!(e.line, 1),
    }
}
