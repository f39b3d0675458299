use git_iter::{
    csv_header_row, escape_text, render_many, render_one, Commit, IterationOutput, OutMode,
};

fn commit(hash: &str, datetime: &str, name: &str) -> Commit {
    Commit {
        repo: "repo".to_string(),
        hash: hash.to_string(),
        datetime: datetime.to_string(),
        name: name.to_string(),
    }
}

fn output(hash: &str, stdout: &str, stderr: &str, status: i32) -> IterationOutput {
    IterationOutput::new(commit(hash, "2024-01-01", "msg"), stdout.as_bytes(), stderr.as_bytes(), status)
}

#[test]
fn out_mode_from_switches() {
    assert!(matches!(OutMode::new(false, false), OutMode::Text));
    assert!(matches!(OutMode::new(true, false), OutMode::Json));
    assert!(matches!(OutMode::new(false, true), OutMode::Csv));
    assert!(matches!(OutMode::new(true, true), OutMode::Json));
}

#[test]
fn invalid_utf8_is_decoded_lossily() {
    let o = IterationOutput::new(commit("h", "d", "n"), &[b'o', b'k', 0xff], b"", 0);
    assert_eq!(o.stdout, "ok\u{fffd}");
    assert_eq!(o.stderr, "");
}

#[test]
fn newlines_are_escaped() {
    assert_eq!(escape_text("a\nb\n"), "a\\nb\\n");
    assert_eq!(escape_text("plain"), "plain");
    assert_eq!(escape_text(""), "");
}

#[test]
fn text_block_of_successful_command() {
    let o = output("abc", "hi\n", "", 0);
    assert_eq!(
        o.render_text(),
        "Commit [\x1b[32mabc\x1b[0m] (\x1b[35m2024-01-01\x1b[0m): \x1b[34mmsg\x1b[0m \x1b[31m\x1b[0m\nhi\n\n"
    );
}

#[test]
fn text_block_of_failed_command_notes_status_and_stderr() {
    let o = output("abc", "", "boom", -2);
    assert_eq!(
        o.render_text(),
        "Commit [\x1b[32mabc\x1b[0m] (\x1b[35m2024-01-01\x1b[0m): \x1b[34mmsg\x1b[0m \x1b[31m(Command failed with -2)\x1b[0m\n\nboom\n"
    );
}

#[test]
fn json_object_has_canonical_members() {
    let o = output("abc", "hi\n", "e\"r", 3);
    assert_eq!(
        o.as_json("/abs/repo"),
        "{\"repo\":\"/abs/repo\",\"hash\":\"abc\",\"datetime\":\"2024-01-01\",\"name\":\"msg\",\"status\":3,\"stdout\":\"hi\\n\",\"stderr\":\"e\\\"r\"}"
    );
}

#[test]
fn csv_fields_escape_newlines() {
    let o = output("abc", "a\nb\n", "x\n", 0);
    assert_eq!(
        o.as_csv("/abs/repo"),
        vec!["/abs/repo", "abc", "2024-01-01", "msg", "0", "a\\nb\\n", "x\\n"]
    );
}

#[test]
fn csv_header_is_canonical() {
    assert_eq!(csv_header_row(), "repo,hash,datetime,name,status,stdout,stderr\n");
}

#[test]
fn json_and_csv_carry_the_same_record() {
    let o = output("abc", "line one\nline two\n", "warn\n", 1);
    let json: serde_json::Value = serde_json::from_str(&o.as_json("/r")).unwrap();
    assert_eq!(json["stdout"].as_str(), Some("line one\nline two\n"));
    assert_eq!(json["stderr"].as_str(), Some("warn\n"));
    assert_eq!(json["status"].as_i64(), Some(1));
    let row = render_one(&OutMode::Csv, &o, "/r");
    assert_eq!(row.lines().count(), 1);
    let mut rdr = csv::ReaderBuilder::new().has_headers(false).from_reader(row.as_bytes());
    let rec = rdr.records().next().unwrap().unwrap();
    assert_eq!(&rec[0], "/r");
    assert_eq!(&rec[1], "abc");
    assert_eq!(&rec[4], "1");
    assert_eq!(rec[5].replace("\\n", "\n"), json["stdout"].as_str().unwrap());
    assert_eq!(rec[6].replace("\\n", "\n"), json["stderr"].as_str().unwrap());
    assert_eq!(&rec[3], json["name"].as_str().unwrap());
}

#[test]
fn csv_field_with_comma_is_quoted() {
    let o = output("abc", "a,b", "", 0);
    assert_eq!(render_one(&OutMode::Csv, &o, "/r"), "/r,abc,2024-01-01,msg,0,\"a,b\",\n");
}

#[test]
fn streaming_json_is_one_object_per_line() {
    let o = output("abc", "", "", 0);
    let s = render_one(&OutMode::Json, &o, "/r");
    assert!(s.ends_with("}\n"));
    assert_eq!(s.lines().count(), 1);
}

#[test]
fn batch_json_is_one_array_in_order() {
    let rs = vec![output("c3", "", "", 0), output("c2", "", "", 0)];
    let s = render_many(&OutMode::Json, &rs, "/r");
    let v: serde_json::Value = serde_json::from_str(&s).unwrap();
    let a = v.as_array().unwrap();
    assert_eq!(a.len(), 2);
    assert_eq!(a[0]["hash"].as_str(), Some("c3"));
    assert_eq!(a[1]["hash"].as_str(), Some("c2"));
    assert_eq!(render_many(&OutMode::Json, &[], "/r"), "[]\n");
}

#[test]
fn batch_csv_has_header_then_rows() {
    let rs = vec![output("c3", "x", "", 0), output("c2", "y", "", 0)];
    assert_eq!(
        render_many(&OutMode::Csv, &rs, "/r"),
        "repo,hash,datetime,name,status,stdout,stderr\n/r,c3,2024-01-01,msg,0,x,\n/r,c2,2024-01-01,msg,0,y,\n"
    );
}

#[test]
fn batch_text_is_blocks_in_order() {
    let rs = vec![output("c3", "x", "", 0), output("c2", "y", "", 0)];
    let s = render_many(&OutMode::Text, &rs, "/r");
    assert_eq!(s, format!("{}{}", rs[0].render_text(), rs[1].render_text()));
}

#[test]
fn json_escapes_control_characters() {
    let o = output("abc", "a\tb\u{1}", "", 0);
    let s = o.as_json("/r");
    assert!(s.contains("\"stdout\":\"a\\tb\\u0001\""));
}

#[test]
fn csv_field_with_quotes_is_quoted_and_doubled() {
    let o = output("abc", "say \"hi\"", "", 0);
    assert_eq!(render_one(&OutMode::Csv, &o, "/r"), "/r,abc,2024-01-01,msg,0,\"say \"\"hi\"\"\",\n");
}

#[test]
fn valid_utf8_output_is_kept_as_is() {
    let o = IterationOutput::new(commit("h", "d", "n"), "hi\n".as_bytes(), "é\n".as_bytes(), 0);
    assert_eq!(o.stdout, "hi\n");
    assert_eq!(o.stderr, "é\n");
}
