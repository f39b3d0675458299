//! Renderings of an [`IterationOutput`]: a coloured text block, a JSON
//! object and a CSV row, each for one result or for a whole ordered batch.
//!
//! The CSV columns and the JSON members come in one canonical order:
//! repo, hash, datetime, name, status, stdout, stderr.

use vstd::prelude::*;
use crate::output::{IterationOutput, OutputView, decimal_of, decimal_text};
use crate::text::{chars_of, push_char, push_str};

verus! {

/// The terminal colours used by the text rendering.
pub enum Hue {
    Green,
    Purple,
    Blue,
    Red,
}

/// The SGR foreground code of a colour.
pub open spec fn hue_code(h: Hue) -> Seq<char> {
    match h {
        Hue::Green => seq!['3', '2'],
        Hue::Purple => seq!['3', '5'],
        Hue::Blue => seq!['3', '4'],
        Hue::Red => seq!['3', '1'],
    }
}

/// `s` between the escape sequence that selects colour `h` and the one that
/// resets all styles.
pub open spec fn painted(h: Hue, s: Seq<char>) -> Seq<char> {
    seq!['\x1b', '['] + hue_code(h) + seq!['m'] + s + seq!['\x1b', '[', '0', 'm']
}

/// Relies on ansi_term's `Colour::paint` and its `Display`: the foreground
/// style's prefix, the text, then the reset suffix.
#[verifier::external_body]
fn paint(h: Hue, s: &str) -> (r: String)
    ensures
        r@ == painted(h, s@),
{
    let c = match h {
        Hue::Green => ansi_term::Colour::Green,
        Hue::Purple => ansi_term::Colour::Purple,
        Hue::Blue => ansi_term::Colour::Blue,
        Hue::Red => ansi_term::Colour::Red,
    };
    c.paint(s).to_string()
}

/// The note that marks a failed command, or nothing for status zero.
pub open spec fn failure_note(status: i32) -> Seq<char> {
    if status == 0 {
        Seq::empty()
    } else {
        "(Command failed with "@ + decimal_of(status as int) + ")"@
    }
}

/// The text block of one result: a header line with hash, timestamp, subject
/// and the failure note, then standard output, then standard error if any.
pub open spec fn text_block(o: OutputView) -> Seq<char> {
    "Commit ["@ + painted(Hue::Green, o.commit.hash) + "] ("@ + painted(
        Hue::Purple,
        o.commit.datetime,
    ) + "): "@ + painted(Hue::Blue, o.commit.name) + " "@ + painted(
        Hue::Red,
        failure_note(o.status),
    ) + "\n"@ + o.stdout + "\n"@ + (if o.stderr.len() > 0 {
        o.stderr + "\n"@
    } else {
        Seq::empty()
    })
}

/// A newline as the two characters backslash and `n`; any other character as itself.
pub open spec fn escaped_char(c: char) -> Seq<char> {
    if c == '\n' {
        seq!['\\', 'n']
    } else {
        seq![c]
    }
}

/// `s` with every newline written as backslash and `n`.
pub open spec fn escape_newlines(s: Seq<char>) -> Seq<char>
    decreases s.len(),
{
    if s.len() == 0 {
        Seq::empty()
    } else {
        escape_newlines(s.drop_last()) + escaped_char(s.last())
    }
}

/// `s` with every backslash followed by `n` read back as a newline.
pub open spec fn unescape_newlines(s: Seq<char>) -> Seq<char>
    decreases s.len(),
{
    if s.len() == 0 {
        Seq::empty()
    } else if s.len() >= 2 && s[0] == '\\' && s[1] == 'n' {
        seq!['\n'] + unescape_newlines(s.subrange(2, s.len() as int))
    } else {
        seq![s[0]] + unescape_newlines(s.drop_first())
    }
}

/// The logical record of a result, in canonical column order; the status is
/// in decimal and `repo` is the repository's absolute path.
pub open spec fn record_of(o: OutputView, repo: Seq<char>) -> Seq<Seq<char>> {
    seq![
        repo,
        o.commit.hash,
        o.commit.datetime,
        o.commit.name,
        decimal_of(o.status as int),
        o.stdout,
        o.stderr,
    ]
}

/// The CSV fields of a result: its record, with the newlines of the two
/// captured texts escaped so that the row stays on one line.
pub open spec fn csv_fields(o: OutputView, repo: Seq<char>) -> Seq<Seq<char>> {
    seq![
        repo,
        o.commit.hash,
        o.commit.datetime,
        o.commit.name,
        decimal_of(o.status as int),
        escape_newlines(o.stdout),
        escape_newlines(o.stderr),
    ]
}

/// The CSV header row's fields.
pub open spec fn csv_header() -> Seq<Seq<char>> {
    seq!["repo"@, "hash"@, "datetime"@, "name"@, "status"@, "stdout"@, "stderr"@]
}

} // verus!

verus! {

proof fn lemma_escape_push(s: Seq<char>, c: char)
    ensures
        escape_newlines(s.push(c)) == escape_newlines(s) + escaped_char(c),
{
    assert(s.push(c).drop_last() == s);
}

/// `s` with every newline written as backslash and `n`.
pub fn escape_text(s: &str) -> (r: String)
    ensures
        r@ == escape_newlines(s@),
{
    let v = chars_of(s);
    let mut out = String::new();
    let mut i: usize = 0;
    while i < v.len()
        invariant
            0 <= i <= v@.len(),
            out@ == escape_newlines(v@.take(i as int)),
        decreases v@.len() - i,
    {
        let c = v[i];
        proof {
            assert(v@.take(i + 1) == v@.take(i as int).push(c));
            lemma_escape_push(v@.take(i as int), c);
        }
        if c == '\n' {
            push_char(&mut out, '\\');
            push_char(&mut out, 'n');
            assert(out@ == escape_newlines(v@.take(i as int)) + escaped_char(c));
        } else {
            push_char(&mut out, c);
            assert(out@ == escape_newlines(v@.take(i as int)) + escaped_char(c));
        }
        i = i + 1;
    }
    assert(v@.take(v@.len() as int) == v@);
    out
}

/// The hexadecimal digit `d` (below sixteen), in lower case.
pub open spec fn hex_char(d: int) -> char {
    seq!['0', '1', '2', '3', '4', '5', '6', '7', '8', '9', 'a', 'b', 'c', 'd', 'e', 'f'][d]
}

/// How a JSON string literal writes the character `c`.
pub open spec fn json_escaped_char(c: char) -> Seq<char> {
    if c == '"' {
        seq!['\\', '"']
    } else if c == '\\' {
        seq!['\\', '\\']
    } else if c == '\n' {
        seq!['\\', 'n']
    } else if c == '\r' {
        seq!['\\', 'r']
    } else if c == '\t' {
        seq!['\\', 't']
    } else if c == '\x08' {
        seq!['\\', 'b']
    } else if c == '\x0c' {
        seq!['\\', 'f']
    } else if (c as u32) < 0x20 {
        seq!['\\', 'u', '0', '0', hex_char((c as u32) as int / 16), hex_char((c as u32) as int % 16)]
    } else {
        seq![c]
    }
}

/// The characters of `s`, each as a JSON string literal writes it.
pub open spec fn json_escaped(s: Seq<char>) -> Seq<char>
    decreases s.len(),
{
    if s.len() == 0 {
        Seq::empty()
    } else {
        json_escaped(s.drop_last()) + json_escaped_char(s.last())
    }
}

/// `s` as a JSON string literal.
pub open spec fn json_string_literal(s: Seq<char>) -> Seq<char> {
    seq!['"'] + json_escaped(s) + seq!['"']
}

/// Relies on serde_json's compact writer for a string value: quotes around
/// the text, with `"`, `\` and the control characters escaped and nothing else.
#[verifier::external_body]
fn json_quote(s: &str) -> (r: String)
    ensures
        r@ == json_string_literal(s@),
{
    serde_json::Value::String(s.to_owned()).to_string()
}

/// A record as a compact JSON object: the status as a number, every other
/// member as a string.
pub open spec fn json_object_text(rec: Seq<Seq<char>>) -> Seq<char> {
    "{\"repo\":"@ + json_string_literal(rec[0]) + ",\"hash\":"@ + json_string_literal(rec[1])
        + ",\"datetime\":"@ + json_string_literal(rec[2]) + ",\"name\":"@ + json_string_literal(
        rec[3],
    ) + ",\"status\":"@ + rec[4] + ",\"stdout\":"@ + json_string_literal(rec[5])
        + ",\"stderr\":"@ + json_string_literal(rec[6]) + "}"@
}

/// A character that forces the CSV field holding it into quotes.
pub open spec fn csv_special(c: char) -> bool {
    c == ',' || c == '"' || c == '\r' || c == '\n'
}

/// The field must be quoted.
pub open spec fn csv_needs_quotes(f: Seq<char>) -> bool {
    exists|i: int| 0 <= i < f.len() && #[trigger] csv_special(f[i])
}

/// `f` with every quote doubled.
pub open spec fn csv_doubled(f: Seq<char>) -> Seq<char>
    decreases f.len(),
{
    if f.len() == 0 {
        Seq::empty()
    } else {
        csv_doubled(f.drop_last()) + if f.last() == '"' {
            seq!['"', '"']
        } else {
            seq![f.last()]
        }
    }
}

/// One field as a CSV row writes it: as it is, or quoted where it must be.
pub open spec fn csv_field(f: Seq<char>) -> Seq<char> {
    if csv_needs_quotes(f) {
        seq!['"'] + csv_doubled(f) + seq!['"']
    } else {
        f
    }
}

/// The fields of a row, each written, separated by commas.
pub open spec fn csv_joined(fields: Seq<Seq<char>>) -> Seq<char>
    decreases fields.len(),
{
    if fields.len() == 0 {
        Seq::empty()
    } else if fields.len() == 1 {
        csv_field(fields[0])
    } else {
        csv_joined(fields.drop_last()) + seq![','] + csv_field(fields.last())
    }
}

/// A CSV row with its line terminator; a row that would otherwise be
/// empty is written as an empty quoted field, so that it still reads back
/// as a record.
pub open spec fn csv_row_text(fields: Seq<Seq<char>>) -> Seq<char> {
    if csv_joined(fields).len() == 0 {
        seq!['"', '"', '\n']
    } else {
        csv_joined(fields) + seq!['\n']
    }
}

/// The views of a row of strings.
pub open spec fn fields_view(v: Seq<String>) -> Seq<Seq<char>> {
    v.map_values(|s: String| s@)
}

/// Relies on csv's `Writer::write_record`, writing into memory with the
/// default builder: delimiter `,`, quote `"` doubled inside a quoted field,
/// quotes only where a field holds `,`, `"`, `\r` or `\n`, terminator `\n`,
/// and `""` for a record that wrote no bytes. Writing into a `Vec` cannot
/// fail, and the bytes written of UTF-8 fields are UTF-8.
#[verifier::external_body]
fn csv_row(fields: &Vec<String>) -> (r: String)
    ensures
        r@ == csv_row_text(fields_view(fields@)),
{
    let mut w = csv::Writer::from_writer(Vec::new());
    w.write_record(fields).unwrap();
    String::from_utf8(w.into_inner().unwrap()).unwrap()
}

} // verus!

verus! {

impl IterationOutput {
    /// The text block of this result, coloured for a terminal.
    pub fn render_text(&self) -> (r: String)
        ensures
            r@ == text_block(self@),
    {
        let mut s = "Commit [".to_owned();
        push_str(&mut s, paint(Hue::Green, self.commit.hash.as_str()).as_str());
        push_str(&mut s, "] (");
        push_str(&mut s, paint(Hue::Purple, self.commit.datetime.as_str()).as_str());
        push_str(&mut s, "): ");
        push_str(&mut s, paint(Hue::Blue, self.commit.name.as_str()).as_str());
        push_str(&mut s, " ");
        let note = if self.status == 0 {
            String::new()
        } else {
            let mut n = "(Command failed with ".to_owned();
            push_str(&mut n, decimal_text(self.status).as_str());
            push_str(&mut n, ")");
            n
        };
        push_str(&mut s, paint(Hue::Red, note.as_str()).as_str());
        push_str(&mut s, "\n");
        push_str(&mut s, self.stdout.as_str());
        push_str(&mut s, "\n");
        let ghost head = s@;
        if !self.stderr.as_str().is_empty() {
            push_str(&mut s, self.stderr.as_str());
            push_str(&mut s, "\n");
            assert(s@ == head + (self.stderr@ + "\n"@));
        } else {
            assert(s@ == head + Seq::<char>::empty());
        }
        s
    }

    /// This result as a compact JSON object; `repo` is the repository's
    /// absolute path.
    pub fn as_json(&self, repo: &str) -> (r: String)
        ensures
            r@ == json_object_text(record_of(self@, repo@)),
    {
        let mut s = "{\"repo\":".to_owned();
        push_str(&mut s, json_quote(repo).as_str());
        push_str(&mut s, ",\"hash\":");
        push_str(&mut s, json_quote(self.commit.hash.as_str()).as_str());
        push_str(&mut s, ",\"datetime\":");
        push_str(&mut s, json_quote(self.commit.datetime.as_str()).as_str());
        push_str(&mut s, ",\"name\":");
        push_str(&mut s, json_quote(self.commit.name.as_str()).as_str());
        push_str(&mut s, ",\"status\":");
        push_str(&mut s, decimal_text(self.status).as_str());
        push_str(&mut s, ",\"stdout\":");
        push_str(&mut s, json_quote(self.stdout.as_str()).as_str());
        push_str(&mut s, ",\"stderr\":");
        push_str(&mut s, json_quote(self.stderr.as_str()).as_str());
        push_str(&mut s, "}");
        s
    }

    /// This result's CSV fields; `repo` is the repository's absolute path.
    pub fn as_csv(&self, repo: &str) -> (r: Vec<String>)
        ensures
            fields_view(r@) == csv_fields(self@, repo@),
    {
        let mut v: Vec<String> = Vec::new();
        v.push(repo.to_owned());
        v.push(self.commit.hash.clone());
        v.push(self.commit.datetime.clone());
        v.push(self.commit.name.clone());
        v.push(decimal_text(self.status));
        v.push(escape_text(self.stdout.as_str()));
        v.push(escape_text(self.stderr.as_str()));
        assert(fields_view(v@) =~= csv_fields(self@, repo@));
        v
    }
}

} // verus!

verus! {

/// The output format of a run: exactly one of three.
#[derive(PartialEq, Eq, Structural)]
pub enum OutMode {
    Text,
    Json,
    Csv,
}

impl OutMode {
    /// The format that the two format switches select: JSON wins over CSV,
    /// and neither means text.
    pub fn new(json: bool, csv: bool) -> (r: OutMode)
        ensures
            r == (if json {
                OutMode::Json
            } else if csv {
                OutMode::Csv
            } else {
                OutMode::Text
            }),
    {
        if json {
            OutMode::Json
        } else if csv {
            OutMode::Csv
        } else {
            OutMode::Text
        }
    }
}

/// One result as a unit of a batch, without separators.
pub open spec fn row_of(mode: OutMode, o: OutputView, repo: Seq<char>) -> Seq<char> {
    match mode {
        OutMode::Text => text_block(o),
        OutMode::Json => json_object_text(record_of(o, repo)),
        OutMode::Csv => csv_row_text(csv_fields(o, repo)),
    }
}

/// One result as streaming mode emits it: a JSON object gets a line of its own.
pub open spec fn rendered_one(mode: OutMode, o: OutputView, repo: Seq<char>) -> Seq<char> {
    match mode {
        OutMode::Json => row_of(mode, o, repo) + "\n"@,
        _ => row_of(mode, o, repo),
    }
}

/// The units of `os` in order; JSON objects are separated by commas.
pub open spec fn rows_joined(mode: OutMode, os: Seq<OutputView>, repo: Seq<char>) -> Seq<char>
    decreases os.len(),
{
    if os.len() == 0 {
        Seq::empty()
    } else {
        let sep = if mode == OutMode::Json && os.len() > 1 {
            ","@
        } else {
            Seq::empty()
        };
        rows_joined(mode, os.drop_last(), repo) + sep + row_of(mode, os.last(), repo)
    }
}

/// A whole batch in one piece: text blocks one after another, a JSON array
/// on one line, or the CSV header row followed by one row per result.
pub open spec fn rendered_many(mode: OutMode, os: Seq<OutputView>, repo: Seq<char>) -> Seq<char> {
    match mode {
        OutMode::Text => rows_joined(mode, os, repo),
        OutMode::Json => "["@ + rows_joined(mode, os, repo) + "]\n"@,
        OutMode::Csv => csv_row_text(csv_header()) + rows_joined(mode, os, repo),
    }
}

/// The views of a sequence of results.
pub open spec fn outputs_view(rs: Seq<IterationOutput>) -> Seq<OutputView> {
    rs.map_values(|o: IterationOutput| o@)
}

proof fn lemma_plain_field(f: Seq<char>)
    requires
        forall|i: int| 0 <= i < f.len() ==> 'a' <= #[trigger] f[i] <= 'z',
    ensures
        csv_field(f) == f,
{
    assert(!csv_needs_quotes(f)) by {
        assert forall|i: int| 0 <= i < f.len() implies !(#[trigger] csv_special(f[i])) by {
            assert('a' <= f[i] <= 'z');
        }
    }
}

proof fn lemma_joined_step(h: Seq<Seq<char>>, k: int)
    requires
        1 <= k < h.len(),
    ensures
        csv_joined(h.take(k + 1)) == csv_joined(h.take(k)) + seq![','] + csv_field(h[k]),
{
    assert(h.take(k + 1).drop_last() =~= h.take(k));
    assert(h.take(k + 1).last() == h[k]);
}

proof fn lemma_csv_header_text()
    ensures
        csv_row_text(csv_header()) == "repo,hash,datetime,name,status,stdout,stderr\n"@,
{
    reveal_strlit("repo");
    reveal_strlit("hash");
    reveal_strlit("datetime");
    reveal_strlit("name");
    reveal_strlit("status");
    reveal_strlit("stdout");
    reveal_strlit("stderr");
    reveal_strlit("repo,hash,datetime,name,status,stdout,stderr\n");
    let h = csv_header();
    assert forall|k: int| 0 <= k < h.len() implies csv_field(#[trigger] h[k]) == h[k] by {
        lemma_plain_field(h[k]);
    }
    assert(csv_joined(h.take(1)) == h[0]);
    assert(h.take(7) =~= h);
    let c = seq![','];
    assert(csv_joined(h) == h[0] + c + h[1] + c + h[2] + c + h[3] + c + h[4] + c + h[5] + c
        + h[6]) by {
        lemma_joined_step(h, 1);
        lemma_joined_step(h, 2);
        lemma_joined_step(h, 3);
        lemma_joined_step(h, 4);
        lemma_joined_step(h, 5);
        lemma_joined_step(h, 6);
    }
    assert(csv_joined(h).len() > 0);
    assert(csv_row_text(h) =~= "repo,hash,datetime,name,status,stdout,stderr\n"@);
}

/// The CSV header row, with its line terminator.
pub fn csv_header_row() -> (r: String)
    ensures
        r@ == csv_row_text(csv_header()),
        r@ == "repo,hash,datetime,name,status,stdout,stderr\n"@,
{
    proof {
        lemma_csv_header_text();
    }
    let mut v: Vec<String> = Vec::new();
    v.push("repo".to_owned());
    v.push("hash".to_owned());
    v.push("datetime".to_owned());
    v.push("name".to_owned());
    v.push("status".to_owned());
    v.push("stdout".to_owned());
    v.push("stderr".to_owned());
    assert(fields_view(v@) =~= csv_header());
    csv_row(&v)
}

fn row(mode: &OutMode, o: &IterationOutput, repo: &str) -> (r: String)
    ensures
        r@ == row_of(*mode, o@, repo@),
{
    match mode {
        OutMode::Text => o.render_text(),
        OutMode::Json => o.as_json(repo),
        OutMode::Csv => csv_row(&o.as_csv(repo)),
    }
}

/// One result as streaming mode emits it; `repo` is the repository's
/// absolute path.
pub fn render_one(mode: &OutMode, o: &IterationOutput, repo: &str) -> (r: String)
    ensures
        r@ == rendered_one(*mode, o@, repo@),
{
    let mut s = row(mode, o, repo);
    if *mode == OutMode::Json {
        push_str(&mut s, "\n");
    }
    s
}

/// A whole batch of results in their order, as one piece; `repo` is the
/// repository's absolute path.
pub fn render_many(mode: &OutMode, rs: &[IterationOutput], repo: &str) -> (r: String)
    ensures
        r@ == rendered_many(*mode, outputs_view(rs@), repo@),
{
    let ghost os = outputs_view(rs@);
    let mut body = String::new();
    let mut i: usize = 0;
    while i < rs.len()
        invariant
            0 <= i <= rs@.len(),
            os == outputs_view(rs@),
            body@ == rows_joined(*mode, os.take(i as int), repo@),
        decreases rs@.len() - i,
    {
        proof {
            assert(os.take(i + 1).drop_last() == os.take(i as int));
            assert(os.take(i + 1).last() == rs@[i as int]@);
        }
        if *mode == OutMode::Json && i > 0 {
            push_str(&mut body, ",");
        } else {
            assert(body@ == body@ + Seq::<char>::empty());
        }
        push_str(&mut body, row(mode, &rs[i], repo).as_str());
        i = i + 1;
    }
    assert(os.take(rs@.len() as int) == os);
    match mode {
        OutMode::Text => body,
        OutMode::Json => {
            let mut s = "[".to_owned();
            push_str(&mut s, body.as_str());
            push_str(&mut s, "]\n");
            s
        },
        OutMode::Csv => {
            let mut s = csv_header_row();
            push_str(&mut s, body.as_str());
            s
        },
    }
}

} // verus!

verus! {

/// `s` holds no backslash followed by `n`: the one text that newline
/// escaping could not tell from an escaped newline.
pub open spec fn no_backslash_n(s: Seq<char>) -> bool {
    forall|i: int| 0 <= i < s.len() - 1 ==> !(#[trigger] s[i] == '\\' && s[i + 1] == 'n')
}

/// CSV fields read back: the two captured texts have their newlines restored.
pub open spec fn csv_decoded(f: Seq<Seq<char>>) -> Seq<Seq<char>> {
    f.update(5, unescape_newlines(f[5])).update(6, unescape_newlines(f[6]))
}

proof fn lemma_escape_front(c: char, t: Seq<char>)
    ensures
        escape_newlines(seq![c] + t) == escaped_char(c) + escape_newlines(t),
    decreases t.len(),
{
    if t.len() == 0 {
        assert(seq![c] + t == seq![c]);
        assert(seq![c].drop_last() == Seq::<char>::empty());
        assert(escape_newlines(seq![c]) == escape_newlines(Seq::<char>::empty()) + escaped_char(c));
        assert(Seq::<char>::empty() + escaped_char(c) =~= escaped_char(c));
        assert(escaped_char(c) + Seq::<char>::empty() =~= escaped_char(c));
    } else {
        let u = seq![c] + t;
        assert(u.drop_last() == seq![c] + t.drop_last());
        assert(u.last() == t.last());
        lemma_escape_front(c, t.drop_last());
        assert(escape_newlines(u) == escape_newlines(u.drop_last()) + escaped_char(u.last()));
        assert(escape_newlines(t) == escape_newlines(t.drop_last()) + escaped_char(t.last()));
        assert(escaped_char(c) + escape_newlines(t.drop_last()) + escaped_char(t.last())
            =~= escaped_char(c) + (escape_newlines(t.drop_last()) + escaped_char(t.last())));
    }
}

/// Escaping the newlines of a text and reading them back gives the text
/// again, wherever the text holds no backslash followed by `n`.
pub proof fn lemma_unescape_escape(s: Seq<char>)
    requires
        no_backslash_n(s),
    ensures
        unescape_newlines(escape_newlines(s)) == s,
    decreases s.len(),
{
    if s.len() > 0 {
        let c = s[0];
        let rest = s.drop_first();
        assert(s == seq![c] + rest);
        lemma_escape_front(c, rest);
        assert(no_backslash_n(rest)) by {
            assert forall|i: int| 0 <= i < rest.len() - 1 implies !(#[trigger] rest[i] == '\\'
                && rest[i + 1] == 'n') by {
                assert(rest[i] == s[i + 1] && rest[i + 1] == s[i + 2]);
            }
        }
        lemma_unescape_escape(rest);
        let e = escape_newlines(s);
        let er = escape_newlines(rest);
        if c == '\n' {
            assert(e.subrange(2, e.len() as int) == er);
        } else {
            if c == '\\' && rest.len() > 0 {
                assert(s[0] == '\\' && s[1] == rest[0]);
                assert(rest == seq![rest[0]] + rest.drop_first());
                lemma_escape_front(rest[0], rest.drop_first());
                assert(e[1] == er[0]);
            }
            if c == '\\' && rest.len() == 0 {
                assert(er.len() == 0);
            }
            assert(e.drop_first() == er);
        }
    }
}

/// The CSV and the JSON rendering of a result carry the same record (repo,
/// hash, datetime, name, status, stdout, stderr): the JSON object holds the
/// record's texts unescaped, and the CSV fields, whose captured texts have
/// their newlines written as backslash and `n`, read back to that record.
/// Reading back is exact wherever the captured texts hold no backslash
/// followed by `n` of their own.
pub proof fn lemma_formats_agree(o: OutputView, repo: Seq<char>)
    requires
        no_backslash_n(o.stdout),
        no_backslash_n(o.stderr),
    ensures
        csv_decoded(csv_fields(o, repo)) == record_of(o, repo),
        row_of(OutMode::Json, o, repo) == json_object_text(record_of(o, repo)),
{
    lemma_unescape_escape(o.stdout);
    lemma_unescape_escape(o.stderr);
    assert(csv_decoded(csv_fields(o, repo)) =~= record_of(o, repo));
}

} // verus!
