//! Commits as the history log describes them, and the parser of that log.
//!
//! Each log line reads `<hash> - <timestamp> - <subject>`. A line is cut at
//! its first two separators only, so a subject that itself holds the
//! separator is kept whole.

use vstd::prelude::*;
use crate::text::{chars_of, string_of};

verus! {

/// One commit of the replayed history.
pub struct Commit {
    pub repo: String,
    pub hash: String,
    pub datetime: String,
    pub name: String,
}

/// What a [`Commit`] holds, as character sequences.
pub struct CommitView {
    pub repo: Seq<char>,
    pub hash: Seq<char>,
    pub datetime: Seq<char>,
    pub name: Seq<char>,
}

impl View for Commit {
    type V = CommitView;

    open spec fn view(&self) -> CommitView {
        CommitView { repo: self.repo@, hash: self.hash@, datetime: self.datetime@, name: self.name@ }
    }
}

impl Commit {
    /// A copy of this commit.
    pub fn duplicate(&self) -> (r: Commit)
        ensures
            r@ == self@,
    {
        Commit {
            repo: self.repo.clone(),
            hash: self.hash.clone(),
            datetime: self.datetime.clone(),
            name: self.name.clone(),
        }
    }
}

/// A log line that is not `<hash> - <timestamp> - <subject>`, by its index
/// among the lines of the log.
pub struct ParseError {
    pub line: usize,
}

/// The separator ` - ` starts at index `i` of `s`.
pub open spec fn sep_at(s: Seq<char>, i: int) -> bool {
    0 <= i && i + 3 <= s.len() && s[i] == ' ' && s[i + 1] == '-' && s[i + 2] == ' '
}

/// The first index at or after `i` where the separator starts, or -1.
pub open spec fn first_sep_from(s: Seq<char>, i: int) -> int
    decreases s.len() - i,
{
    if i < 0 || i + 3 > s.len() {
        -1
    } else if sep_at(s, i) {
        i
    } else {
        first_sep_from(s, i + 1)
    }
}

/// The three fields of a log line, or `None` where it has fewer than three.
pub open spec fn line_fields(l: Seq<char>) -> Option<(Seq<char>, Seq<char>, Seq<char>)> {
    let a = first_sep_from(l, 0);
    if a < 0 {
        None
    } else {
        let b = first_sep_from(l, a + 3);
        if b < 0 {
            None
        } else {
            Some((l.subrange(0, a), l.subrange(a + 3, b), l.subrange(b + 3, l.len() as int)))
        }
    }
}

/// The commit that a log line describes, or `None` where the line is malformed:
/// fewer than three fields, or an empty hash.
pub open spec fn line_commit(repo: Seq<char>, l: Seq<char>) -> Option<CommitView> {
    match line_fields(l) {
        Some((h, d, n)) => if h.len() == 0 {
            None
        } else {
            Some(CommitView { repo, hash: h, datetime: d, name: n })
        },
        None => None,
    }
}

/// `t` cut at every newline: always at least one piece.
pub open spec fn newline_pieces(t: Seq<char>) -> Seq<Seq<char>>
    decreases t.len(),
{
    if t.len() == 0 {
        seq![Seq::<char>::empty()]
    } else {
        let p = newline_pieces(t.drop_last());
        if t.last() == '\n' {
            p.push(Seq::<char>::empty())
        } else {
            p.update(p.len() - 1, p.last().push(t.last()))
        }
    }
}

/// A line without the carriage return that may end it.
pub open spec fn strip_cr(l: Seq<char>) -> Seq<char> {
    if l.len() > 0 && l.last() == '\r' {
        l.drop_last()
    } else {
        l
    }
}

/// The lines of `t`: a final newline ends the last line rather than opening
/// an empty one, and a carriage return before a newline is dropped.
pub open spec fn log_lines(t: Seq<char>) -> Seq<Seq<char>> {
    let p = newline_pieces(t);
    let q = if p.last().len() == 0 { p.drop_last() } else { p };
    q.map_values(|l: Seq<char>| strip_cr(l))
}

proof fn lemma_pieces_nonempty(t: Seq<char>)
    ensures
        newline_pieces(t).len() >= 1,
    decreases t.len(),
{
    if t.len() > 0 {
        lemma_pieces_nonempty(t.drop_last());
    }
}

proof fn lemma_first_sep_bounds(s: Seq<char>, i: int)
    ensures
        first_sep_from(s, i) == -1 || (i <= first_sep_from(s, i) && sep_at(s, first_sep_from(s, i))),
    decreases s.len() - i,
{
    if !(i < 0 || i + 3 > s.len()) && !sep_at(s, i) {
        lemma_first_sep_bounds(s, i + 1);
    }
}

/// The first index at or after `from` where the separator starts.
fn find_sep(s: &[char], from: usize) -> (r: Option<usize>)
    ensures
        match r {
            Some(i) => i as int == first_sep_from(s@, from as int) && i + 3 <= s@.len(),
            None => first_sep_from(s@, from as int) == -1,
        },
{
    let mut i: usize = from;
    while i < s.len() && s.len() - i >= 3
        invariant
            from <= i,
            first_sep_from(s@, from as int) == first_sep_from(s@, i as int),
        decreases s@.len() - i,
    {
        if s[i] == ' ' && s[i + 1] == '-' && s[i + 2] == ' ' {
            return Some(i);
        }
        i = i + 1;
    }
    None
}

/// Parses one log line of the repository at `repo`, given as characters.
fn parse_line_chars(repo: &str, l: &[char]) -> (r: Option<Commit>)
    ensures
        match r {
            Some(c) => line_commit(repo@, l@) == Some(c@),
            None => line_commit(repo@, l@) is None,
        },
{
    proof {
        lemma_first_sep_bounds(l@, 0);
    }
    let fa = find_sep(l, 0);
    let a = match fa {
        Some(a) => a,
        None => return None,
    };
    let n = l.len();
    proof {
        lemma_first_sep_bounds(l@, a + 3);
    }
    let b = match find_sep(l, a + 3) {
        Some(b) => b,
        None => return None,
    };
    if a == 0 {
        return None;
    }
    Some(Commit {
        repo: repo.to_owned(),
        hash: string_of(l, 0, a),
        datetime: string_of(l, a + 3, b),
        name: string_of(l, b + 3, n),
    })
}

/// Parses one log line of the repository at `repo`.
pub fn parse_log_line(repo: &str, line: &str) -> (r: Option<Commit>)
    ensures
        match r {
            Some(c) => line_commit(repo@, line@) == Some(c@),
            None => line_commit(repo@, line@) is None,
        },
{
    let v = chars_of(line);
    parse_line_chars(repo, v.as_slice())
}

} // verus!

verus! {

proof fn lemma_pieces_prefix(t: Seq<char>, j: int)
    requires
        0 <= j <= t.len(),
    ensures
        newline_pieces(t.take(j)).len() <= newline_pieces(t).len(),
        forall|k: int|
            0 <= k < newline_pieces(t.take(j)).len() - 1 ==> #[trigger] newline_pieces(t)[k]
                == newline_pieces(t.take(j))[k],
    decreases t.len(),
{
    if j < t.len() {
        let u = t.drop_last();
        assert(t.take(j) == u.take(j));
        lemma_pieces_prefix(u, j);
        lemma_pieces_nonempty(u);
    } else {
        assert(t.take(j) == t);
    }
}

/// Drops a carriage return that ends `cur`.
fn strip_cr_in_place(cur: &mut Vec<char>)
    ensures
        final(cur)@ == strip_cr(old(cur)@),
{
    let n = cur.len();
    if n > 0 && cur[n - 1] == '\r' {
        cur.pop();
    }
}

/// Parses the history log of the repository at `repo`: one commit per line,
/// in the order of the lines. The first malformed line makes the whole log
/// an error, and no commit is returned.
pub fn parse_log(repo: &str, log: &str) -> (r: Result<Vec<Commit>, ParseError>)
    ensures
        match r {
            Ok(cs) => {
                &&& cs@.len() == log_lines(log@).len()
                &&& forall|k: int|
                    0 <= k < cs@.len() ==> line_commit(repo@, #[trigger] log_lines(log@)[k]) == Some(
                        cs@[k]@,
                    )
            },
            Err(e) => {
                &&& e.line < log_lines(log@).len()
                &&& line_commit(repo@, log_lines(log@)[e.line as int]) is None
                &&& forall|k: int|
                    0 <= k < e.line ==> line_commit(repo@, #[trigger] log_lines(log@)[k]) is Some
            },
        },
{
    let t = chars_of(log);
    let mut commits: Vec<Commit> = Vec::new();
    let mut cur: Vec<char> = Vec::new();
    let ghost mut done: Seq<Seq<char>> = Seq::empty();
    let mut i: usize = 0;
    while i < t.len()
        invariant
            0 <= i <= t@.len(),
            t@ == log@,
            newline_pieces(t@.take(i as int)) == done.push(cur@),
            commits@.len() == done.len(),
            forall|k: int|
                0 <= k < done.len() ==> line_commit(repo@, strip_cr(#[trigger] done[k])) == Some(
                    commits@[k]@,
                ),
        decreases t@.len() - i,
    {
        let c = t[i];
        proof {
            assert(t@.take(i + 1).drop_last() == t@.take(i as int));
            assert(t@.take(i + 1).last() == c);
        }
        if c == '\n' {
            let ghost raw = cur@;
            proof {
                lemma_pieces_prefix(t@, i + 1);
                assert(newline_pieces(t@.take(i + 1)) == done.push(raw).push(Seq::<char>::empty()));
                assert(newline_pieces(t@)[done.len() as int] == raw);
                lemma_pieces_nonempty(t@);
                assert forall|k: int| 0 <= k < done.len() implies newline_pieces(t@)[k] == done[k] by {
                    assert(newline_pieces(t@.take(i + 1))[k] == done[k]);
                }
            }
            strip_cr_in_place(&mut cur);
            match parse_line_chars(repo, cur.as_slice()) {
                Some(cm) => {
                    commits.push(cm);
                },
                None => {
                    return Err(ParseError { line: commits.len() });
                },
            }
            proof {
                done = done.push(raw);
            }
            cur = Vec::new();
        } else {
            cur.push(c);
        }
        i = i + 1;
    }
    proof {
        assert(t@.take(t@.len() as int) == t@);
    }
    if cur.len() > 0 {
        let ghost raw = cur@;
        strip_cr_in_place(&mut cur);
        match parse_line_chars(repo, cur.as_slice()) {
            Some(cm) => {
                commits.push(cm);
            },
            None => {
                return Err(ParseError { line: commits.len() });
            },
        }
        proof {
            done = done.push(raw);
        }
    }
    Ok(commits)
}

} // verus!

verus! {

/// The line has three fields, none of them empty.
pub open spec fn fields_filled(l: Seq<char>) -> bool {
    line_fields(l) matches Some((h, d, n)) && h.len() > 0 && d.len() > 0 && n.len() > 0
}

/// The line describes a commit of `repo` whose hash, timestamp and subject
/// are all non-empty.
pub open spec fn commit_filled(repo: Seq<char>, l: Seq<char>) -> bool {
    line_commit(repo, l) matches Some(c) && c.repo == repo && c.hash.len() > 0 && c.datetime.len()
        > 0 && c.name.len() > 0
}

/// A log of well-formed lines, each with a non-empty hash, timestamp and
/// subject, describes exactly one commit per line, and each commit keeps
/// those three fields, so none of them is empty.
pub proof fn lemma_history_entries(repo: Seq<char>, t: Seq<char>)
    requires
        forall|k: int| 0 <= k < log_lines(t).len() ==> #[trigger] fields_filled(log_lines(t)[k]),
    ensures
        forall|k: int|
            0 <= k < log_lines(t).len() ==> #[trigger] commit_filled(repo, log_lines(t)[k]),
{
    assert forall|k: int| 0 <= k < log_lines(t).len() implies #[trigger] commit_filled(
        repo,
        log_lines(t)[k],
    ) by {
        assert(fields_filled(log_lines(t)[k]));
    }
}

} // verus!
