//! The result of running the command at one commit, and its renderings as a
//! text block, a JSON object and a CSV row.

use vstd::prelude::*;
use crate::commit::{Commit, CommitView};

verus! {

/// What the command printed and returned at one commit.
pub struct IterationOutput {
    pub commit: Commit,
    pub stdout: String,
    pub stderr: String,
    pub status: i32,
}

/// What an [`IterationOutput`] holds, as character sequences.
pub struct OutputView {
    pub commit: CommitView,
    pub stdout: Seq<char>,
    pub stderr: Seq<char>,
    pub status: i32,
}

impl View for IterationOutput {
    type V = OutputView;

    open spec fn view(&self) -> OutputView {
        OutputView {
            commit: self.commit@,
            stdout: self.stdout@,
            stderr: self.stderr@,
            status: self.status,
        }
    }
}

/// The text that a lossy UTF-8 decoding makes of `b`.
pub uninterp spec fn lossy_utf8(b: Seq<u8>) -> Seq<char>;

/// Relies on `String::from_utf8_lossy`: valid UTF-8 is decoded as it is, and
/// any invalid sequence becomes a replacement character instead of an error.
#[verifier::external_body]
fn decode_lossy(b: &[u8]) -> (r: String)
    ensures
        r@ == lossy_utf8(b@),
        vstd::utf8::valid_utf8(b@) ==> r@ == vstd::utf8::decode_utf8(b@),
{
    String::from_utf8_lossy(b).into_owned()
}

/// The digit `d` (below ten) as a character.
pub open spec fn digit_char(d: nat) -> char {
    seq!['0', '1', '2', '3', '4', '5', '6', '7', '8', '9'][d as int]
}

/// The decimal digits of `n`, most significant first.
pub open spec fn digits_of(n: nat) -> Seq<char>
    decreases n,
{
    if n < 10 {
        seq![digit_char(n)]
    } else {
        digits_of(n / 10).push(digit_char(n % 10))
    }
}

/// `n` written in decimal, with a leading minus sign when negative.
pub open spec fn decimal_of(n: int) -> Seq<char> {
    if n < 0 {
        seq!['-'] + digits_of((-n) as nat)
    } else {
        digits_of(n as nat)
    }
}

/// Relies on `i32`'s `Display`: the decimal form, with `-` before a negative number.
#[verifier::external_body]
pub(crate) fn decimal_text(n: i32) -> (r: String)
    ensures
        r@ == decimal_of(n as int),
{
    n.to_string()
}

impl IterationOutput {
    /// Gathers what the command produced at `commit`. Output bytes that are not
    /// valid UTF-8 are decoded lossily rather than refused.
    pub fn new(commit: Commit, stdout: &[u8], stderr: &[u8], status: i32) -> (r: IterationOutput)
        ensures
            r@ == (OutputView {
                commit: commit@,
                stdout: lossy_utf8(stdout@),
                stderr: lossy_utf8(stderr@),
                status,
            }),
            vstd::utf8::valid_utf8(stdout@) ==> r.stdout@ == vstd::utf8::decode_utf8(stdout@),
            vstd::utf8::valid_utf8(stderr@) ==> r.stderr@ == vstd::utf8::decode_utf8(stderr@),
    {
        IterationOutput { commit, stdout: decode_lossy(stdout), stderr: decode_lossy(stderr), status }
    }
}

} // verus!
