//! The removal confirmation.
//!
//! Removal is destructive, so the tool asks the user and reads one line
//! from the terminal. Only the single lowercase letter `y`, once the line
//! is trimmed of surrounding whitespace, confirms; a failed read aborts
//! with an error, and every other answer aborts without touching anything.

use vstd::prelude::*;

verus! {

/// The characters a confirmation line is trimmed of: the ASCII whitespace
/// that a line read from a terminal can carry around the answer.
pub open spec fn is_line_space(c: char) -> bool {
    c == ' ' || c == '\t' || c == '\r' || c == '\n'
}

/// `s` without its leading whitespace.
pub open spec fn spec_trim_start(s: Seq<char>) -> Seq<char>
    decreases s.len(),
{
    if s.len() > 0 && is_line_space(s[0]) {
        spec_trim_start(s.drop_first())
    } else {
        s
    }
}

/// `s` without its trailing whitespace.
pub open spec fn spec_trim_end(s: Seq<char>) -> Seq<char>
    decreases s.len(),
{
    if s.len() > 0 && is_line_space(s.last()) {
        spec_trim_end(s.drop_last())
    } else {
        s
    }
}

/// `s` without leading and trailing whitespace.
pub open spec fn spec_trim(s: Seq<char>) -> Seq<char> {
    spec_trim_end(spec_trim_start(s))
}

/// Trimming the start keeps exactly the suffix that begins at the first
/// non-whitespace character.
proof fn lemma_trim_start_subrange(s: Seq<char>, i: int)
    requires
        0 <= i <= s.len(),
        forall|k: int| 0 <= k < i ==> is_line_space(s[k]),
        i == s.len() || !is_line_space(s[i]),
    ensures
        spec_trim_start(s) == s.subrange(i, s.len() as int),
    decreases i,
{
    if i == 0 {
        assert(s.subrange(0, s.len() as int) =~= s);
    } else {
        let t = s.drop_first();
        assert(forall|k: int| 0 <= k < i - 1 ==> is_line_space(#[trigger] t[k]));
        lemma_trim_start_subrange(t, i - 1);
        assert(t.subrange(i - 1, t.len() as int) =~= s.subrange(i, s.len() as int));
    }
}

/// Trimming the end keeps exactly the prefix that ends at the last
/// non-whitespace character.
proof fn lemma_trim_end_subrange(s: Seq<char>, j: int)
    requires
        0 <= j <= s.len(),
        forall|k: int| j <= k < s.len() ==> is_line_space(s[k]),
        j == 0 || !is_line_space(s[j - 1]),
    ensures
        spec_trim_end(s) == s.subrange(0, j),
    decreases s.len(),
{
    if j == s.len() {
        assert(s.subrange(0, j) =~= s);
    } else {
        let t = s.drop_last();
        assert(is_line_space(s.last()));
        assert(forall|k: int| j <= k < t.len() ==> is_line_space(#[trigger] t[k]));
        lemma_trim_end_subrange(t, j);
        assert(t.subrange(0, j) =~= s.subrange(0, j));
    }
}

/// Whether `c` is one of the whitespace characters a line is trimmed of.
fn is_space_char(c: char) -> (r: bool)
    ensures
        r == is_line_space(c),
{
    c == ' ' || c == '\t' || c == '\r' || c == '\n'
}

/// True exactly when the answer line, trimmed of surrounding whitespace,
/// is the single lowercase letter `y`.
pub fn confirms(line: &str) -> (r: bool)
    ensures
        r == (spec_trim(line@) == seq!['y']),
{
    let n = line.unicode_len();
    let mut start: usize = 0;
    while start < n && is_space_char(line.get_char(start))
        invariant
            start <= n,
            n == line@.len(),
            forall|k: int| 0 <= k < start ==> is_line_space(line@[k]),
        decreases n - start,
    {
        start = start + 1;
    }
    let mut end: usize = n;
    while end > start && is_space_char(line.get_char(end - 1))
        invariant
            start <= end <= n,
            n == line@.len(),
            forall|k: int| end <= k < n ==> is_line_space(line@[k]),
        decreases end,
    {
        end = end - 1;
    }
    proof {
        lemma_trim_start_subrange(line@, start as int);
        let t = line@.subrange(start as int, n as int);
        lemma_trim_end_subrange(t, end - start);
        assert(t.subrange(0, end - start) =~= line@.subrange(start as int, end as int));
    }
    if end - start == 1 {
        let c = line.get_char(start);
        let hit = c == 'y';
        proof {
            let trimmed = line@.subrange(start as int, end as int);
            if hit {
                assert(trimmed =~= seq!['y']);
            } else {
                assert(trimmed[0] == c);
            }
        }
        hit
    } else {
        proof {
            assert(seq!['y'].len() == 1);
        }
        false
    }
}

/// What the tool does with the answer to the removal prompt.
#[derive(Clone, Copy, Debug, PartialEq, Eq)]
pub enum RemoveDecision {
    /// The confirmation line could not be read: report the failure.
    ReadFailed,
    /// The trimmed answer was exactly `y`: remove the directory.
    Confirmed,
    /// Any other answer: abort, touching nothing.
    Aborted,
}

/// The decision that an answer line denotes. `read_ok` says whether the
/// line was read at all.
pub open spec fn spec_decide_removal(read_ok: bool, line: Seq<char>) -> RemoveDecision {
    if !read_ok {
        RemoveDecision::ReadFailed
    } else if spec_trim(line) == seq!['y'] {
        RemoveDecision::Confirmed
    } else {
        RemoveDecision::Aborted
    }
}

/// Turns the outcome of reading the confirmation line into the decision
/// the tool acts on.
pub fn decide_removal(read_ok: bool, line: &str) -> (d: RemoveDecision)
    ensures
        d == spec_decide_removal(read_ok, line@),
{
    if !read_ok {
        RemoveDecision::ReadFailed
    } else if confirms(line) {
        RemoveDecision::Confirmed
    } else {
        RemoveDecision::Aborted
    }
}

} // verus!
