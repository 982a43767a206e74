//! Line-level text logic: substring search (used for mention
//! highlighting), stripping the trailing newline of a received line, and
//! assembling the `"<name>: <body>"` wire shape of a chat message.

use vstd::prelude::*;
use vstd::string::*;

verus! {

/// `pat` occurs in `s` as a contiguous run starting at position `i`.
pub open spec fn matches_at(s: Seq<char>, pat: Seq<char>, i: int) -> bool {
    &&& 0 <= i
    &&& i + pat.len() <= s.len()
    &&& s.subrange(i, i + pat.len() as int) == pat
}

/// `pat` occurs somewhere in `s` as a contiguous substring.
pub open spec fn contains_seq(s: Seq<char>, pat: Seq<char>) -> bool {
    exists|i: int| matches_at(s, pat, i)
}

/// `pat` occurs in `s` at position `i` exactly; helper for the search.
fn match_at(s: &str, pat: &str, i: usize, n: usize, m: usize) -> (r: bool)
    requires
        n == s@.len(),
        m == pat@.len(),
        i + m <= n,
    ensures
        r == matches_at(s@, pat@, i as int),
{
    let mut j: usize = 0;
    while j < m
        invariant
            n == s@.len(),
            m == pat@.len(),
            i + m <= n,
            j <= m,
            forall|k: int| 0 <= k < j ==> s@[i + k] == pat@[k],
        decreases m - j,
    {
        if s.get_char(i + j) != pat.get_char(j) {
            proof {
                if matches_at(s@, pat@, i as int) {
                    assert(s@.subrange(i as int, i + m as int)[j as int] == pat@[j as int]);
                }
            }
            return false;
        }
        j += 1;
    }
    proof {
        assert(s@.subrange(i as int, i + m as int) =~= pat@);
    }
    true
}

/// Whether `pat` occurs in `s`, by a character-by-character scan.
pub fn contains_str(s: &str, pat: &str) -> (r: bool)
    ensures
        r == contains_seq(s@, pat@),
{
    let n: usize = s.unicode_len();
    let m: usize = pat.unicode_len();
    if m > n {
        return false;
    }
    if m == 0 {
        proof {
            assert(s@.subrange(0, 0) =~= pat@);
            assert(matches_at(s@, pat@, 0));
        }
        return true;
    }
    let mut i: usize = 0;
    while i <= n - m
        invariant
            1 <= m <= n,
            n == s@.len(),
            m == pat@.len(),
            i <= n - m + 1,
            forall|k: int| 0 <= k < i ==> !matches_at(s@, pat@, k),
        decreases n - m - i + 1,
    {
        if match_at(s, pat, i, n, m) {
            return true;
        }
        i += 1;
    }
    proof {
        assert forall|k: int| !matches_at(s@, pat@, k) by {
            if 0 <= k <= n - m {
                assert(!matches_at(s@, pat@, k));
            }
        }
    }
    false
}

/// `s` with every trailing newline character removed.
pub open spec fn strip_newlines(s: Seq<char>) -> Seq<char>
    decreases s.len(),
{
    if s.len() > 0 && s.last() == '\n' {
        strip_newlines(s.drop_last())
    } else {
        s
    }
}

/// Strip the trailing newline(s) from one received line.
pub fn strip_line_end(s: &str) -> (r: String)
    ensures
        r@ == strip_newlines(s@),
{
    let n: usize = s.unicode_len();
    let mut end: usize = n;
    proof {
        assert(s@.subrange(0, n as int) =~= s@);
    }
    while end > 0 && s.get_char(end - 1) == '\n'
        invariant
            end <= n,
            n == s@.len(),
            strip_newlines(s@) == strip_newlines(s@.subrange(0, end as int)),
        decreases end,
    {
        proof {
            let t = s@.subrange(0, end as int);
            assert(t.last() == '\n');
            assert(t.drop_last() =~= s@.subrange(0, end - 1));
        }
        end = end - 1;
    }
    let r = s.substring_char(0, end).to_owned();
    proof {
        let t = s@.subrange(0, end as int);
        assert(strip_newlines(t) == t);
    }
    r
}

/// Assemble an outgoing chat line in the wire shape `"<name>: <body>"`.
pub fn format_message(name: &str, body: &str) -> (r: String)
    ensures
        r@ == name@ + ": "@ + body@,
{
    let mut r = String::from_str(name);
    r.append(": ");
    r.append(body);
    r
}

/// The substring whose presence in a line marks a mention of `name`:
/// `"@<name>"`.
pub fn mention_pattern(name: &str) -> (r: String)
    ensures
        r@ == "@"@ + name@,
{
    let mut r = String::from_str("@");
    r.append(name);
    r
}

/// One message as written to a socket: the text followed by a newline.
pub fn frame_line(msg: &str) -> (r: String)
    ensures
        r@ == msg@ + "\n"@,
{
    let mut r = String::from_str(msg);
    r.append("\n");
    r
}

} // verus!
