//! Reading the engine's side of the line-based text protocol: the
//! best-move report that ends a search, and the idle confirmation that
//! follows a stop.

use vstd::prelude::*;

verus! {

/// The index of the first space in `s` at or after `i`, or the length if
/// there is none: the end of the token starting at `i`.
pub open spec fn token_end(s: Seq<char>, i: int) -> int
    decreases s.len() - i,
{
    if i < 0 || i >= s.len() {
        s.len() as int
    } else if s[i] == ' ' {
        i
    } else {
        token_end(s, i + 1)
    }
}

proof fn lemma_token_end_at(s: Seq<char>, i: int, j: int)
    requires
        0 <= i <= j <= s.len(),
        forall|k: int| i <= k < j ==> s[k] != ' ',
        j == s.len() || s[j] == ' ',
    ensures
        token_end(s, i) == j,
    decreases j - i,
{
    if i < j {
        lemma_token_end_at(s, i + 1, j);
    }
}

/// Whether a line is a best-move report: the word `bestmove`, one space,
/// then a non-empty move token.
pub open spec fn bestmove_wf(s: Seq<char>) -> bool {
    &&& s.len() > 9
    &&& s.subrange(0, 9) == "bestmove "@
    &&& s[9] != ' '
}

/// The move token of a best-move report: everything from the tenth
/// character to the first space after it (a trailing ponder hint is
/// ignored).
pub open spec fn spec_bestmove_of(s: Seq<char>) -> Seq<char> {
    s.subrange(9, token_end(s, 9))
}

/// Extracts the reported move from a best-move line. Malformed or missing
/// report data yields nothing.
pub fn parse_bestmove_line(line: &str) -> (r: Option<String>)
    ensures
        r is Some <==> bestmove_wf(line@),
        r is Some ==> r->0@ == spec_bestmove_of(line@),
{
    proof {
        reveal_strlit("bestmove ");
    }
    let n = line.unicode_len();
    if n <= 9 {
        return None;
    }
    if !(line.get_char(0) == 'b' && line.get_char(1) == 'e' && line.get_char(2) == 's'
        && line.get_char(3) == 't' && line.get_char(4) == 'm' && line.get_char(5) == 'o'
        && line.get_char(6) == 'v' && line.get_char(7) == 'e' && line.get_char(8) == ' ') {
        proof {
            assert(line@.subrange(0, 9) != "bestmove "@) by {
                if line@.subrange(0, 9) == "bestmove "@ {
                    assert(line@[0] == line@.subrange(0, 9)[0]);
                    assert(line@[1] == line@.subrange(0, 9)[1]);
                    assert(line@[2] == line@.subrange(0, 9)[2]);
                    assert(line@[3] == line@.subrange(0, 9)[3]);
                    assert(line@[4] == line@.subrange(0, 9)[4]);
                    assert(line@[5] == line@.subrange(0, 9)[5]);
                    assert(line@[6] == line@.subrange(0, 9)[6]);
                    assert(line@[7] == line@.subrange(0, 9)[7]);
                    assert(line@[8] == line@.subrange(0, 9)[8]);
                }
            }
        }
        return None;
    }
    proof {
        assert(line@.subrange(0, 9) =~= "bestmove "@);
    }
    if line.get_char(9) == ' ' {
        return None;
    }
    let mut j: usize = 9;
    while j < n && line.get_char(j) != ' '
        invariant
            9 <= j <= n,
            n == line@.len(),
            forall|k: int| 9 <= k < j ==> line@[k] != ' ',
        decreases n - j,
    {
        j = j + 1;
    }
    proof {
        lemma_token_end_at(line@, 9, j as int);
    }
    let token = line.substring_char(9, j);
    Some(token.to_owned())
}

/// Whether a line is the engine's idle confirmation.
pub fn is_readyok(line: &str) -> (r: bool)
    ensures
        r == (line@ == "readyok"@),
{
    proof {
        reveal_strlit("readyok");
    }
    let n = line.unicode_len();
    if n != 7 {
        return false;
    }
    let ok = line.get_char(0) == 'r' && line.get_char(1) == 'e' && line.get_char(2) == 'a'
        && line.get_char(3) == 'd' && line.get_char(4) == 'y' && line.get_char(5) == 'o'
        && line.get_char(6) == 'k';
    proof {
        if ok {
            assert(line@ =~= "readyok"@);
        }
    }
    ok
}

} // verus!
