//! Quote-aware splitting of one input line into tokens, and splitting of a
//! text into its lines for the help renderer.

use crate::strutil::chars_to_string;
use vstd::prelude::*;
use vstd::string::StrSliceExecFns;

verus! {

/// The tokens of `s` from position `i` on, scanned with quote state
/// `in_quotes`, the pending token `cur` and the tokens `acc` already emitted.
/// A quote character (single or double) toggles the quote state and is never
/// emitted; a space outside quotes ends the pending token, which is emitted
/// only if non-empty; every other character is appended to the pending token.
/// At the end of the input the pending token is emitted if non-empty.
pub open spec fn spec_tokenize_from(
    s: Seq<char>,
    i: int,
    in_quotes: bool,
    cur: Seq<char>,
    acc: Seq<Seq<char>>,
) -> Seq<Seq<char>>
    decreases s.len() - i,
{
    if i < 0 || i >= s.len() {
        if cur.len() > 0 {
            acc.push(cur)
        } else {
            acc
        }
    } else {
        let c = s[i];
        if c == '\'' || c == '"' {
            spec_tokenize_from(s, i + 1, !in_quotes, cur, acc)
        } else if c == ' ' && !in_quotes {
            if cur.len() > 0 {
                spec_tokenize_from(s, i + 1, in_quotes, Seq::empty(), acc.push(cur))
            } else {
                spec_tokenize_from(s, i + 1, in_quotes, cur, acc)
            }
        } else {
            spec_tokenize_from(s, i + 1, in_quotes, cur.push(c), acc)
        }
    }
}

/// The tokens of the input line `s`: whitespace-delimited words, with spans
/// between quote characters kept atomic and the quote characters elided. An
/// empty or all-whitespace input has no tokens.
pub open spec fn spec_tokenize(s: Seq<char>) -> Seq<Seq<char>> {
    spec_tokenize_from(s, 0, false, Seq::empty(), Seq::empty())
}

/// Splits `input` into whitespace-delimited tokens, treating quoted spans as
/// atomic and eliding the quote characters themselves.
pub fn tokenize(input: &str) -> (tokens: Vec<String>)
    ensures
        tokens.deep_view() == spec_tokenize(input@),
{
    let n = input.unicode_len();
    let mut tokens: Vec<String> = Vec::new();
    let mut cur: Vec<char> = Vec::new();
    let mut in_quotes = false;
    let mut i: usize = 0;
    proof {
        assert(tokens.deep_view() =~= Seq::<Seq<char>>::empty());
    }
    while i < n
        invariant
            n == input@.len(),
            i <= n,
            spec_tokenize_from(input@, i as int, in_quotes, cur@, tokens.deep_view())
                == spec_tokenize(input@),
        decreases n - i,
    {
        let ghost prev = tokens.deep_view();
        let c = input.get_char(i);
        if c == '\'' || c == '"' {
            in_quotes = !in_quotes;
        } else if c == ' ' && !in_quotes {
            if cur.len() > 0 {
                tokens.push(chars_to_string(&cur));
                cur = Vec::new();
                proof {
                    assert(tokens.deep_view() =~= prev.push(tokens@[prev.len() as int]@));
                }
            }
        } else {
            cur.push(c);
        }
        i += 1;
    }
    if cur.len() > 0 {
        let ghost prev = tokens.deep_view();
        tokens.push(chars_to_string(&cur));
        proof {
            assert(tokens.deep_view() =~= prev.push(tokens@[prev.len() as int]@));
        }
    }
    tokens
}

/// The lines of `s` from position `i` on, with the pending line `cur` and the
/// lines `acc` already emitted. A newline ends the pending line, whose one
/// trailing carriage return, if any, is dropped; at the end of the input the
/// pending line is emitted only if non-empty.
pub open spec fn spec_lines_from(
    s: Seq<char>,
    i: int,
    cur: Seq<char>,
    acc: Seq<Seq<char>>,
) -> Seq<Seq<char>>
    decreases s.len() - i,
{
    if i < 0 || i >= s.len() {
        if cur.len() > 0 {
            acc.push(cur)
        } else {
            acc
        }
    } else {
        let c = s[i];
        if c == '\n' {
            if cur.len() > 0 && cur[cur.len() - 1] == '\r' {
                spec_lines_from(s, i + 1, Seq::empty(), acc.push(cur.drop_last()))
            } else {
                spec_lines_from(s, i + 1, Seq::empty(), acc.push(cur))
            }
        } else {
            spec_lines_from(s, i + 1, cur.push(c), acc)
        }
    }
}

/// The lines of the text `s`, split at newlines; a line's trailing carriage
/// return is dropped, and a trailing newline does not open a final empty
/// line.
pub open spec fn spec_lines(s: Seq<char>) -> Seq<Seq<char>> {
    spec_lines_from(s, 0, Seq::empty(), Seq::empty())
}

/// Splits `text` into its lines.
pub fn split_lines(text: &str) -> (lines: Vec<String>)
    ensures
        lines.deep_view() == spec_lines(text@),
{
    let n = text.unicode_len();
    let mut lines: Vec<String> = Vec::new();
    let mut cur: Vec<char> = Vec::new();
    let mut i: usize = 0;
    proof {
        assert(lines.deep_view() =~= Seq::<Seq<char>>::empty());
    }
    while i < n
        invariant
            n == text@.len(),
            i <= n,
            spec_lines_from(text@, i as int, cur@, lines.deep_view()) == spec_lines(text@),
        decreases n - i,
    {
        let ghost prev = lines.deep_view();
        let c = text.get_char(i);
        if c == '\n' {
            if cur.len() > 0 && cur[cur.len() - 1] == '\r' {
                cur.pop();
            }
            lines.push(chars_to_string(&cur));
            cur = Vec::new();
            proof {
                assert(lines.deep_view() =~= prev.push(lines@[prev.len() as int]@));
            }
        } else {
            cur.push(c);
        }
        i += 1;
    }
    if cur.len() > 0 {
        let ghost prev = lines.deep_view();
        lines.push(chars_to_string(&cur));
        proof {
            assert(lines.deep_view() =~= prev.push(lines@[prev.len() as int]@));
        }
    }
    lines
}

} // verus!
